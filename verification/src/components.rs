//! Small building blocks of the client: permissions, tools, commands,
//! hooks, authentication, extensions and editor state.
use vstd::prelude::*;
use vstd::string::*;

use crate::json::JsonValue;
use crate::message::Message;
use crate::session::SessionConfig;

verus! {

/// How tool use is approved.
#[derive(Debug, Clone, Copy, PartialEq, Eq, Structural)]
pub enum PermissionMode {
    Default,
    AcceptEdits,
    BypassPermissions,
    DontAsk,
    Plan,
}

/// The permissions under which tools run.
#[derive(Debug)]
pub struct PermissionContext {
    pub mode: PermissionMode,
    pub allowed_tools: Vec<String>,
    pub disallowed_tools: Vec<String>,
    pub working_directory: Option<String>,
}

impl Default for PermissionContext {
    /// The default mode, no tool listed, no working directory.
    fn default() -> (r: PermissionContext)
        ensures
            r.mode == PermissionMode::Default,
            r.allowed_tools@.len() == 0,
            r.disallowed_tools@.len() == 0,
            r.working_directory is None,
    {
        PermissionContext {
            mode: PermissionMode::Default,
            allowed_tools: Vec::new(),
            disallowed_tools: Vec::new(),
            working_directory: None,
        }
    }
}

/// Where a tool runs.
#[derive(Debug)]
pub struct ToolContext {
    pub working_dir: String,
    pub session_id: String,
}

/// What a tool produced.
#[derive(Debug)]
pub struct ToolResult {
    pub content: String,
    pub is_error: bool,
}

/// Why a tool failed.
#[derive(Debug)]
pub struct ToolError {
    pub message: String,
}

/// A tool that the model can call.
pub trait Tool {
    fn name(&self) -> &str;

    fn description(&self) -> &str;

    fn input_schema(&self) -> JsonValue;

    fn execute(&self, input: JsonValue, context: &ToolContext) -> Result<ToolResult, ToolError>;
}

/// Why a command failed.
#[derive(Debug)]
pub struct CommandError {
    pub message: String,
}

/// A command of the user interface.
pub trait Command {
    fn name(&self) -> &str;

    fn description(&self) -> &str;

    fn execute(&self, args: &[&str]) -> Result<String, CommandError>;
}

/// An event that hooks observe.
#[derive(Debug, Clone, Copy, PartialEq, Eq, Structural)]
pub enum HookEvent {
    Setup,
    SessionStart,
    PreToolUse,
    PostToolUse,
    Notification,
}

/// Why a hook failed.
#[derive(Debug)]
pub struct HookError {
    pub message: String,
}

/// Code run on events.
pub trait Hook {
    fn name(&self) -> &str;

    fn on_event(&self, event: &HookEvent) -> Result<(), HookError>;
}

/// Why authentication failed.
#[derive(Debug)]
pub struct AuthError {
    pub message: String,
}

/// A source of access tokens.
pub trait AuthProvider {
    fn authenticate(&self) -> Result<String, AuthError>;

    fn refresh(&self, token: &str) -> Result<String, AuthError>;
}

/// Authentication by a fixed API key.
#[derive(Debug)]
pub struct ApiKeyProvider {
    pub api_key: String,
}

impl ApiKeyProvider {
    /// A provider of the given key.
    pub fn new(api_key: &str) -> (r: ApiKeyProvider)
        ensures
            r.api_key@ == api_key@,
    {
        ApiKeyProvider { api_key: String::from_str(api_key) }
    }
}

impl AuthProvider for ApiKeyProvider {
    /// The key.
    fn authenticate(&self) -> (r: Result<String, AuthError>)
        ensures
            r matches Ok(t) && t@ == self.api_key@,
    {
        Ok(self.api_key.clone())
    }

    /// The key, whatever the old token.
    fn refresh(&self, _token: &str) -> (r: Result<String, AuthError>)
        ensures
            r matches Ok(t) && t@ == self.api_key@,
    {
        Ok(self.api_key.clone())
    }
}

/// Authentication by OAuth.
#[derive(Debug)]
pub struct OAuthProvider {
    pub client_id: String,
    pub auth_url: String,
}

impl OAuthProvider {
    /// A provider for the given client and authorisation URL.
    pub fn new(client_id: &str, auth_url: &str) -> (r: OAuthProvider)
        ensures
            r.client_id@ == client_id@,
            r.auth_url@ == auth_url@,
    {
        OAuthProvider { client_id: String::from_str(client_id), auth_url: String::from_str(auth_url) }
    }
}

impl AuthProvider for OAuthProvider {
    /// An empty token.
    fn authenticate(&self) -> (r: Result<String, AuthError>)
        ensures
            r matches Ok(t) && t@ == Seq::<char>::empty(),
    {
        Ok(String::new())
    }

    /// The same token.
    fn refresh(&self, token: &str) -> (r: Result<String, AuthError>)
        ensures
            r matches Ok(t) && t@ == token@,
    {
        Ok(String::from_str(token))
    }
}

/// A sandbox for commands.
#[derive(Debug)]
pub struct Sandbox {
    pub enabled: bool,
}

impl Sandbox {
    /// A disabled sandbox.
    pub fn new() -> (r: Sandbox)
        ensures
            !r.enabled,
    {
        Sandbox { enabled: false }
    }
}

/// A reusable instruction set.
#[derive(Debug)]
pub struct Skill {
    pub name: String,
    pub description: String,
    pub content: String,
}

impl Skill {
    /// A skill with the given name, description and content.
    pub fn new(name: &str, description: &str, content: &str) -> (r: Skill)
        ensures
            r.name@ == name@,
            r.description@ == description@,
            r.content@ == content@,
    {
        Skill {
            name: String::from_str(name),
            description: String::from_str(description),
            content: String::from_str(content),
        }
    }
}

/// The mode of the vim-style editor.
#[derive(Debug, Clone, Copy, PartialEq, Eq, Structural)]
pub enum VimMode {
    Normal,
    Insert,
    Visual,
    Command,
}

/// The state of the vim-style editor.
#[derive(Debug)]
pub struct VimState {
    pub mode: VimMode,
}

impl VimState {
    /// Normal mode.
    pub fn new() -> (r: VimState)
        ensures
            r.mode == VimMode::Normal,
    {
        VimState { mode: VimMode::Normal }
    }
}

/// A background service.
#[derive(Debug)]
pub struct Daemon {
    pub running: bool,
}

impl Daemon {
    /// A stopped service.
    pub fn new() -> (r: Daemon)
        ensures
            !r.running,
    {
        Daemon { running: false }
    }
}

/// A language-server client.
#[derive(Debug)]
pub struct LspClient {
    pub language: String,
}

impl LspClient {
    /// A client for the given language.
    pub fn new(language: &str) -> (r: LspClient)
        ensures
            r.language@ == language@,
    {
        LspClient { language: String::from_str(language) }
    }
}

/// Voice input and output.
#[derive(Debug)]
pub struct Voice {
    pub stt_enabled: bool,
    pub tts_enabled: bool,
}

impl Voice {
    /// Both directions off.
    pub fn new() -> (r: Voice)
        ensures
            !r.stt_enabled,
            !r.tts_enabled,
    {
        Voice { stt_enabled: false, tts_enabled: false }
    }
}

/// The updater.
#[derive(Debug)]
pub struct AutoUpdater {
    pub enabled: bool,
}

impl AutoUpdater {
    /// An enabled updater.
    pub fn new() -> (r: AutoUpdater)
        ensures
            r.enabled,
    {
        AutoUpdater { enabled: true }
    }
}

/// How the client reaches its host.
#[derive(Debug, Clone, Copy, PartialEq, Eq, Structural)]
pub enum BridgeMode {
    Ssh,
    Direct,
    Cloud,
}

/// The connection to the host.
#[derive(Debug)]
pub struct Bridge {
    pub mode: BridgeMode,
}

impl Bridge {
    /// A direct connection.
    pub fn new() -> (r: Bridge)
        ensures
            r.mode == BridgeMode::Direct,
    {
        Bridge { mode: BridgeMode::Direct }
    }
}

/// Coordination of helper agents.
#[derive(Debug)]
pub struct BuddyCoordinator {
    pub agents: Vec<String>,
}

impl BuddyCoordinator {
    /// No agents.
    pub fn new() -> (r: BuddyCoordinator)
        ensures
            r.agents@.len() == 0,
    {
        BuddyCoordinator { agents: Vec::new() }
    }
}

/// A client of a model-context-protocol server.
#[derive(Debug)]
pub struct McpClient {
    pub name: String,
    pub command: String,
    pub args: Vec<String>,
}

impl McpClient {
    /// A client that runs `command` without arguments.
    pub fn new(name: &str, command: &str) -> (r: McpClient)
        ensures
            r.name@ == name@,
            r.command@ == command@,
            r.args@.len() == 0,
    {
        McpClient { name: String::from_str(name), command: String::from_str(command), args: Vec::new() }
    }
}

/// A plugin.
#[derive(Debug)]
pub struct Plugin {
    pub name: String,
    pub version: String,
}

impl Plugin {
    /// A plugin with the given name and version.
    pub fn new(name: &str, version: &str) -> (r: Plugin)
        ensures
            r.name@ == name@,
            r.version@ == version@,
    {
        Plugin { name: String::from_str(name), version: String::from_str(version) }
    }
}

/// A remembered note.
#[derive(Debug)]
pub struct Memory {
    pub id: String,
    pub content: String,
    pub tags: Vec<String>,
}

impl Memory {
    /// A note with the given id and content and no tags.
    pub fn new(id: &str, content: &str) -> (r: Memory)
        ensures
            r.id@ == id@,
            r.content@ == content@,
            r.tags@.len() == 0,
    {
        Memory { id: String::from_str(id), content: String::from_str(content), tags: Vec::new() }
    }
}

/// An analytics event with its properties.
#[derive(Debug)]
pub struct AnalyticsEvent {
    pub name: String,
    pub properties: Vec<(String, JsonValue)>,
}

impl AnalyticsEvent {
    /// An event with the given name and no properties.
    pub fn new(name: &str) -> (r: AnalyticsEvent)
        ensures
            r.name@ == name@,
            r.properties@.len() == 0,
    {
        AnalyticsEvent { name: String::from_str(name), properties: Vec::new() }
    }
}

/// The state of the application.
#[derive(Debug)]
pub struct AppState {
    pub messages: Vec<Message>,
    pub session_id: Option<String>,
    pub config: SessionConfig,
}

impl AppState {
    /// No messages, no session, default settings.
    pub fn new() -> (r: AppState)
        ensures
            r.messages@.len() == 0,
            r.session_id is None,
            r.config.max_tokens == crate::session::default_max_tokens(),
            r.config.model@ == crate::session::default_model(),
    {
        AppState { messages: Vec::new(), session_id: None, config: SessionConfig::default() }
    }
}

} // verus!
