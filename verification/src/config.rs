//! Global, project and session settings, and how they are stored as
//! key/value pairs.
use vstd::prelude::*;
use vstd::string::*;

use crate::error::ConfigError;
use crate::json_text::json_escape;
use crate::json::{JsonValue, json_parse, json_string_list, parse_json};
use crate::message::opt_text;
use crate::schema::ConfigEntity;
use crate::session::{SessionConfig, default_model, default_max_tokens};
use crate::table::{StringTable, table_map, keys_unique};
use crate::text::{
    parse_bool_spec, parse_i32_spec, parse_usize_spec, bool_text, decimal, signed_decimal,
    seq_has_prefix, seq_strip_prefix, concat_strs, concat_seqs, digits_value, all_digits, digit_char,
    is_digit, signed_text_value, unsigned_text_value,
};

verus! {

/// Settings that hold for every project.
#[derive(Debug)]
pub struct GlobalConfig {
    pub theme: String,
    pub editor_mode: String,
    pub auto_updates: bool,
    pub has_completed_onboarding: bool,
    pub num_startups: i32,
    pub install_method: Option<String>,
    pub api_key_helper: Option<String>,
    pub aws_auth_refresh: Option<String>,
    pub aws_credential_export: Option<String>,
    pub extra: Vec<(String, JsonValue)>,
}

impl Default for GlobalConfig {
    /// Dark theme, emacs editing, updates on, onboarding not done, no start-up counted.
    fn default() -> (r: GlobalConfig)
        ensures
            r.theme@ == "dark"@,
            r.editor_mode@ == "emacs"@,
            r.auto_updates,
            !r.has_completed_onboarding,
            r.num_startups == 0,
            r.install_method is None,
            r.api_key_helper is None,
            r.aws_auth_refresh is None,
            r.aws_credential_export is None,
            r.extra@.len() == 0,
    {
        GlobalConfig {
            theme: String::from_str("dark"),
            editor_mode: String::from_str("emacs"),
            auto_updates: true,
            has_completed_onboarding: false,
            num_startups: 0,
            install_method: None,
            api_key_helper: None,
            aws_auth_refresh: None,
            aws_credential_export: None,
            extra: Vec::new(),
        }
    }
}

/// Settings of one project.
#[derive(Debug)]
pub struct ProjectConfig {
    pub allowed_tools: Vec<String>,
    pub mcp_context_uris: Vec<String>,
    pub mcp_servers: Vec<(String, JsonValue)>,
    pub has_trust_dialog_accepted: bool,
    pub has_completed_project_onboarding: bool,
    pub project_onboarding_seen_count: i32,
    pub enabled_mcp_servers: Vec<String>,
    pub disabled_mcp_servers: Vec<String>,
    pub example_files: Vec<String>,
}

impl Default for ProjectConfig {
    /// Nothing allowed, listed or accepted.
    fn default() -> (r: ProjectConfig)
        ensures
            r.allowed_tools@.len() == 0,
            r.mcp_context_uris@.len() == 0,
            r.mcp_servers@.len() == 0,
            !r.has_trust_dialog_accepted,
            !r.has_completed_project_onboarding,
            r.project_onboarding_seen_count == 0,
            r.enabled_mcp_servers@.len() == 0,
            r.disabled_mcp_servers@.len() == 0,
            r.example_files@.len() == 0,
    {
        ProjectConfig {
            allowed_tools: Vec::new(),
            mcp_context_uris: Vec::new(),
            mcp_servers: Vec::new(),
            has_trust_dialog_accepted: false,
            has_completed_project_onboarding: false,
            project_onboarding_seen_count: 0,
            enabled_mcp_servers: Vec::new(),
            disabled_mcp_servers: Vec::new(),
            example_files: Vec::new(),
        }
    }
}

/// The text views of some strings.
pub open spec fn string_views(v: Seq<String>) -> Seq<Seq<char>> {
    v.map_values(|s: String| s@)
}

/// A stored flag: the stored text read as a boolean, `default` when it is
/// missing or is neither `true` nor `false`.
pub open spec fn stored_flag(v: Option<String>, default: bool) -> bool {
    match v {
        Some(s) => match parse_bool_spec(s@) {
            Some(b) => b,
            None => default,
        },
        None => default,
    }
}

/// A stored count: the stored text read as an `i32`, `0` when it is missing
/// or not such a number.
pub open spec fn stored_count(v: Option<String>) -> i32 {
    match v {
        Some(s) => match parse_i32_spec(s@) {
            Some(n) => n,
            None => 0,
        },
        None => 0,
    }
}

/// A stored list: the stored JSON read as an array of strings, empty when it
/// is missing or not such an array.
pub open spec fn stored_list(v: Option<String>) -> Seq<Seq<char>> {
    match v {
        Some(s) => match json_string_list(json_parse(s@)) {
            Some(l) => l,
            None => Seq::empty(),
        },
        None => Seq::empty(),
    }
}

fn flag_from(v: &Option<String>, default: bool) -> (r: bool)
    ensures
        r == stored_flag(*v, default),
{
    match v {
        Some(s) => match crate::text::parse_bool(s.as_str()) {
            Some(b) => b,
            None => default,
        },
        None => default,
    }
}

fn count_from(v: &Option<String>) -> (r: i32)
    ensures
        r == stored_count(*v),
{
    match v {
        Some(s) => match crate::text::parse_i32(s.as_str()) {
            Some(n) => n,
            None => 0,
        },
        None => 0,
    }
}

fn list_from(v: &Option<String>) -> (r: Vec<String>)
    ensures
        string_views(r@) == stored_list(*v),
{
    match v {
        Some(s) => match parse_json(s.as_str()) {
            Some(j) => match j.string_list() {
                Some(l) => l,
                None => Vec::new(),
            },
            None => Vec::new(),
        },
        None => Vec::new(),
    }
}

impl GlobalConfig {
    /// The global settings read back from the stored values of `theme`,
    /// `editor_mode`, `auto_updates`, `has_completed_onboarding`,
    /// `num_startups` and `api_key_helper`; a missing or unreadable value
    /// leaves the default.
    pub fn from_stored(
        theme: Option<String>,
        editor_mode: Option<String>,
        auto_updates: Option<String>,
        has_completed_onboarding: Option<String>,
        num_startups: Option<String>,
        api_key_helper: Option<String>,
    ) -> (r: GlobalConfig)
        ensures
            r.theme@ == match theme {
                Some(t) => t@,
                None => "dark"@,
            },
            r.editor_mode@ == match editor_mode {
                Some(t) => t@,
                None => "emacs"@,
            },
            r.auto_updates == stored_flag(auto_updates, true),
            r.has_completed_onboarding == stored_flag(has_completed_onboarding, false),
            r.num_startups == stored_count(num_startups),
            r.api_key_helper == api_key_helper,
            r.install_method is None,
            r.aws_auth_refresh is None,
            r.aws_credential_export is None,
            r.extra@.len() == 0,
    {
        let mut config = GlobalConfig::default();
        config.auto_updates = flag_from(&auto_updates, true);
        config.has_completed_onboarding = flag_from(&has_completed_onboarding, false);
        config.num_startups = count_from(&num_startups);
        if let Some(t) = theme {
            config.theme = t;
        }
        if let Some(m) = editor_mode {
            config.editor_mode = m;
        }
        if let Some(h) = api_key_helper {
            config.api_key_helper = Some(h);
        }
        config
    }

    /// The key/value pairs under which the settings are stored, in the order
    /// they are written: theme, editor mode, updates, onboarding, start-ups,
    /// and the key helper when set.
    pub fn stored_entries(&self) -> (r: Vec<(String, String)>)
        ensures
            entry_views(r@) == global_entries(*self),
    {
        let mut r: Vec<(String, String)> = Vec::new();
        r.push((String::from_str("theme"), self.theme.clone()));
        r.push((String::from_str("editor_mode"), self.editor_mode.clone()));
        r.push((String::from_str("auto_updates"), crate::text::bool_to_string(self.auto_updates)));
        r.push(
            (
                String::from_str("has_completed_onboarding"),
                crate::text::bool_to_string(self.has_completed_onboarding),
            ),
        );
        r.push((String::from_str("num_startups"), crate::text::i32_to_string(self.num_startups)));
        if let Some(h) = &self.api_key_helper {
            r.push((String::from_str("api_key_helper"), h.clone()));
        }
        assert(entry_views(r@) =~= global_entries(*self));
        r
    }
}

/// The text views of key/value pairs.
pub open spec fn entry_views(v: Seq<(String, String)>) -> Seq<(Seq<char>, Seq<char>)> {
    v.map_values(|e: (String, String)| (e.0@, e.1@))
}

/// The stored form of the global settings.
pub open spec fn global_entries(c: GlobalConfig) -> Seq<(Seq<char>, Seq<char>)> {
    seq![
        ("theme"@, c.theme@),
        ("editor_mode"@, c.editor_mode@),
        ("auto_updates"@, bool_text(c.auto_updates)),
        ("has_completed_onboarding"@, bool_text(c.has_completed_onboarding)),
        ("num_startups"@, signed_decimal(c.num_startups as int)),
    ] + match c.api_key_helper {
        Some(h) => seq![("api_key_helper"@, h@)],
        None => Seq::empty(),
    }
}

/// The value that stored pairs give for `key`: that of the last pair with it.
pub open spec fn stored_value(entries: Seq<(Seq<char>, Seq<char>)>, key: Seq<char>) -> Option<Seq<char>>
    decreases entries.len(),
{
    if entries.len() == 0 {
        None
    } else if entries.last().0 == key {
        Some(entries.last().1)
    } else {
        stored_value(entries.drop_last(), key)
    }
}

/// A text read as a boolean, `default` when it is neither `true` nor `false`.
pub open spec fn text_flag(v: Option<Seq<char>>, default: bool) -> bool {
    match v {
        Some(s) => match parse_bool_spec(s) {
            Some(b) => b,
            None => default,
        },
        None => default,
    }
}

/// A text read as an `i32`, `0` when it is not one.
pub open spec fn text_count(v: Option<Seq<char>>) -> i32 {
    match v {
        Some(s) => match parse_i32_spec(s) {
            Some(n) => n,
            None => 0,
        },
        None => 0,
    }
}

proof fn lemma_decimal_digits(n: nat)
    ensures
        all_digits(decimal(n)),
        digits_value(decimal(n)) == n,
        decimal(n)[0] != '-' && decimal(n)[0] != '+',
    decreases n,
{
    if n < 10 {
        assert(((n + 48) as u8) as nat == n + 48);
        assert((digit_char(n) as nat) == n + 48);
        assert(decimal(n) =~= seq![digit_char(n)]);
        assert(seq![digit_char(n)].drop_last() =~= Seq::<char>::empty());
        assert(digits_value(Seq::<char>::empty()) == 0);
        assert(digits_value(decimal(n)) == digits_value(Seq::<char>::empty()) * 10 + ((digit_char(n) as nat) - 48) as nat);
    } else {
        lemma_decimal_digits(n / 10);
        let d = decimal(n);
        assert(d.drop_last() =~= decimal(n / 10));
        assert((n / 10) * 10 + n % 10 == n) by (nonlinear_arith);
        let dd = (n % 10) as nat;
        assert(((dd + 48) as u8) as nat == dd + 48);
        assert((digit_char(dd) as nat) == dd + 48);
        assert(d.last() == digit_char(dd));
        assert(digits_value(d) == digits_value(d.drop_last()) * 10 + ((d.last() as nat) - 48) as nat);
        assert(digits_value(d.drop_last()) == n / 10);
        assert(forall|i: int| 0 <= i < d.len() ==> is_digit(#[trigger] d[i])) by {
            assert forall|i: int| 0 <= i < d.len() implies is_digit(#[trigger] d[i]) by {
                if i < d.len() - 1 {
                    assert(d[i] == decimal(n / 10)[i]);
                }
            }
        }
        assert(d[0] == decimal(n / 10)[0]);
    }
}

/// Reading back the text of a boolean gives the boolean.
pub proof fn law_flag_text_round_trip(b: bool)
    ensures
        parse_bool_spec(bool_text(b)) == Some(b),
{
}

/// Reading back the decimal text of an `i32` gives the number.
pub proof fn law_count_text_round_trip(n: i32)
    ensures
        parse_i32_spec(signed_decimal(n as int)) == Some(n),
{
    if n < 0 {
        let m = (-(n as int)) as nat;
        lemma_decimal_digits(m);
        let s = signed_decimal(n as int);
        assert(s.drop_first() =~= decimal(m));
        assert(s[0] == '-');
    } else {
        lemma_decimal_digits(n as nat);
    }
}

/// Reading back the decimal text of a `usize` gives the number.
pub proof fn law_size_text_round_trip(n: usize)
    ensures
        parse_usize_spec(decimal(n as nat)) == Some(n),
{
    lemma_decimal_digits(n as nat);
}

/// A stored flag reads back as the flag it was stored from, whatever the
/// default; a stored count reads back as the count.
pub proof fn law_stored_values_read_back(v: String, b: bool, default: bool, w: String, n: i32)
    requires
        v@ == bool_text(b),
        w@ == signed_decimal(n as int),
    ensures
        stored_flag(Some(v), default) == b,
        stored_count(Some(w)) == n,
{
    law_count_text_round_trip(n);
}

/// Loading what `stored_entries` saved gives back the saved settings: the
/// texts stored under each key, read by `from_stored`, give the same theme,
/// editor mode, flags, start-up count and key helper.
pub proof fn law_saved_global_config_loads_back(
    c: GlobalConfig,
    theme: String,
    editor_mode: String,
    auto_updates: String,
    onboarding: String,
    startups: String,
    r: GlobalConfig,
)
    requires
        theme@ == c.theme@,
        editor_mode@ == c.editor_mode@,
        auto_updates@ == bool_text(c.auto_updates),
        onboarding@ == bool_text(c.has_completed_onboarding),
        startups@ == signed_decimal(c.num_startups as int),
        r.theme@ == theme@,
        r.editor_mode@ == editor_mode@,
        r.auto_updates == stored_flag(Some(auto_updates), true),
        r.has_completed_onboarding == stored_flag(Some(onboarding), false),
        r.num_startups == stored_count(Some(startups)),
    ensures
        r.theme@ == c.theme@,
        r.editor_mode@ == c.editor_mode@,
        r.auto_updates == c.auto_updates,
        r.has_completed_onboarding == c.has_completed_onboarding,
        r.num_startups == c.num_startups,
{
    law_stored_values_read_back(auto_updates, c.auto_updates, true, startups, c.num_startups);
    law_stored_values_read_back(onboarding, c.has_completed_onboarding, false, startups, c.num_startups);
}

/// Saving the global settings and loading them back gives the saved fields:
/// theme, editor mode, updates, onboarding, start-ups and the key helper.
pub proof fn law_global_config_round_trip(c: GlobalConfig)
    ensures
        ({
            let e = global_entries(c);
            &&& stored_value(e, "theme"@) == Some(c.theme@)
            &&& stored_value(e, "editor_mode"@) == Some(c.editor_mode@)
            &&& text_flag(stored_value(e, "auto_updates"@), true) == c.auto_updates
            &&& text_flag(stored_value(e, "has_completed_onboarding"@), false)
                == c.has_completed_onboarding
            &&& text_count(stored_value(e, "num_startups"@)) == c.num_startups
            &&& stored_value(e, "api_key_helper"@) == match c.api_key_helper {
                Some(h) => Some(h@),
                None => None,
            }
        }),
{
    reveal_strlit("theme");
    reveal_strlit("editor_mode");
    reveal_strlit("auto_updates");
    reveal_strlit("has_completed_onboarding");
    reveal_strlit("num_startups");
    reveal_strlit("api_key_helper");
    law_count_text_round_trip(c.num_startups);
    reveal_with_fuel(stored_value, 7);
    let e = global_entries(c);
    let base = seq![
        ("theme"@, c.theme@),
        ("editor_mode"@, c.editor_mode@),
        ("auto_updates"@, bool_text(c.auto_updates)),
        ("has_completed_onboarding"@, bool_text(c.has_completed_onboarding)),
        ("num_startups"@, signed_decimal(c.num_startups as int)),
    ];
    assert("theme"@.len() == 5);
    assert("editor_mode"@.len() == 11);
    assert("auto_updates"@.len() == 12);
    assert("has_completed_onboarding"@.len() == 24);
    assert("num_startups"@.len() == 12);
    assert("api_key_helper"@.len() == 14);
    assert("auto_updates"@[0] != "num_startups"@[0]);
    assert(base.drop_last() =~= seq![
        ("theme"@, c.theme@),
        ("editor_mode"@, c.editor_mode@),
        ("auto_updates"@, bool_text(c.auto_updates)),
        ("has_completed_onboarding"@, bool_text(c.has_completed_onboarding)),
    ]);
    assert(base.drop_last().drop_last() =~= seq![
        ("theme"@, c.theme@),
        ("editor_mode"@, c.editor_mode@),
        ("auto_updates"@, bool_text(c.auto_updates)),
    ]);
    assert(base.drop_last().drop_last().drop_last() =~= seq![
        ("theme"@, c.theme@),
        ("editor_mode"@, c.editor_mode@),
    ]);
    assert(base.drop_last().drop_last().drop_last().drop_last() =~= seq![("theme"@, c.theme@)]);
    assert(seq![("theme"@, c.theme@)].drop_last() =~= Seq::<(Seq<char>, Seq<char>)>::empty());
    match c.api_key_helper {
        Some(h) => {
            assert(e.drop_last() =~= base);
        },
        None => {
            assert(e =~= base);
        },
    }
}

impl ProjectConfig {
    /// The project settings read back from the stored values of
    /// `allowed_tools`, `mcp_context_uris` (JSON arrays of strings) and
    /// `has_trust_dialog_accepted`; a missing or unreadable value leaves the
    /// default.
    pub fn from_stored(
        allowed_tools: Option<String>,
        mcp_context_uris: Option<String>,
        has_trust_dialog_accepted: Option<String>,
    ) -> (r: ProjectConfig)
        ensures
            string_views(r.allowed_tools@) == stored_list(allowed_tools),
            string_views(r.mcp_context_uris@) == stored_list(mcp_context_uris),
            r.has_trust_dialog_accepted == stored_flag(has_trust_dialog_accepted, false),
            r.mcp_servers@.len() == 0,
            !r.has_completed_project_onboarding,
            r.project_onboarding_seen_count == 0,
            r.enabled_mcp_servers@.len() == 0,
            r.disabled_mcp_servers@.len() == 0,
            r.example_files@.len() == 0,
    {
        let mut config = ProjectConfig::default();
        config.allowed_tools = list_from(&allowed_tools);
        config.mcp_context_uris = list_from(&mcp_context_uris);
        config.has_trust_dialog_accepted = flag_from(&has_trust_dialog_accepted, false);
        config
    }

    /// The key/value pairs under which the project settings are stored:
    /// the two lists as JSON arrays and the trust flag. Read back by
    /// `from_stored`, the stored values give the lists and the flag again.
    pub fn stored_entries(&self) -> (r: Result<Vec<(String, String)>, ConfigError>)
        ensures
            (r matches Ok(v) && {
                &&& entry_views(v@) == seq![
                    ("allowed_tools"@, json_array_text(string_views(self.allowed_tools@))),
                    ("mcp_context_uris"@, json_array_text(string_views(self.mcp_context_uris@))),
                    ("has_trust_dialog_accepted"@, bool_text(self.has_trust_dialog_accepted)),
                ]
                &&& stored_list(Some(v@[0].1)) == string_views(self.allowed_tools@)
                &&& stored_list(Some(v@[1].1)) == string_views(self.mcp_context_uris@)
                &&& stored_flag(Some(v@[2].1), false) == self.has_trust_dialog_accepted
            }),
    {
        let tools = match json_string_array(&self.allowed_tools) {
            Ok(t) => t,
            Err(m) => {
                return Err(ConfigError::SerializationError(m));
            },
        };
        let uris = match json_string_array(&self.mcp_context_uris) {
            Ok(t) => t,
            Err(m) => {
                return Err(ConfigError::SerializationError(m));
            },
        };
        let mut r: Vec<(String, String)> = Vec::new();
        r.push((String::from_str("allowed_tools"), tools));
        r.push((String::from_str("mcp_context_uris"), uris));
        r.push(
            (
                String::from_str("has_trust_dialog_accepted"),
                crate::text::bool_to_string(self.has_trust_dialog_accepted),
            ),
        );
        assert(entry_views(r@) =~= seq![
            ("allowed_tools"@, json_array_text(string_views(self.allowed_tools@))),
            ("mcp_context_uris"@, json_array_text(string_views(self.mcp_context_uris@))),
            ("has_trust_dialog_accepted"@, bool_text(self.has_trust_dialog_accepted)),
        ]);
        Ok(r)
    }
}

/// A text as a JSON string: quoted, with its characters escaped.
pub open spec fn json_string_literal(s: Seq<char>) -> Seq<char> {
    seq!['"'] + json_escape(s) + seq!['"']
}

/// The JSON strings of `items`, separated by commas.
pub open spec fn json_items_text(items: Seq<Seq<char>>) -> Seq<char>
    decreases items.len(),
{
    if items.len() == 0 {
        Seq::empty()
    } else if items.len() == 1 {
        json_string_literal(items[0])
    } else {
        json_items_text(items.drop_last()) + seq![','] + json_string_literal(items.last())
    }
}

/// The compact JSON array of some strings, as `serde_json::to_string` writes
/// it: `[`, the strings quoted and escaped, separated by `,`, then `]`.
pub open spec fn json_array_text(items: Seq<Seq<char>>) -> Seq<char> {
    seq!['['] + json_items_text(items) + seq![']']
}

/// `serde_json::to_string` on a list of strings. Serialising strings never
/// fails (serde_json fails only on a failing `Serialize` impl or a map with
/// keys that are not strings), so the result is the compact JSON array of the
/// strings, each escaped as serde_json escapes strings; it parses back to an
/// array of the same strings, in order.
#[verifier::external_body]
fn json_string_array(items: &Vec<String>) -> (r: Result<String, String>)
    ensures
        r is Ok,
        r matches Ok(t) ==> t@ == json_array_text(items@.map_values(|s: String| s@)),
        r matches Ok(t) ==> json_string_list(json_parse(t@)) == Some(items@.map_values(|s: String| s@)),
{
    serde_json::to_string(items).map_err(|e| e.to_string())
}

/// The key under which the API key of a provider is stored: `api_key.<provider>`.
pub open spec fn api_key_name(provider: Seq<char>) -> Seq<char> {
    "api_key."@ + provider
}

/// The key under which a setting of a session is stored: `session.<id>.<field>`.
pub open spec fn session_setting_name(session_id: Seq<char>, field: Seq<char>) -> Seq<char> {
    "session."@ + session_id + "."@ + field
}

/// The API keys in stored settings: each setting `api_key.<provider>` gives
/// the key of `<provider>`; a later setting wins.
pub open spec fn api_keys_of(entries: Seq<ConfigEntity>) -> Map<Seq<char>, Seq<char>>
    decreases entries.len(),
{
    if entries.len() == 0 {
        Map::empty()
    } else {
        let e = entries.last();
        let m = api_keys_of(entries.drop_last());
        match seq_strip_prefix(e.key@, "api_key."@) {
            Some(p) => m.insert(p, e.value@),
            None => m,
        }
    }
}

/// The stored settings of a session read back: a missing key is empty, a
/// missing model is the default one, a missing or unreadable limit is 4096.
pub open spec fn session_config_matches(
    r: SessionConfig,
    api_key: Option<String>,
    model: Option<String>,
    max_tokens: Option<String>,
) -> bool {
    &&& r.api_key@ == match api_key {
        Some(k) => k@,
        None => Seq::<char>::empty(),
    }
    &&& r.model@ == match model {
        Some(m) => m@,
        None => default_model(),
    }
    &&& r.max_tokens == match max_tokens {
        Some(t) => match parse_usize_spec(t@) {
            Some(n) => n,
            None => default_max_tokens(),
        },
        None => default_max_tokens(),
    }
    &&& r.provider is None
    &&& r.base_url is None
    &&& r.thinking_enabled is None
    &&& r.working_directory is None
}

/// Reads and writes settings in the store, for an optional project directory.
pub struct ConfigManager {
    project_dir: Option<String>,
}

impl ConfigManager {
    /// The project directory, if any.
    pub closed spec fn project(&self) -> Option<Seq<char>> {
        opt_text(self.project_dir)
    }

    /// A manager for the given project directory, if any.
    pub fn new(project_dir: Option<&str>) -> (r: ConfigManager)
        ensures
            r.project() == match project_dir {
                Some(d) => Some(d@),
                None => None,
            },
    {
        ConfigManager { project_dir: crate::text::opt_str_to_string(project_dir) }
    }

    /// The project directory; `NoProjectDir` when there is none.
    pub fn project_dir(&self) -> (r: Result<&String, ConfigError>)
        ensures
            match self.project() {
                Some(d) => r matches Ok(s) && s@ == d,
                None => r matches Err(ConfigError::NoProjectDir),
            },
    {
        match &self.project_dir {
            Some(d) => Ok(d),
            None => Err(ConfigError::NoProjectDir),
        }
    }

    /// The key under which the API key of `provider` is stored.
    pub fn api_key_name(provider: &str) -> (r: String)
        ensures
            r@ == api_key_name(provider@),
    {
        let r = concat_strs(&["api_key.", provider]);
        proof {
            reveal_with_fuel(concat_seqs, 3);
        }
        r
    }

    /// The key under which the setting `field` of session `session_id` is stored.
    pub fn session_setting_name(session_id: &str, field: &str) -> (r: String)
        ensures
            r@ == session_setting_name(session_id@, field@),
    {
        let r = concat_strs(&["session.", session_id, ".", field]);
        proof {
            reveal_with_fuel(concat_seqs, 5);
        }
        r
    }

    /// The API keys in the given stored settings, by provider, each provider once.
    pub fn api_keys_from(entries: &Vec<ConfigEntity>) -> (r: Vec<(String, String)>)
        ensures
            keys_unique(r@),
            table_map(r@) == api_keys_of(entries@),
    {
        let mut table = StringTable::new();
        let mut i: usize = 0;
        while i < entries.len()
            invariant
                i <= entries@.len(),
                table.wf(),
                table.map() == api_keys_of(entries@.take(i as int)),
            decreases entries.len() - i,
        {
            assert(entries@.take(i as int + 1).drop_last() =~= entries@.take(i as int));
            let e = &entries[i];
            if let Some(p) = crate::text::strip_prefix(e.key.as_str(), "api_key.") {
                table.insert(p, e.value.as_str());
            }
            i = i + 1;
        }
        assert(entries@.take(entries@.len() as int) =~= entries@);
        table.into_pairs()
    }

    /// The settings of a session read back from its stored api key, model and
    /// token limit.
    pub fn session_config_from_stored(
        api_key: Option<String>,
        model: Option<String>,
        max_tokens: Option<String>,
    ) -> (r: SessionConfig)
        ensures
            session_config_matches(r, api_key, model, max_tokens),
    {
        let mut config = SessionConfig::default();
        if let Some(k) = api_key {
            config.api_key = k;
        }
        if let Some(m) = model {
            config.model = m;
        }
        if let Some(t) = max_tokens {
            config.max_tokens = match crate::text::parse_usize(t.as_str()) {
                Some(n) => n,
                None => 4096,
            };
        }
        config
    }

    /// The pairs under which the settings of session `session_id` are stored:
    /// its api key, model and token limit.
    pub fn session_config_entries(session_id: &str, config: &SessionConfig) -> (r: Vec<
        (String, String),
    >)
        ensures
            entry_views(r@) == seq![
                (session_setting_name(session_id@, "api_key"@), config.api_key@),
                (session_setting_name(session_id@, "model"@), config.model@),
                (session_setting_name(session_id@, "max_tokens"@), decimal(config.max_tokens as nat)),
            ],
    {
        let mut r: Vec<(String, String)> = Vec::new();
        r.push((ConfigManager::session_setting_name(session_id, "api_key"), config.api_key.clone()));
        r.push((ConfigManager::session_setting_name(session_id, "model"), config.model.clone()));
        r.push(
            (
                ConfigManager::session_setting_name(session_id, "max_tokens"),
                crate::text::usize_to_string(config.max_tokens),
            ),
        );
        assert(entry_views(r@) =~= seq![
            (session_setting_name(session_id@, "api_key"@), config.api_key@),
            (session_setting_name(session_id@, "model"@), config.model@),
            (session_setting_name(session_id@, "max_tokens"@), decimal(config.max_tokens as nat)),
        ]);
        r
    }
}

/// Saving the settings of a session and reading them back gives its key,
/// model and token limit.
pub proof fn law_session_config_round_trip(c: SessionConfig, r: SessionConfig, k: String, m: String, t: String)
    requires
        k@ == c.api_key@,
        m@ == c.model@,
        t@ == decimal(c.max_tokens as nat),
        session_config_matches(r, Some(k), Some(m), Some(t)),
    ensures
        r.api_key@ == c.api_key@,
        r.model@ == c.model@,
        r.max_tokens == c.max_tokens,
{
    law_size_text_round_trip(c.max_tokens);
}

} // verus!
