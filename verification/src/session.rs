//! Sessions: their settings, their messages, and the registry of open sessions.
use vstd::prelude::*;
use vstd::string::*;

use crate::error::ClaudeError;
use crate::message::{Message, MessageView, message_views, opt_text};

verus! {

/// The settings of a session.
#[derive(Debug)]
pub struct SessionConfig {
    pub api_key: String,
    pub model: String,
    pub max_tokens: usize,
    pub provider: Option<String>,
    pub base_url: Option<String>,
    pub thinking_enabled: Option<bool>,
    pub working_directory: Option<String>,
}

/// The model used when none is configured.
pub open spec fn default_model() -> Seq<char> {
    "deepseek-chat"@
}

/// The model name used when none is configured.
pub fn default_model_name() -> (r: &'static str)
    ensures
        r@ == default_model(),
{
    "deepseek-chat"
}

/// The output limit used when none is configured.
pub open spec fn default_max_tokens() -> usize {
    4096
}

impl Default for SessionConfig {
    /// No key, the default model, 4096 tokens, nothing else set.
    fn default() -> (r: SessionConfig)
        ensures
            r.api_key@ == Seq::<char>::empty(),
            r.model@ == default_model(),
            r.max_tokens == default_max_tokens(),
            r.provider is None,
            r.base_url is None,
            r.thinking_enabled is None,
            r.working_directory is None,
    {
        SessionConfig {
            api_key: String::new(),
            model: String::from_str(default_model_name()),
            max_tokens: 4096,
            provider: None,
            base_url: None,
            thinking_enabled: None,
            working_directory: None,
        }
    }
}

/// The same settings.
pub open spec fn same_config(a: SessionConfig, b: SessionConfig) -> bool {
    &&& a.api_key@ == b.api_key@
    &&& a.model@ == b.model@
    &&& a.max_tokens == b.max_tokens
    &&& opt_text(a.provider) == opt_text(b.provider)
    &&& opt_text(a.base_url) == opt_text(b.base_url)
    &&& a.thinking_enabled == b.thinking_enabled
    &&& opt_text(a.working_directory) == opt_text(b.working_directory)
}

impl Clone for SessionConfig {
    fn clone(&self) -> (r: SessionConfig)
        ensures
            same_config(r, *self),
    {
        SessionConfig {
            api_key: self.api_key.clone(),
            model: self.model.clone(),
            max_tokens: self.max_tokens,
            provider: crate::text::clone_opt_string(&self.provider),
            base_url: crate::text::clone_opt_string(&self.base_url),
            thinking_enabled: self.thinking_enabled,
            working_directory: crate::text::clone_opt_string(&self.working_directory),
        }
    }
}

/// `s` is a lower-case hexadecimal digit.
pub open spec fn is_lower_hex(c: char) -> bool {
    ('0' <= c && c <= '9') || ('a' <= c && c <= 'f')
}

/// `s` has the hyphenated form of a UUID: 36 characters, hyphens at 8, 13, 18
/// and 23, lower-case hexadecimal digits elsewhere.
pub open spec fn is_hyphenated_uuid(s: Seq<char>) -> bool {
    &&& s.len() == 36
    &&& forall|i: int|
        0 <= i < 36 ==> if i == 8 || i == 13 || i == 18 || i == 23 {
            s[i] == '-'
        } else {
            is_lower_hex(#[trigger] s[i])
        }
}

/// `uuid::Uuid::new_v4().to_string()`: a random UUID in hyphenated form.
/// Nothing is promised of its value beyond that form.
#[verifier::external_body]
pub(crate) fn new_uuid() -> (r: String)
    ensures
        is_hyphenated_uuid(r@),
{
    uuid::Uuid::new_v4().to_string()
}

/// A conversation: its id, its messages and its settings.
#[derive(Debug)]
pub struct Session {
    pub id: String,
    pub messages: Vec<Message>,
    pub config: SessionConfig,
}

impl Session {
    /// A session with the given id and settings and no messages.
    pub fn new(id: String, config: SessionConfig) -> (r: Session)
        ensures
            r.id == id,
            r.messages@.len() == 0,
            r.config == config,
    {
        Session { id, messages: Vec::new(), config }
    }

    /// A session with the given settings, no messages and a fresh random id.
    pub fn with_new_id(config: SessionConfig) -> (r: Session)
        ensures
            is_hyphenated_uuid(r.id@),
            r.messages@.len() == 0,
            r.config == config,
    {
        Session::new(new_uuid(), config)
    }

    /// Appends a message.
    pub fn add_message(&mut self, message: Message) -> (r: Result<(), ClaudeError>)
        ensures
            r is Ok,
            final(self).messages@ == old(self).messages@.push(message),
            final(self).id == old(self).id,
            final(self).config == old(self).config,
    {
        self.messages.push(message);
        Ok(())
    }
}

/// The ids of some sessions.
pub open spec fn session_ids(s: Seq<Session>) -> Seq<Seq<char>> {
    s.map_values(|x: Session| x.id@)
}

/// The position of the first session with id `id`.
pub open spec fn first_with_id(s: Seq<Session>, id: Seq<char>) -> Option<int>
    decreases s.len(),
{
    if s.len() == 0 {
        None
    } else {
        match first_with_id(s.drop_last(), id) {
            Some(i) => Some(i),
            None => if s.last().id@ == id {
                Some(s.len() - 1)
            } else {
                None
            },
        }
    }
}

proof fn lemma_first_with_id(s: Seq<Session>, id: Seq<char>)
    ensures
        match first_with_id(s, id) {
            Some(i) => 0 <= i < s.len() && s[i].id@ == id && forall|j: int|
                0 <= j < i ==> s[j].id@ != id,
            None => forall|j: int| 0 <= j < s.len() ==> s[j].id@ != id,
        },
    decreases s.len(),
{
    if s.len() > 0 {
        let p = s.drop_last();
        lemma_first_with_id(p, id);
        assert forall|j: int| 0 <= j < p.len() implies p[j] == s[j] by {}
    }
}

/// The open sessions, in the order they were opened.
pub struct SessionManager {
    sessions: Vec<Session>,
}

impl SessionManager {
    /// The open sessions, in order.
    pub closed spec fn sessions(&self) -> Seq<Session> {
        self.sessions@
    }

    /// No open session.
    pub fn new() -> (r: SessionManager)
        ensures
            r.sessions().len() == 0,
    {
        SessionManager { sessions: Vec::new() }
    }

    /// Opens a session with the given settings and a fresh random id, and
    /// returns the id.
    pub fn create_session(&mut self, config: SessionConfig) -> (r: String)
        ensures
            is_hyphenated_uuid(r@),
            final(self).sessions().len() == old(self).sessions().len() + 1,
            final(self).sessions().drop_last() == old(self).sessions(),
            final(self).sessions().last().id@ == r@,
            final(self).sessions().last().messages@.len() == 0,
            final(self).sessions().last().config == config,
    {
        let id = new_uuid();
        let r = id.clone();
        self.sessions.push(Session::new(id, config));
        assert(self.sessions@.drop_last() =~= old(self).sessions@);
        r
    }

    /// Adds a session (such as one read back from storage) at the end.
    pub fn insert(&mut self, session: Session)
        ensures
            final(self).sessions() == old(self).sessions().push(session),
    {
        self.sessions.push(session);
    }

    /// The position of the first session with id `id`.
    pub fn position(&self, id: &str) -> (r: Option<usize>)
        ensures
            match r {
                Some(i) => first_with_id(self.sessions(), id@) == Some(i as int) && i
                    < self.sessions().len(),
                None => first_with_id(self.sessions(), id@) is None,
            },
    {
        proof {
            lemma_first_with_id(self.sessions@, id@);
        }
        let mut i: usize = 0;
        while i < self.sessions.len()
            invariant
                i <= self.sessions@.len(),
                forall|j: int| 0 <= j < i ==> self.sessions@[j].id@ != id@,
                match first_with_id(self.sessions@, id@) {
                    Some(k) => 0 <= k < self.sessions@.len() && self.sessions@[k].id@ == id@
                        && forall|j: int| 0 <= j < k ==> self.sessions@[j].id@ != id@,
                    None => forall|j: int| 0 <= j < self.sessions@.len() ==> self.sessions@[j].id@ != id@,
                },
            decreases self.sessions.len() - i,
        {
            if crate::text::str_eq(self.sessions[i].id.as_str(), id) {
                return Some(i);
            }
            i = i + 1;
        }
        None
    }

    /// The first session with id `id`.
    pub fn get_session(&self, id: &str) -> (r: Option<&Session>)
        ensures
            match first_with_id(self.sessions(), id@) {
                Some(i) => r == Some(&self.sessions()[i]),
                None => r is None,
            },
    {
        match self.position(id) {
            Some(i) => Some(&self.sessions[i]),
            None => None,
        }
    }

    /// Appends a message to the first session with id `id`; `false` when
    /// there is none.
    pub fn add_message(&mut self, id: &str, message: Message) -> (r: bool)
        ensures
            ({
                let o = old(self).sessions();
                let f = final(self).sessions();
                match first_with_id(o, id@) {
                    Some(i) => {
                        &&& r
                        &&& f.len() == o.len()
                        &&& f[i].messages@ == o[i].messages@.push(message)
                        &&& f[i].id == o[i].id
                        &&& f[i].config == o[i].config
                        &&& forall|j: int| 0 <= j < o.len() && j != i ==> f[j] == o[j]
                    },
                    None => !r && f == o,
                }
            }),
    {
        match self.position(id) {
            Some(i) => {
                let mut s = self.sessions.remove(i);
                let _ = s.add_message(message);
                self.sessions.insert(i, s);
                true
            },
            None => false,
        }
    }

    /// Closes the first session with id `id`; `false` when there is none.
    pub fn remove_session(&mut self, id: &str) -> (r: bool)
        ensures
            match first_with_id(old(self).sessions(), id@) {
                Some(i) => r && final(self).sessions() == old(self).sessions().remove(i),
                None => !r && final(self).sessions() == old(self).sessions(),
            },
    {
        match self.position(id) {
            Some(i) => {
                self.sessions.remove(i);
                true
            },
            None => false,
        }
    }

    /// Closes all sessions.
    pub fn clear(&mut self)
        ensures
            final(self).sessions().len() == 0,
    {
        self.sessions = Vec::new();
    }
}

impl Default for SessionManager {
    fn default() -> (r: SessionManager)
        ensures
            r.sessions().len() == 0,
    {
        SessionManager::new()
    }
}

/// A session that was opened is found by its id as long as no earlier
/// session has that id, and after it is closed no session with that id is
/// left when there was only one.
pub proof fn law_session_found_after_open(s: Seq<Session>, x: Session)
    requires
        first_with_id(s, x.id@) is None,
    ensures
        first_with_id(s.push(x), x.id@) == Some(s.len() as int),
        first_with_id(s.push(x).remove(s.len() as int), x.id@) is None,
{
    assert(s.push(x).drop_last() =~= s);
    assert(s.push(x).remove(s.len() as int) =~= s);
}

/// Closing a session keeps every other session, in order.
pub proof fn law_remove_keeps_others(s: Seq<Session>, id: Seq<char>)
    requires
        first_with_id(s, id) is Some,
    ensures
        ({
            let i = first_with_id(s, id)->0;
            let t = s.remove(i);
            &&& t.len() == s.len() - 1
            &&& forall|j: int| 0 <= j < i ==> t[j] == s[j]
            &&& forall|j: int| i <= j < t.len() ==> t[j] == s[j + 1]
        }),
{
    lemma_first_with_id(s, id);
}

} // verus!
