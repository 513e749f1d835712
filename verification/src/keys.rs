//! Stores of API keys and key bindings, provider credentials, and the
//! location of stored keys.
use vstd::prelude::*;
use vstd::string::*;

use crate::table::StringTable;

verus! {

/// API keys by provider name.
pub struct ApiKeyStore {
    keys: StringTable,
}

impl ApiKeyStore {
    /// The store holds each provider once.
    pub closed spec fn wf(&self) -> bool {
        self.keys.wf()
    }

    /// The keys, by provider name.
    pub closed spec fn view_map(&self) -> Map<Seq<char>, Seq<char>> {
        self.keys.map()
    }

    /// An empty store.
    pub fn new() -> (r: ApiKeyStore)
        ensures
            r.wf(),
            r.view_map() == Map::<Seq<char>, Seq<char>>::empty(),
    {
        ApiKeyStore { keys: StringTable::new() }
    }

    /// Sets the key of `provider`, replacing any earlier one.
    pub fn set(&mut self, provider: &str, key: &str)
        requires
            old(self).wf(),
        ensures
            final(self).wf(),
            final(self).view_map() == old(self).view_map().insert(provider@, key@),
    {
        self.keys.insert(provider, key);
    }

    /// The key of `provider`.
    pub fn get(&self, provider: &str) -> (r: Option<String>)
        requires
            self.wf(),
        ensures
            match r {
                Some(k) => self.view_map().contains_key(provider@) && self.view_map()[provider@] == k@,
                None => !self.view_map().contains_key(provider@),
            },
    {
        self.keys.get(provider)
    }

    /// Removes the key of `provider`, returning it.
    pub fn remove(&mut self, provider: &str) -> (r: Option<String>)
        requires
            old(self).wf(),
        ensures
            final(self).wf(),
            final(self).view_map() == old(self).view_map().remove(provider@),
            match r {
                Some(k) => old(self).view_map().contains_key(provider@) && old(self).view_map()[provider@]
                    == k@,
                None => !old(self).view_map().contains_key(provider@),
            },
    {
        self.keys.remove(provider)
    }

    /// The providers that have a key, each once.
    pub fn list_providers(&self) -> (r: Vec<String>)
        requires
            self.wf(),
        ensures
            r@.map_values(|s: String| s@).no_duplicates(),
            r@.map_values(|s: String| s@).to_set() == self.view_map().dom(),
    {
        proof {
            self.keys.lemma_keys();
        }
        self.keys.keys()
    }
}

impl Default for ApiKeyStore {
    fn default() -> (r: ApiKeyStore)
        ensures
            r.wf(),
            r.view_map() == Map::<Seq<char>, Seq<char>>::empty(),
    {
        ApiKeyStore::new()
    }
}

/// Reading a provider's key after setting it gives the key that was set;
/// setting or removing one provider's key leaves every other provider's key
/// as it was; after removal the provider has no key.
pub proof fn law_key_store_read_after_write(
    m: Map<Seq<char>, Seq<char>>,
    provider: Seq<char>,
    key: Seq<char>,
    other: Seq<char>,
)
    requires
        other != provider,
    ensures
        m.insert(provider, key).contains_key(provider),
        m.insert(provider, key)[provider] == key,
        m.insert(provider, key).contains_key(other) == m.contains_key(other),
        m.contains_key(other) ==> m.insert(provider, key)[other] == m[other],
        !m.remove(provider).contains_key(provider),
        m.remove(provider).contains_key(other) == m.contains_key(other),
        m.contains_key(other) ==> m.remove(provider)[other] == m[other],
{
}

/// Actions bound to keys.
pub struct KeyBindings {
    bindings: StringTable,
}

impl KeyBindings {
    /// The bindings hold each key once.
    pub closed spec fn wf(&self) -> bool {
        self.bindings.wf()
    }

    /// The action of each bound key.
    pub closed spec fn view_map(&self) -> Map<Seq<char>, Seq<char>> {
        self.bindings.map()
    }

    /// No bindings.
    pub fn new() -> (r: KeyBindings)
        ensures
            r.wf(),
            r.view_map() == Map::<Seq<char>, Seq<char>>::empty(),
    {
        KeyBindings { bindings: StringTable::new() }
    }

    /// Binds `key` to `action`, replacing any earlier binding of `key`.
    pub fn bind(&mut self, key: &str, action: &str)
        requires
            old(self).wf(),
        ensures
            final(self).wf(),
            final(self).view_map() == old(self).view_map().insert(key@, action@),
    {
        self.bindings.insert(key, action);
    }

    /// The action bound to `key`.
    pub fn action(&self, key: &str) -> (r: Option<String>)
        requires
            self.wf(),
        ensures
            match r {
                Some(a) => self.view_map().contains_key(key@) && self.view_map()[key@] == a@,
                None => !self.view_map().contains_key(key@),
            },
    {
        self.bindings.get(key)
    }
}

/// The credentials of a provider.
#[derive(Debug)]
pub struct ProviderCredentials {
    pub provider: String,
    pub api_key: String,
    pub base_url: Option<String>,
    pub models: Vec<String>,
}

impl ProviderCredentials {
    /// Credentials with no base URL and no models.
    pub fn new(provider: &str, api_key: &str) -> (r: ProviderCredentials)
        ensures
            r.provider@ == provider@,
            r.api_key@ == api_key@,
            r.base_url is None,
            r.models@.len() == 0,
    {
        ProviderCredentials {
            provider: String::from_str(provider),
            api_key: String::from_str(api_key),
            base_url: None,
            models: Vec::new(),
        }
    }

    /// The same credentials with the given base URL.
    pub fn with_base_url(self, base_url: &str) -> (r: ProviderCredentials)
        ensures
            r.provider == self.provider,
            r.api_key == self.api_key,
            r.base_url is Some && r.base_url->0@ == base_url@,
            r.models == self.models,
    {
        let mut c = self;
        c.base_url = Some(String::from_str(base_url));
        c
    }

    /// The same credentials with the given models.
    pub fn with_models(self, models: Vec<String>) -> (r: ProviderCredentials)
        ensures
            r.provider == self.provider,
            r.api_key == self.api_key,
            r.base_url == self.base_url,
            r.models == models,
    {
        let mut c = self;
        c.models = models;
        c
    }
}

/// `name` is one plain path component on every platform: not empty, not
/// `.` or `..`, and free of `/`, `\` and `:`.
pub open spec fn plain_component(name: Seq<char>) -> bool {
    &&& name.len() > 0
    &&& name != seq!['.']
    &&& name != seq!['.', '.']
    &&& forall|i: int| 0 <= i < name.len() ==> name[i] != '/' && name[i] != '\\' && name[i] != ':'
}

/// What `Path::new(dir).join(name)` gives, read back as text.
pub uninterp spec fn joined_path(dir: Seq<char>, name: Seq<char>) -> Seq<char>;

/// What `dir` turns into before a plain component is added to it: the text
/// of `dir` joined with `x`, without that last `x`.
pub open spec fn join_base(dir: Seq<char>) -> Seq<char> {
    let j = joined_path(dir, seq!['x']);
    j.subrange(0, j.len() - 1)
}

/// `Path::join`, read back as text (both inputs are UTF-8, so nothing is
/// lost). Joining a plain component extends `dir` by the component, after
/// a separator where one is needed: the result is what `dir` turns into,
/// followed by the component, on every platform. Nothing more is said of
/// other names, whose handling depends on the platform's rules for roots
/// and prefixes.
#[verifier::external_body]
fn path_join(dir: &str, name: &str) -> (r: String)
    ensures
        r@ == joined_path(dir@, name@),
        plain_component(name@) ==> r@ == join_base(dir@) + name@,
{
    std::path::Path::new(dir).join(name).to_string_lossy().into_owned()
}

/// `dirs::config_dir`: the user's configuration directory, as text. Nothing is
/// promised of it: it comes from the environment.
#[verifier::external_body]
fn user_config_dir() -> Option<String> {
    dirs::config_dir().map(|p| p.to_string_lossy().into_owned())
}

/// The name of the directory that holds the stored keys.
pub open spec fn key_dir_name() -> Seq<char> {
    seq!['a', 's', 's', 'i', 's', 't', 'a', 'n', 't', '-', 'm', 'o', 'b', 'i', 'l', 'e']
}

/// The name of the file that holds the key of `provider`: `<provider>_key`.
pub open spec fn key_file_name(provider: Seq<char>) -> Seq<char> {
    provider + seq!['_', 'k', 'e', 'y']
}

/// Where the keys of the providers are stored.
pub struct KeyManager {
    config_dir: String,
}

impl KeyManager {
    /// The directory that holds the keys.
    pub closed spec fn dir(&self) -> Seq<char> {
        self.config_dir@
    }

    /// A key manager for the keys under `dir`.
    pub fn in_dir(dir: &str) -> (r: KeyManager)
        ensures
            r.dir() == dir@,
    {
        KeyManager { config_dir: String::from_str(dir) }
    }

    /// A key manager for the directory `assistant-mobile` under `base`, or
    /// under `.` when there is no base.
    pub fn under(base: Option<&str>) -> (r: KeyManager)
        ensures
            r.dir() == joined_path(
                match base {
                    Some(b) => b@,
                    None => seq!['.'],
                },
                key_dir_name(),
            ),
            r.dir() == join_base(
                match base {
                    Some(b) => b@,
                    None => seq!['.'],
                },
            ) + key_dir_name(),
    {
        proof {
            reveal_strlit("assistant-mobile");
            reveal_strlit(".");
            assert("assistant-mobile"@ =~= key_dir_name());
            assert("."@ =~= seq!['.']);
        }
        let dir = match base {
            Some(b) => path_join(b, "assistant-mobile"),
            None => path_join(".", "assistant-mobile"),
        };
        KeyManager { config_dir: dir }
    }

    /// A key manager for the directory `assistant-mobile` in the user's
    /// configuration directory (or in `.` when there is none).
    pub fn new() -> (r: KeyManager)
        ensures
            exists|base: Seq<char>| #[trigger] joined_path(base, key_dir_name()) == r.dir(),
    {
        let base = user_config_dir();
        match &base {
            Some(b) => KeyManager::under(Some(b.as_str())),
            None => KeyManager::under(None),
        }
    }

    /// The directory that holds the keys.
    pub fn config_dir(&self) -> (r: &str)
        ensures
            r@ == self.dir(),
    {
        self.config_dir.as_str()
    }

    /// The path of the file that holds the key of `provider`.
    pub fn get_key_path(&self, provider: &str) -> (r: String)
        ensures
            r@ == joined_path(self.dir(), key_file_name(provider@)),
            is_plain_name(provider@) ==> r@ == join_base(self.dir()) + key_file_name(provider@),
    {
        let mut name = String::from_str(provider);
        name.append("_key");
        proof {
            reveal_strlit("_key");
            assert(name@ =~= key_file_name(provider@));
        }
        proof {
            lemma_key_file_plain(provider@);
        }
        path_join(self.config_dir.as_str(), name.as_str())
    }
}

/// `name` holds no `/`, `\\` or `:`.
pub open spec fn is_plain_name(name: Seq<char>) -> bool {
    forall|i: int| 0 <= i < name.len() ==> name[i] != '/' && name[i] != '\\' && name[i] != ':'
}

proof fn lemma_key_file_plain(p: Seq<char>)
    ensures
        is_plain_name(p) ==> plain_component(key_file_name(p)),
{
    let k = key_file_name(p);
    assert(k.len() == p.len() + 4);
    assert(k[k.len() - 1] == 'y');
    if is_plain_name(p) {
        assert forall|i: int| 0 <= i < k.len() implies k[i] != '/' && k[i] != '\\' && k[i] != ':' by {
            if i < p.len() {
                assert(k[i] == p[i]);
            }
        }
        assert(k != seq!['.']);
        assert(k != seq!['.', '.']);
    }
}

/// Within one directory, two different provider names free of `/`, `\\`
/// and `:` have different key files, each the directory (as it is before a
/// component) followed by `<provider>_key`.
pub proof fn law_key_paths_distinct(dir: Seq<char>, p: Seq<char>, q: Seq<char>)
    requires
        is_plain_name(p),
        is_plain_name(q),
        p != q,
        joined_path(dir, key_file_name(p)) == join_base(dir) + key_file_name(p),
        joined_path(dir, key_file_name(q)) == join_base(dir) + key_file_name(q),
    ensures
        joined_path(dir, key_file_name(p)) != joined_path(dir, key_file_name(q)),
{
    let a = joined_path(dir, key_file_name(p));
    let b = joined_path(dir, key_file_name(q));
    if a == b {
        let n = join_base(dir).len();
        assert(key_file_name(p) =~= a.subrange(n as int, a.len() as int));
        assert(key_file_name(q) =~= b.subrange(n as int, b.len() as int));
        assert(p =~= key_file_name(p).subrange(0, key_file_name(p).len() - 4));
        assert(q =~= key_file_name(q).subrange(0, key_file_name(q).len() - 4));
    }
}

} // verus!
