//! User settings and their key/value form in the `settings` table.
use vstd::prelude::*;
use crate::text::{str_eq, trim, trim_spec};

verus! {

/// The view of an optional string.
pub open spec fn opt_view(o: Option<String>) -> Option<Seq<char>> {
    match o {
        Some(s) => Some(s@),
        None => None,
    }
}

/// A copy of an optional string with the same view.
pub fn clone_opt(o: &Option<String>) -> (r: Option<String>)
    ensures
        opt_view(r) == opt_view(*o),
{
    match o {
        Some(s) => Some(s.clone()),
        None => None,
    }
}

/// The settings of the application.
pub struct Config {
    pub auto_update: bool,
    pub github_token: Option<String>,
    pub last_sync: Option<String>,
    /// GitHub OAuth App Client ID.
    pub client_id: Option<String>,
    /// OpenAI-compatible API key for AI search.
    pub openai_api_key: Option<String>,
    /// OpenAI-compatible base URL (default: https://api.openai.com/v1).
    pub openai_base_url: Option<String>,
    /// Model to use for AI search (default: gpt-4o-mini).
    pub openai_model: Option<String>,
    /// When true, AI search goes through GitHub Copilot instead of a plain API key.
    pub use_copilot: bool,
    /// A GitHub token used to obtain a short-lived Copilot session token.
    pub copilot_github_token: Option<String>,
}

/// The mathematical content of a [`Config`].
pub struct ConfigView {
    pub auto_update: bool,
    pub github_token: Option<Seq<char>>,
    pub last_sync: Option<Seq<char>>,
    pub client_id: Option<Seq<char>>,
    pub openai_api_key: Option<Seq<char>>,
    pub openai_base_url: Option<Seq<char>>,
    pub openai_model: Option<Seq<char>>,
    pub use_copilot: bool,
    pub copilot_github_token: Option<Seq<char>>,
}

impl View for Config {
    type V = ConfigView;

    open spec fn view(&self) -> ConfigView {
        ConfigView {
            auto_update: self.auto_update,
            github_token: opt_view(self.github_token),
            last_sync: opt_view(self.last_sync),
            client_id: opt_view(self.client_id),
            openai_api_key: opt_view(self.openai_api_key),
            openai_base_url: opt_view(self.openai_base_url),
            openai_model: opt_view(self.openai_model),
            use_copilot: self.use_copilot,
            copilot_github_token: opt_view(self.copilot_github_token),
        }
    }
}

/// Settings before anything has been configured.
pub open spec fn default_config_view() -> ConfigView {
    ConfigView {
        auto_update: true,
        github_token: None,
        last_sync: None,
        client_id: None,
        openai_api_key: None,
        openai_base_url: None,
        openai_model: None,
        use_copilot: false,
        copilot_github_token: None,
    }
}

/// The value that `auto_update` takes when a stored configuration omits it.
pub fn default_auto_update() -> (b: bool)
    ensures
        b == true,
{
    true
}

impl Default for Config {
    fn default() -> (c: Self)
        ensures
            c@ == default_config_view(),
    {
        Config {
            auto_update: true,
            github_token: None,
            last_sync: None,
            client_id: None,
            openai_api_key: None,
            openai_base_url: None,
            openai_model: None,
            use_copilot: false,
            copilot_github_token: None,
        }
    }
}

impl Clone for Config {
    fn clone(&self) -> (c: Self)
        ensures
            c@ == self@,
    {
        Config {
            auto_update: self.auto_update,
            github_token: clone_opt(&self.github_token),
            last_sync: clone_opt(&self.last_sync),
            client_id: clone_opt(&self.client_id),
            openai_api_key: clone_opt(&self.openai_api_key),
            openai_base_url: clone_opt(&self.openai_base_url),
            openai_model: clone_opt(&self.openai_model),
            use_copilot: self.use_copilot,
            copilot_github_token: clone_opt(&self.copilot_github_token),
        }
    }
}

/// One row of the `settings` table: a key and its possibly-NULL value.
pub struct SettingEntry {
    pub key: String,
    pub value: Option<String>,
}

pub open spec fn entry_view(e: SettingEntry) -> (Seq<char>, Option<Seq<char>>) {
    (e.key@, opt_view(e.value))
}

pub open spec fn entries_view(rows: Seq<SettingEntry>) -> Seq<(Seq<char>, Option<Seq<char>>)> {
    rows.map_values(|e: SettingEntry| entry_view(e))
}

pub open spec fn bool_text(b: bool) -> Seq<char> {
    if b { "true"@ } else { "false"@ }
}

/// The rows that store `c`, one per setting, in this order.
pub open spec fn settings_rows_spec(c: ConfigView) -> Seq<(Seq<char>, Option<Seq<char>>)> {
    seq![
        ("auto_update"@, Some(bool_text(c.auto_update))),
        ("github_token"@, c.github_token),
        ("last_sync"@, c.last_sync),
        ("client_id"@, c.client_id),
        ("openai_api_key"@, c.openai_api_key),
        ("openai_base_url"@, c.openai_base_url),
        ("openai_model"@, c.openai_model),
        ("use_copilot"@, Some(bool_text(c.use_copilot))),
        ("copilot_github_token"@, c.copilot_github_token),
    ]
}

/// The settings after reading one stored row; an unknown key changes nothing.
pub open spec fn apply_setting(
    c: ConfigView,
    key: Seq<char>,
    value: Option<Seq<char>>,
) -> ConfigView {
    if key == "auto_update"@ {
        ConfigView { auto_update: value == Some("true"@), ..c }
    } else if key == "github_token"@ {
        ConfigView { github_token: value, ..c }
    } else if key == "last_sync"@ {
        ConfigView { last_sync: value, ..c }
    } else if key == "client_id"@ {
        ConfigView { client_id: value, ..c }
    } else if key == "openai_api_key"@ {
        ConfigView { openai_api_key: value, ..c }
    } else if key == "openai_base_url"@ {
        ConfigView { openai_base_url: value, ..c }
    } else if key == "openai_model"@ {
        ConfigView { openai_model: value, ..c }
    } else if key == "use_copilot"@ {
        ConfigView { use_copilot: value == Some("true"@), ..c }
    } else if key == "copilot_github_token"@ {
        ConfigView { copilot_github_token: value, ..c }
    } else {
        c
    }
}

/// The settings read from `rows`, applied in order over the defaults.
pub open spec fn config_from_rows_spec(rows: Seq<(Seq<char>, Option<Seq<char>>)>) -> ConfigView
    decreases rows.len(),
{
    if rows.len() == 0 {
        default_config_view()
    } else {
        let last = rows.last();
        apply_setting(config_from_rows_spec(rows.drop_last()), last.0, last.1)
    }
}

pub open spec fn config_authenticated(c: ConfigView) -> bool {
    match c.github_token {
        Some(t) => t.len() > 0,
        None => false,
    }
}

/// The client id, when one is set and not empty.
pub open spec fn config_client_id(c: ConfigView) -> Option<Seq<char>> {
    match c.client_id {
        Some(id) => if id.len() > 0 { Some(id) } else { None },
        None => None,
    }
}

/// The setting that an edit box holds once saved: trimmed, and unset when blank.
pub open spec fn setting_input_spec(input: Seq<char>) -> Option<Seq<char>> {
    if trim_spec(input).len() == 0 { None } else { Some(trim_spec(input)) }
}

pub fn setting_from_input(input: &str) -> (v: Option<String>)
    ensures
        opt_view(v) == setting_input_spec(input@),
{
    let t = trim(input);
    if t.as_str().is_empty() { None } else { Some(t) }
}

fn bool_value(b: bool) -> (s: String)
    ensures
        s@ == bool_text(b),
{
    if b {
        String::from_str("true")
    } else {
        String::from_str("false")
    }
}

fn entry(key: &str, value: Option<String>) -> (e: SettingEntry)
    ensures
        entry_view(e) == (key@, opt_view(value)),
{
    SettingEntry { key: key.to_owned(), value }
}

fn is_true(value: &Option<String>) -> (b: bool)
    ensures
        b == (opt_view(*value) == Some("true"@)),
{
    match value {
        Some(v) => str_eq(v.as_str(), "true"),
        None => false,
    }
}

impl Config {
    /// Path of the legacy TOML settings file inside `config_dir`.
    pub fn config_path(config_dir: &str) -> (p: String)
        ensures
            crate::text::ends_with_spec(p@, "config.toml"@),
            !verbatim_prefixed(config_dir@) ==> joined_path(config_dir@, "config.toml"@, p@),
    {
        proof {
            lemma_plain_file_names();
        }
        join_path(config_dir, "config.toml")
    }

    /// Path of the SQLite database inside `config_dir`.
    pub fn db_path(config_dir: &str) -> (p: String)
        ensures
            crate::text::ends_with_spec(p@, "stars.db"@),
            !verbatim_prefixed(config_dir@) ==> joined_path(config_dir@, "stars.db"@, p@),
    {
        proof {
            lemma_plain_file_names();
        }
        join_path(config_dir, "stars.db")
    }

    /// The settings to use when the settings table is empty: those of the
    /// legacy TOML file when it could be read, else the defaults.
    pub fn initial(legacy: Option<Config>) -> (c: Config)
        ensures
            c@ == match legacy {
                Some(l) => l@,
                None => default_config_view(),
            },
    {
        match legacy {
            Some(l) => l,
            None => Config::default(),
        }
    }

    /// The rows that store these settings, one per setting.
    pub fn settings_rows(&self) -> (rows: Vec<SettingEntry>)
        ensures
            entries_view(rows@) == settings_rows_spec(self@),
    {
        let mut rows: Vec<SettingEntry> = Vec::new();
        rows.push(entry("auto_update", Some(bool_value(self.auto_update))));
        rows.push(entry("github_token", clone_opt(&self.github_token)));
        rows.push(entry("last_sync", clone_opt(&self.last_sync)));
        rows.push(entry("client_id", clone_opt(&self.client_id)));
        rows.push(entry("openai_api_key", clone_opt(&self.openai_api_key)));
        rows.push(entry("openai_base_url", clone_opt(&self.openai_base_url)));
        rows.push(entry("openai_model", clone_opt(&self.openai_model)));
        rows.push(entry("use_copilot", Some(bool_value(self.use_copilot))));
        rows.push(entry("copilot_github_token", clone_opt(&self.copilot_github_token)));
        assert(entries_view(rows@) =~= settings_rows_spec(self@));
        rows
    }

    /// Applies one stored row to these settings.
    pub fn apply_setting(&mut self, key: &str, value: Option<String>)
        ensures
            final(self)@ == apply_setting(old(self)@, key@, opt_view(value)),
    {
        if str_eq(key, "auto_update") {
            self.auto_update = is_true(&value);
        } else if str_eq(key, "github_token") {
            self.github_token = value;
        } else if str_eq(key, "last_sync") {
            self.last_sync = value;
        } else if str_eq(key, "client_id") {
            self.client_id = value;
        } else if str_eq(key, "openai_api_key") {
            self.openai_api_key = value;
        } else if str_eq(key, "openai_base_url") {
            self.openai_base_url = value;
        } else if str_eq(key, "openai_model") {
            self.openai_model = value;
        } else if str_eq(key, "use_copilot") {
            self.use_copilot = is_true(&value);
        } else if str_eq(key, "copilot_github_token") {
            self.copilot_github_token = value;
        }
    }

    /// The settings that the stored `rows` describe, applied in order over the defaults.
    pub fn from_settings_rows(rows: Vec<SettingEntry>) -> (c: Config)
        ensures
            c@ == config_from_rows_spec(entries_view(rows@)),
    {
        let mut c = Config::default();
        let ghost all = entries_view(rows@);
        let mut i: usize = 0;
        let mut rows = rows;
        let ghost orig = rows@;
        while i < rows.len()
            invariant
                i <= rows.len(),
                rows@ == orig,
                all == entries_view(orig),
                c@ == config_from_rows_spec(all.take(i as int)),
            decreases rows.len() - i,
        {
            let key = rows[i].key.clone();
            let value = clone_opt(&rows[i].value);
            c.apply_setting(key.as_str(), value);
            proof {
                assert(all.take(i + 1).drop_last() =~= all.take(i as int));
                assert(all[i as int] == entry_view(orig[i as int]));
            }
            i = i + 1;
        }
        assert(all.take(rows.len() as int) =~= all);
        c
    }

    /// Whether a non-empty GitHub token is stored.
    pub fn is_authenticated(&self) -> (b: bool)
        ensures
            b == config_authenticated(self@),
    {
        match &self.github_token {
            Some(t) => !t.as_str().is_empty(),
            None => false,
        }
    }

    /// The OAuth client id, when one is set and not empty.
    pub fn client_id(&self) -> (id: Option<&str>)
        ensures
            match id {
                Some(s) => config_client_id(self@) == Some(s@),
                None => config_client_id(self@) is None,
            },
    {
        match &self.client_id {
            Some(s) => {
                if s.as_str().is_empty() {
                    None
                } else {
                    Some(s.as_str())
                }
            },
            None => None,
        }
    }
}

/// A character that no platform treats as a separator, a prefix or a root.
pub open spec fn plain_name_char(c: char) -> bool {
    ||| 'a' <= c <= 'z'
    ||| 'A' <= c <= 'Z'
    ||| '0' <= c <= '9'
    ||| c == '.'
    ||| c == '_'
    ||| c == '-'
}

/// A file name that is one normal path component everywhere: plain characters
/// only, and neither `.` nor `..`.
pub open spec fn plain_file_name(f: Seq<char>) -> bool {
    &&& f.len() > 0
    &&& forall|i: int| 0 <= i < f.len() ==> plain_name_char(#[trigger] f[i])
    &&& f != seq!['.']
    &&& f != seq!['.', '.']
}

/// `p` is `file` placed after `dir` and one separator, a slash or a backslash.
pub open spec fn separated_join(dir: Seq<char>, file: Seq<char>, p: Seq<char>) -> bool {
    &&& p.len() == dir.len() + 1 + file.len()
    &&& p.take(dir.len() as int) == dir
    &&& (p[dir.len() as int] == '/' || p[dir.len() as int] == '\\')
    &&& p.skip(dir.len() + 1 as int) == file
}

/// `p` is `file` adjoined to `dir`, as `Path::join` does it on every platform:
/// directly when `dir` is empty or ends in a slash; after one separator when
/// `dir` ends in any other character than a backslash or `:`; and for those
/// two (a separator or a drive on Windows, ordinary characters elsewhere) one
/// of the two.
pub open spec fn joined_path(dir: Seq<char>, file: Seq<char>, p: Seq<char>) -> bool {
    if dir.len() == 0 || dir.last() == '/' {
        p == dir + file
    } else if dir.last() == '\\' || dir.last() == ':' {
        p == dir + file || separated_join(dir, file, p)
    } else {
        separated_join(dir, file, p)
    }
}

/// The store's two file names are plain.
proof fn lemma_plain_file_names()
    ensures
        plain_file_name("config.toml"@),
        plain_file_name("stars.db"@),
{
    reveal_strlit("config.toml");
    reveal_strlit("stars.db");
    let c = "config.toml"@;
    let d = "stars.db"@;
    assert(c.len() == 11);
    assert(d.len() == 8);
    assert forall|i: int| 0 <= i < c.len() implies plain_name_char(#[trigger] c[i]) by {
        assert(c[i] == seq!['c', 'o', 'n', 'f', 'i', 'g', '.', 't', 'o', 'm', 'l'][i]);
    }
    assert forall|i: int| 0 <= i < d.len() implies plain_name_char(#[trigger] d[i]) by {
        assert(d[i] == seq!['s', 't', 'a', 'r', 's', '.', 'd', 'b'][i]);
    }
}

/// `dir` begins with a Windows verbatim prefix (`\\?\`).
pub open spec fn verbatim_prefixed(dir: Seq<char>) -> bool {
    crate::text::starts_with_spec(dir, seq!['\\', '\\', '?', '\\'])
}

/// `Path::join` of a directory and a plain file name, as text. Its documentation
/// and source say that a relative path is adjoined, with the platform's
/// separator (a slash, or a backslash on Windows) added where `dir` is not empty and does
/// not end in a separator (nor, on Windows, in a bare drive such as `C:`). Under a Windows verbatim prefix the joined path is normalised
/// instead (`.` and `..` removed), so there only the file name at the end is
/// stated. Both arguments are UTF-8, so the text conversion loses nothing.
#[verifier::external_body]
fn join_path(dir: &str, file: &str) -> (p: String)
    requires
        plain_file_name(file@),
    ensures
        crate::text::ends_with_spec(p@, file@),
        !verbatim_prefixed(dir@) ==> joined_path(dir@, file@, p@),
{
    std::path::Path::new(dir).join(file).to_string_lossy().into_owned()
}

proof fn lemma_setting_keys_distinct()
    ensures
        "true"@ != "false"@,
        "auto_update"@ != "use_copilot"@,
        "github_token"@ != "openai_model"@,
        "last_sync"@ != "client_id"@,
{
    reveal_strlit("auto_update");
    reveal_strlit("use_copilot");
    reveal_strlit("github_token");
    reveal_strlit("openai_model");
    reveal_strlit("last_sync");
    reveal_strlit("client_id");
    reveal_strlit("true");
    reveal_strlit("false");
    assert("true"@.len() != "false"@.len());
    assert("auto_update"@[0] != "use_copilot"@[0]);
    assert("github_token"@[0] != "openai_model"@[0]);
    assert("last_sync"@[0] != "client_id"@[0]);
}

/// Reading back the rows that a configuration is stored as gives the same configuration.
pub proof fn lemma_settings_round_trip(c: ConfigView)
    ensures
        config_from_rows_spec(settings_rows_spec(c)) == c,
{
    lemma_setting_keys_distinct();
    reveal_strlit("auto_update");
    reveal_strlit("github_token");
    reveal_strlit("last_sync");
    reveal_strlit("client_id");
    reveal_strlit("openai_api_key");
    reveal_strlit("openai_base_url");
    reveal_strlit("openai_model");
    reveal_strlit("use_copilot");
    reveal_strlit("copilot_github_token");
    assert("auto_update"@.len() == 11);
    assert("github_token"@.len() == 12);
    assert("last_sync"@.len() == 9);
    assert("client_id"@.len() == 9);
    assert("openai_api_key"@.len() == 14);
    assert("openai_base_url"@.len() == 15);
    assert("openai_model"@.len() == 12);
    assert("use_copilot"@.len() == 11);
    assert("copilot_github_token"@.len() == 20);
    let rows = settings_rows_spec(c);
    let e0 = default_config_view();
    assert(rows.take(0) =~= Seq::empty());
    let e1 = ConfigView { auto_update: c.auto_update, ..e0 };
    assert(rows.take(1).drop_last() =~= rows.take(0));
    assert(rows.take(1).last() == rows[0]);
    assert(config_from_rows_spec(rows.take(1)) == apply_setting(config_from_rows_spec(rows.take(0)), rows[0].0, rows[0].1));
    assert(config_from_rows_spec(rows.take(1)) == e1);
    let e2 = ConfigView { github_token: c.github_token, ..e1 };
    assert(rows.take(2).drop_last() =~= rows.take(1));
    assert(rows.take(2).last() == rows[1]);
    assert(config_from_rows_spec(rows.take(2)) == apply_setting(config_from_rows_spec(rows.take(1)), rows[1].0, rows[1].1));
    assert(config_from_rows_spec(rows.take(2)) == e2);
    let e3 = ConfigView { last_sync: c.last_sync, ..e2 };
    assert(rows.take(3).drop_last() =~= rows.take(2));
    assert(rows.take(3).last() == rows[2]);
    assert(config_from_rows_spec(rows.take(3)) == apply_setting(config_from_rows_spec(rows.take(2)), rows[2].0, rows[2].1));
    assert(config_from_rows_spec(rows.take(3)) == e3);
    let e4 = ConfigView { client_id: c.client_id, ..e3 };
    assert(rows.take(4).drop_last() =~= rows.take(3));
    assert(rows.take(4).last() == rows[3]);
    assert(config_from_rows_spec(rows.take(4)) == apply_setting(config_from_rows_spec(rows.take(3)), rows[3].0, rows[3].1));
    assert(config_from_rows_spec(rows.take(4)) == e4);
    let e5 = ConfigView { openai_api_key: c.openai_api_key, ..e4 };
    assert(rows.take(5).drop_last() =~= rows.take(4));
    assert(rows.take(5).last() == rows[4]);
    assert(config_from_rows_spec(rows.take(5)) == apply_setting(config_from_rows_spec(rows.take(4)), rows[4].0, rows[4].1));
    assert(config_from_rows_spec(rows.take(5)) == e5);
    let e6 = ConfigView { openai_base_url: c.openai_base_url, ..e5 };
    assert(rows.take(6).drop_last() =~= rows.take(5));
    assert(rows.take(6).last() == rows[5]);
    assert(config_from_rows_spec(rows.take(6)) == apply_setting(config_from_rows_spec(rows.take(5)), rows[5].0, rows[5].1));
    assert(config_from_rows_spec(rows.take(6)) == e6);
    let e7 = ConfigView { openai_model: c.openai_model, ..e6 };
    assert(rows.take(7).drop_last() =~= rows.take(6));
    assert(rows.take(7).last() == rows[6]);
    assert(config_from_rows_spec(rows.take(7)) == apply_setting(config_from_rows_spec(rows.take(6)), rows[6].0, rows[6].1));
    assert(config_from_rows_spec(rows.take(7)) == e7);
    let e8 = ConfigView { use_copilot: c.use_copilot, ..e7 };
    assert(rows.take(8).drop_last() =~= rows.take(7));
    assert(rows.take(8).last() == rows[7]);
    assert(config_from_rows_spec(rows.take(8)) == apply_setting(config_from_rows_spec(rows.take(7)), rows[7].0, rows[7].1));
    assert(config_from_rows_spec(rows.take(8)) == e8);
    let e9 = ConfigView { copilot_github_token: c.copilot_github_token, ..e8 };
    assert(rows.take(9).drop_last() =~= rows.take(8));
    assert(rows.take(9).last() == rows[8]);
    assert(config_from_rows_spec(rows.take(9)) == apply_setting(config_from_rows_spec(rows.take(8)), rows[8].0, rows[8].1));
    assert(config_from_rows_spec(rows.take(9)) == e9);
    assert(rows.take(9) =~= rows);
}

} // verus!
