//! Natural-language search through an OpenAI-compatible chat API: the request
//! that is sent and how the reply is read.
use vstd::prelude::*;
use vstd::string::StringExecFns;
use crate::config::{Config, ConfigView};
use crate::storage::{json_string_list, parse_string_list, repos_view, strings_view, topics_spec, RepoRow, RepoRowView};
use crate::text::{
    concat, contains_spec, join, join_spec, strip_prefixes_spec, strip_suffixes_spec, take_chars, trim, trim_end_matches,
    trim_spec, trim_start_matches,
};

verus! {

pub const DEFAULT_BASE_URL: &'static str = "https://api.openai.com/v1";
pub const DEFAULT_MODEL: &'static str = "gpt-4o-mini";
/// The GitHub Models API, an OpenAI-compatible endpoint that takes a GitHub token.
pub const COPILOT_BASE_URL: &'static str = "https://models.inference.ai.azure.com";
pub const COPILOT_DEFAULT_MODEL: &'static str = "gpt-4o-mini";
pub const MISSING_COPILOT_TOKEN: &'static str = "Copilot token not set. Go to Settings and add a GitHub PAT.";
pub const MISSING_API_KEY: &'static str = "No OpenAI API key configured. Set one in Settings.";
pub const SYSTEM_PROMPT: &'static str = "You are a GitHub repository search assistant. Given a list of repositories and a natural-language search query, identify the most relevant repositories. Respond with a JSON array of repository full_names only.";
/// How many characters of a description the prompt shows.
pub const DESCRIPTION_CHARS: usize = 120;

/// Where and how to reach the chat API.
pub struct AiClient {
    pub api_key: String,
    pub base_url: String,
    pub model: String,
}

/// One chat message.
pub struct Message {
    pub role: String,
    pub content: String,
}

/// A chat completion request (the sampling temperature is added where it is sent).
pub struct ChatRequest {
    pub model: String,
    pub messages: Vec<Message>,
}

pub open spec fn messages_view(m: Seq<Message>) -> Seq<(Seq<char>, Seq<char>)> {
    m.map_values(|x: Message| (x.role@, x.content@))
}

pub open spec fn or_empty(o: Option<Seq<char>>) -> Seq<char> {
    match o {
        Some(s) => s,
        None => Seq::empty(),
    }
}

pub open spec fn take_at_most(s: Seq<char>, n: nat) -> Seq<char> {
    if n <= s.len() { s.take(n as int) } else { s }
}

/// The line that describes one repository in the prompt.
pub open spec fn repo_line_spec(r: RepoRowView) -> Seq<char> {
    let topics = topics_spec(r.topics_json);
    let topics_part = if topics.len() == 0 {
        Seq::empty()
    } else {
        " ["@ + join_spec(topics, ", "@) + "]"@
    };
    "- "@ + r.full_name + ": "@ + take_at_most(or_empty(r.description), DESCRIPTION_CHARS as nat) + " ("@
        + or_empty(r.language) + topics_part + ")\n"@
}

pub open spec fn repo_list_spec(rs: Seq<RepoRowView>) -> Seq<char>
    decreases rs.len(),
{
    if rs.len() == 0 {
        Seq::empty()
    } else {
        repo_list_spec(rs.drop_last()) + repo_line_spec(rs.last())
    }
}

/// The user message: the query, every repository, and the instructions for the answer.
pub open spec fn user_prompt_spec(query: Seq<char>, rs: Seq<RepoRowView>) -> Seq<char> {
    "Search query: \""@ + query + "\"\n\nRepositories:\n"@ + repo_list_spec(rs)
        + "\nReturn a JSON array of full_names (e.g. [\"owner/repo\"]) for the repositories most relevant to the query, ordered by relevance. Return only the JSON array, no explanation."@
}

/// The reply text without surrounding whitespace and Markdown code fences.
pub open spec fn unfenced_spec(content: Seq<char>) -> Seq<char> {
    trim_spec(
        strip_suffixes_spec(
            strip_prefixes_spec(strip_prefixes_spec(trim_spec(content), "```json"@), "```"@),
            "```"@,
        ),
    )
}

/// The full names that a reply lists: none when it has no message (an empty
/// array is read then) or when the message is not a JSON array of strings.
pub open spec fn reply_names_spec(content: Option<Seq<char>>) -> Seq<Seq<char>> {
    match content {
        None => Seq::empty(),
        Some(text) => match json_string_list(unfenced_spec(text)) {
            Some(names) => names,
            None => Seq::empty(),
        },
    }
}

/// The line that describes `r` in the prompt.
pub fn repo_line(r: &RepoRow) -> (line: String)
    ensures
        line@ == repo_line_spec(r@),
{
    let desc = match &r.description {
        Some(d) => take_chars(d.as_str(), DESCRIPTION_CHARS),
        None => String::new(),
    };
    let topics = r.topics();
    let mut line = concat("- ", r.full_name.as_str());
    line.append(": ");
    line.append(desc.as_str());
    line.append(" (");
    match &r.language {
        Some(l) => line.append(l.as_str()),
        None => {},
    }
    if topics.len() > 0 {
        line.append(" [");
        let joined = join(&topics, ", ");
        proof {
            assert(topics.deep_view() =~= strings_view(topics@));
        }
        line.append(joined.as_str());
        line.append("]");
    }
    line.append(")\n");
    proof {
        assert(line@ =~= repo_line_spec(r@));
    }
    line
}

/// The user message for `query` over `repos`.
pub fn user_prompt(query: &str, repos: &Vec<RepoRow>) -> (p: String)
    ensures
        p@ == user_prompt_spec(query@, repos_view(repos@)),
{
    let mut list = String::new();
    let ghost rv = repos_view(repos@);
    let mut i: usize = 0;
    while i < repos.len()
        invariant
            i <= repos.len(),
            rv == repos_view(repos@),
            list@ == repo_list_spec(rv.take(i as int)),
        decreases repos.len() - i,
    {
        let line = repo_line(&repos[i]);
        list.append(line.as_str());
        proof {
            assert(rv.take(i + 1).drop_last() =~= rv.take(i as int));
            assert(rv.take(i + 1).last() == repos@[i as int]@);
        }
        i = i + 1;
    }
    assert(rv.take(repos.len() as int) =~= rv);
    let mut p = concat("Search query: \"", query);
    p.append("\"\n\nRepositories:\n");
    p.append(list.as_str());
    p.append("\nReturn a JSON array of full_names (e.g. [\"owner/repo\"]) for the repositories most relevant to the query, ordered by relevance. Return only the JSON array, no explanation.");
    p
}

/// The full names listed in the reply's first message content, in the model's
/// order; none when the reply had no choice (`None`).
pub fn reply_names(content: Option<&str>) -> (names: Vec<String>)
    ensures
        strings_view(names@) == reply_names_spec(
            match content {
                Some(c) => Some(c@),
                None => None,
            },
        ),
{
    let text = match content {
        Some(c) => c,
        None => {
            let v: Vec<String> = Vec::new();
            assert(strings_view(v@) =~= Seq::empty());
            return v;
        },
    };
    let t1 = trim(text);
    let t2 = trim_start_matches(t1.as_str(), "```json");
    let t3 = trim_start_matches(t2.as_str(), "```");
    let t4 = trim_end_matches(t3.as_str(), "```");
    let t5 = trim(t4.as_str());
    match parse_string_list(t5.as_str()) {
        Some(names) => names,
        None => {
            let v: Vec<String> = Vec::new();
            assert(strings_view(v@) =~= Seq::empty());
            v
        },
    }
}

/// The error for a chat reply with an unsuccessful HTTP status (as text, such
/// as `500 Internal Server Error`) and the reply's body.
pub open spec fn api_error_spec(status: Seq<char>, body: Seq<char>) -> Seq<char> {
    "AI API error "@ + status + ": "@ + body
}

pub fn api_error_message(status: &str, body: &str) -> (m: String)
    ensures
        m@ == api_error_spec(status@, body@),
{
    let mut m = concat("AI API error ", status);
    m.append(": ");
    m.append(body);
    m
}

impl AiClient {
    /// A client for `base_url` (default: the OpenAI API), without trailing
    /// slashes, and `model` (default: gpt-4o-mini).
    pub fn new(api_key: &str, base_url: Option<&str>, model: Option<&str>) -> (c: AiClient)
        ensures
            c.api_key@ == api_key@,
            c.base_url@ == strip_suffixes_spec(
                match base_url {
                    Some(u) => u@,
                    None => DEFAULT_BASE_URL@,
                },
                "/"@,
            ),
            c.model@ == match model {
                Some(m) => m@,
                None => DEFAULT_MODEL@,
            },
    {
        let url = match base_url {
            Some(u) => u,
            None => DEFAULT_BASE_URL,
        };
        let m = match model {
            Some(m) => m,
            None => DEFAULT_MODEL,
        };
        AiClient {
            api_key: api_key.to_owned(),
            base_url: trim_end_matches(url, "/"),
            model: m.to_owned(),
        }
    }

    /// The chat completions endpoint.
    pub fn chat_url(&self) -> (u: String)
        ensures
            u@ == self.base_url@ + "/chat/completions"@,
    {
        concat(self.base_url.as_str(), "/chat/completions")
    }

    /// The request for `query` over `repos`: the system instructions, then the user prompt.
    pub fn chat_request(&self, query: &str, repos: &Vec<RepoRow>) -> (req: ChatRequest)
        ensures
            req.model@ == self.model@,
            messages_view(req.messages@) == seq![
                ("system"@, SYSTEM_PROMPT@),
                ("user"@, user_prompt_spec(query@, repos_view(repos@))),
            ],
    {
        let mut messages: Vec<Message> = Vec::new();
        messages.push(Message { role: String::from_str("system"), content: String::from_str(SYSTEM_PROMPT) });
        messages.push(Message { role: String::from_str("user"), content: user_prompt(query, repos) });
        assert(messages_view(messages@) =~= seq![
            ("system"@, SYSTEM_PROMPT@),
            ("user"@, user_prompt_spec(query@, repos_view(repos@))),
        ]);
        ChatRequest { model: self.model.clone(), messages }
    }
}


/// The view of a client: API key, base URL and model.
pub open spec fn client_view(c: AiClient) -> (Seq<char>, Seq<char>, Seq<char>) {
    (c.api_key@, c.base_url@, c.model@)
}

/// The client that settings call for: GitHub Models with the Copilot token when
/// Copilot is on, else the OpenAI-compatible API with the API key; or the message
/// saying which credential is missing.
pub open spec fn client_for_spec(c: ConfigView) -> Result<(Seq<char>, Seq<char>, Seq<char>), Seq<char>> {
    if c.use_copilot {
        match c.copilot_github_token {
            Some(t) => Ok((
                t,
                strip_suffixes_spec(COPILOT_BASE_URL@, "/"@),
                match c.openai_model {
                    Some(m) => m,
                    None => COPILOT_DEFAULT_MODEL@,
                },
            )),
            None => Err(MISSING_COPILOT_TOKEN@),
        }
    } else {
        match c.openai_api_key {
            Some(k) => Ok((
                k,
                strip_suffixes_spec(
                    match c.openai_base_url {
                        Some(u) => u,
                        None => DEFAULT_BASE_URL@,
                    },
                    "/"@,
                ),
                match c.openai_model {
                    Some(m) => m,
                    None => DEFAULT_MODEL@,
                },
            )),
            None => Err(MISSING_API_KEY@),
        }
    }
}

pub open spec fn client_result_view(r: Result<AiClient, String>) -> Result<(Seq<char>, Seq<char>, Seq<char>), Seq<char>> {
    match r {
        Ok(c) => Ok(client_view(c)),
        Err(e) => Err(e@),
    }
}

impl AiClient {
    /// A client for GitHub Models, authenticated with a GitHub token.
    pub fn new_copilot(token: &str, model: Option<&str>) -> (c: AiClient)
        ensures
            c.api_key@ == token@,
            c.base_url@ == strip_suffixes_spec(COPILOT_BASE_URL@, "/"@),
            c.model@ == match model {
                Some(m) => m@,
                None => COPILOT_DEFAULT_MODEL@,
            },
    {
        let m = match model {
            Some(m) => m,
            None => COPILOT_DEFAULT_MODEL,
        };
        AiClient::new(token, Some(COPILOT_BASE_URL), Some(m))
    }

    /// The client that `config` calls for, or why there is none.
    pub fn for_config(config: &Config) -> (r: Result<AiClient, String>)
        ensures
            client_result_view(r) == client_for_spec(config@),
    {
        let model = match &config.openai_model {
            Some(m) => Some(m.as_str()),
            None => None,
        };
        if config.use_copilot {
            match &config.copilot_github_token {
                Some(t) => Ok(AiClient::new_copilot(t.as_str(), model)),
                None => Err(String::from_str(MISSING_COPILOT_TOKEN)),
            }
        } else {
            match &config.openai_api_key {
                Some(k) => {
                    let base = match &config.openai_base_url {
                        Some(u) => Some(u.as_str()),
                        None => None,
                    };
                    Ok(AiClient::new(k.as_str(), base, model))
                },
                None => Err(String::from_str(MISSING_API_KEY)),
            }
        }
    }
}


proof fn lemma_contains_self(x: Seq<char>)
    ensures
        contains_spec(x, x),
{
    assert(x.subrange(0int, 0int + x.len()) =~= x);
}

/// Text found in `b` is found in `b` with anything around it.
proof fn lemma_contains_within(a: Seq<char>, b: Seq<char>, c: Seq<char>, x: Seq<char>)
    requires
        contains_spec(b, x),
    ensures
        contains_spec(a + b + c, x),
{
    let i = choose|i: int| 0 <= i <= b.len() - x.len() && #[trigger] b.subrange(i, i + x.len()) == x;
    let whole = a + b + c;
    assert(whole.subrange(a.len() + i, a.len() + i + x.len()) =~= b.subrange(i, i + x.len()));
}

/// The repository list holds the line of every repository.
proof fn lemma_list_holds_every_line(rs: Seq<RepoRowView>)
    ensures
        forall|j: int| 0 <= j < rs.len() ==> contains_spec(repo_list_spec(rs), #[trigger] repo_line_spec(rs[j])),
    decreases rs.len(),
{
    if rs.len() > 0 {
        let init = rs.drop_last();
        let last = repo_line_spec(rs.last());
        lemma_list_holds_every_line(init);
        assert forall|j: int| 0 <= j < rs.len() implies contains_spec(repo_list_spec(rs), #[trigger] repo_line_spec(rs[j])) by {
            if j < rs.len() - 1 {
                assert(init[j] == rs[j]);
                lemma_contains_within(Seq::empty(), repo_list_spec(init), last, repo_line_spec(rs[j]));
                assert(Seq::<char>::empty() + repo_list_spec(init) + last =~= repo_list_spec(rs));
            } else {
                lemma_contains_self(last);
                lemma_contains_within(repo_list_spec(init), last, Seq::empty(), last);
                assert(repo_list_spec(init) + last + Seq::<char>::empty() =~= repo_list_spec(rs));
            }
        }
    }
}

/// The list for the first repositories begins the list for all of them, so
/// each further repository only adds text after the lines before it.
proof fn lemma_list_prefix(rs: Seq<RepoRowView>, k: int)
    requires
        0 <= k <= rs.len(),
    ensures
        repo_list_spec(rs.take(k)).len() <= repo_list_spec(rs).len(),
        repo_list_spec(rs).take(repo_list_spec(rs.take(k)).len() as int) == repo_list_spec(rs.take(k)),
    decreases rs.len() - k,
{
    if k == rs.len() {
        assert(rs.take(k) =~= rs);
    } else {
        lemma_list_prefix(rs, k + 1);
        assert(rs.take(k + 1).drop_last() =~= rs.take(k));
        let a = repo_list_spec(rs.take(k));
        let b = repo_list_spec(rs.take(k + 1));
        let whole = repo_list_spec(rs);
        assert(b == a + repo_line_spec(rs.take(k + 1).last()));
        assert(whole.take(a.len() as int) =~= b.take(a.len() as int));
    }
}

/// The prompt names the query and lists every repository: the line of each
/// one occurs in it, and the lines of the first repositories come first, in
/// their order, before those of the later ones.
pub proof fn lemma_prompt_lists_every_repo(query: Seq<char>, rs: Seq<RepoRowView>)
    ensures
        contains_spec(user_prompt_spec(query, rs), query),
        forall|j: int| 0 <= j < rs.len() ==> contains_spec(user_prompt_spec(query, rs), #[trigger] repo_line_spec(rs[j])),
        forall|k: int| 0 <= k <= rs.len() ==> #[trigger] repo_list_spec(rs).take(repo_list_spec(rs.take(k)).len() as int)
            == repo_list_spec(rs.take(k)),
{
    let head = "Search query: \""@ + query + "\"\n\nRepositories:\n"@;
    let tail = "\nReturn a JSON array of full_names (e.g. [\"owner/repo\"]) for the repositories most relevant to the query, ordered by relevance. Return only the JSON array, no explanation."@;
    let pre = "Search query: \""@;
    let mid = "\"\n\nRepositories:\n"@ + repo_list_spec(rs) + tail;
    assert(user_prompt_spec(query, rs) =~= pre + query + mid);
    lemma_contains_self(query);
    lemma_contains_within(pre, query, mid, query);
    lemma_list_holds_every_line(rs);
    assert forall|j: int| 0 <= j < rs.len() implies contains_spec(user_prompt_spec(query, rs), #[trigger] repo_line_spec(rs[j])) by {
        assert(contains_spec(repo_list_spec(rs), repo_line_spec(rs[j])));
        lemma_contains_within(head, repo_list_spec(rs), tail, repo_line_spec(rs[j]));
        assert(head + repo_list_spec(rs) + tail =~= user_prompt_spec(query, rs));
    }
    assert forall|k: int| 0 <= k <= rs.len() implies #[trigger] repo_list_spec(rs).take(repo_list_spec(rs.take(k)).len() as int)
        == repo_list_spec(rs.take(k)) by {
        lemma_list_prefix(rs, k);
    }
}

} // verus!
