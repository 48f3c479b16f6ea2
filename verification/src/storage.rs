//! Rows of the local repository store and the computations made around its queries.
use vstd::prelude::*;
use crate::config::{clone_opt, opt_view};
use crate::text::{concat, str_eq};

verus! {

/// A category with the number of repositories linked to it.
pub struct CategoryRow {
    pub id: i64,
    pub name: String,
    pub category_type: String,
    pub count: i64,
}

pub struct CategoryRowView {
    pub id: i64,
    pub name: Seq<char>,
    pub category_type: Seq<char>,
    pub count: i64,
}

impl View for CategoryRow {
    type V = CategoryRowView;

    open spec fn view(&self) -> CategoryRowView {
        CategoryRowView {
            id: self.id,
            name: self.name@,
            category_type: self.category_type@,
            count: self.count,
        }
    }
}

impl Clone for CategoryRow {
    fn clone(&self) -> (r: Self)
        ensures
            r@ == self@,
    {
        CategoryRow {
            id: self.id,
            name: self.name.clone(),
            category_type: self.category_type.clone(),
            count: self.count,
        }
    }
}

/// A stored starred repository.
pub struct RepoRow {
    pub id: i64,
    pub github_id: i64,
    pub name: String,
    pub full_name: String,
    pub owner: String,
    pub description: Option<String>,
    pub language: Option<String>,
    pub url: String,
    pub stars_count: i64,
    /// The topics, as a JSON array of strings.
    pub topics_json: String,
    pub starred_at: String,
}

pub struct RepoRowView {
    pub id: i64,
    pub github_id: i64,
    pub name: Seq<char>,
    pub full_name: Seq<char>,
    pub owner: Seq<char>,
    pub description: Option<Seq<char>>,
    pub language: Option<Seq<char>>,
    pub url: Seq<char>,
    pub stars_count: i64,
    pub topics_json: Seq<char>,
    pub starred_at: Seq<char>,
}

impl View for RepoRow {
    type V = RepoRowView;

    open spec fn view(&self) -> RepoRowView {
        RepoRowView {
            id: self.id,
            github_id: self.github_id,
            name: self.name@,
            full_name: self.full_name@,
            owner: self.owner@,
            description: opt_view(self.description),
            language: opt_view(self.language),
            url: self.url@,
            stars_count: self.stars_count,
            topics_json: self.topics_json@,
            starred_at: self.starred_at@,
        }
    }
}

impl Clone for RepoRow {
    fn clone(&self) -> (r: Self)
        ensures
            r@ == self@,
    {
        RepoRow {
            id: self.id,
            github_id: self.github_id,
            name: self.name.clone(),
            full_name: self.full_name.clone(),
            owner: self.owner.clone(),
            description: clone_opt(&self.description),
            language: clone_opt(&self.language),
            url: self.url.clone(),
            stars_count: self.stars_count,
            topics_json: self.topics_json.clone(),
            starred_at: self.starred_at.clone(),
        }
    }
}

pub open spec fn repos_view(rows: Seq<RepoRow>) -> Seq<RepoRowView> {
    rows.map_values(|r: RepoRow| r@)
}

pub open spec fn categories_view(rows: Seq<CategoryRow>) -> Seq<CategoryRowView> {
    rows.map_values(|r: CategoryRow| r@)
}

pub open spec fn strings_view(v: Seq<String>) -> Seq<Seq<char>> {
    v.map_values(|s: String| s@)
}

/// The list that `serde_json::from_str::<Vec<String>>` reads from `text`,
/// or `None` where it reports an error.
pub uninterp spec fn json_string_list(text: Seq<char>) -> Option<Seq<Seq<char>>>;

/// The text that `serde_json::to_string` writes for a list of strings.
pub uninterp spec fn json_of_strings(items: Seq<Seq<char>>) -> Seq<char>;

/// `serde_json::from_str::<Vec<String>>`: the strings of a JSON array, or `None`
/// when `text` is not one. What it accepts is named, not stated.
#[verifier::external_body]
pub(crate) fn parse_string_list(text: &str) -> (r: Option<Vec<String>>)
    ensures
        match r {
            Some(v) => json_string_list(text@) == Some(strings_view(v@)),
            None => json_string_list(text@) is None,
        },
{
    serde_json::from_str::<Vec<String>>(text).ok()
}

/// `serde_json::to_string` on a list of strings: the JSON text, named, which
/// `serde_json::from_str` reads back as the same list (strings are written
/// with every character escaped that the reader unescapes). It succeeds: its
/// documentation says it fails only for maps with non-string keys or failing
/// `Serialize` impls, and in its source a sequence of strings can only fail
/// on a write error of the `Vec<u8>` it writes into, which never occurs.
#[verifier::external_body]
pub(crate) fn strings_to_json(items: &Vec<String>) -> (r: Option<String>)
    ensures
        r is Some,
        r matches Some(s) ==> s@ == json_of_strings(strings_view(items@)),
        r matches Some(s) ==> json_string_list(s@) == Some(strings_view(items@)),
{
    serde_json::to_string(items).ok()
}

/// `str::to_lowercase`, the full Unicode lower-case mapping.
pub uninterp spec fn lowercase(s: Seq<char>) -> Seq<char>;

#[verifier::external_body]
pub(crate) fn to_lowercase(s: &str) -> (r: String)
    ensures
        r@ == lowercase(s@),
{
    s.to_lowercase()
}

/// The topics stored in a `topics_json` text: the JSON list, or none when it does not parse.
pub open spec fn topics_spec(topics_json: Seq<char>) -> Seq<Seq<char>> {
    match json_string_list(topics_json) {
        Some(t) => t,
        None => Seq::empty(),
    }
}

impl RepoRow {
    /// The repository's topics, read from `topics_json`; empty when it does not parse.
    pub fn topics(&self) -> (t: Vec<String>)
        ensures
            strings_view(t@) == topics_spec(self.topics_json@),
    {
        match parse_string_list(self.topics_json.as_str()) {
            Some(v) => v,
            None => {
                let v: Vec<String> = Vec::new();
                assert(strings_view(v@) =~= Seq::empty());
                v
            },
        }
    }
}

/// The `LIKE` pattern that search uses: the lower-cased query between `%` signs.
pub open spec fn search_pattern_spec(query: Seq<char>) -> Seq<char> {
    seq!['%'] + lowercase(query) + seq!['%']
}

pub fn search_pattern(query: &str) -> (p: String)
    ensures
        p@ == search_pattern_spec(query@),
{
    let lower = to_lowercase(query);
    let mut p = concat("%", lower.as_str());
    crate::text::push_char(&mut p, '%');
    proof {
        reveal_strlit("%");
        assert(p@ =~= search_pattern_spec(query@));
    }
    p
}

/// Some row has `full_name` equal to `name`.
pub open spec fn has_row(rows: Seq<RepoRowView>, name: Seq<char>) -> bool {
    exists|i: int| 0 <= i < rows.len() && #[trigger] rows[i].full_name == name
}

/// Index of the first row whose `full_name` is `name`.
pub open spec fn first_with_name(rows: Seq<RepoRowView>, name: Seq<char>) -> Option<int>
    decreases rows.len(),
{
    if rows.len() == 0 {
        None
    } else {
        match first_with_name(rows.drop_last(), name) {
            Some(k) => Some(k),
            None => if rows.last().full_name == name { Some(rows.len() - 1) } else { None },
        }
    }
}

proof fn lemma_first_with_name_prefix(rows: Seq<RepoRowView>, name: Seq<char>, n: int)
    requires
        0 <= n <= rows.len(),
        first_with_name(rows.take(n), name) is Some,
    ensures
        first_with_name(rows, name) == first_with_name(rows.take(n), name),
    decreases rows.len() - n,
{
    if n < rows.len() {
        assert(rows.take(n + 1).drop_last() =~= rows.take(n));
        lemma_first_with_name_prefix(rows, name, n + 1);
    } else {
        assert(rows.take(n) =~= rows);
    }
}

proof fn lemma_first_with_name_none(rows: Seq<RepoRowView>, name: Seq<char>)
    requires
        forall|j: int| 0 <= j < rows.len() ==> #[trigger] rows[j].full_name != name,
    ensures
        first_with_name(rows, name) is None,
    decreases rows.len(),
{
    if rows.len() > 0 {
        let init = rows.drop_last();
        assert forall|j: int| 0 <= j < init.len() implies #[trigger] init[j].full_name != name by {
            assert(init[j] == rows[j]);
        }
        lemma_first_with_name_none(init, name);
    }
}

proof fn lemma_first_with_name_found(rows: Seq<RepoRowView>, name: Seq<char>)
    ensures
        first_with_name(rows, name) matches Some(k) ==> 0 <= k < rows.len() && rows[k].full_name == name,
        has_row(rows, name) ==> first_with_name(rows, name) is Some,
    decreases rows.len(),
{
    if rows.len() > 0 {
        let init = rows.drop_last();
        lemma_first_with_name_found(init, name);
        if has_row(rows, name) && rows.last().full_name != name {
            let i = choose|i: int| 0 <= i < rows.len() && #[trigger] rows[i].full_name == name;
            assert(init[i].full_name == name);
            assert(has_row(init, name));
        }
        if first_with_name(init, name) is Some {
            let k = first_with_name(init, name)->0;
            assert(init[k] == rows[k]);
        }
    }
}

/// For each name in order, the first row with that `full_name`; names without a row are skipped.
pub open spec fn ordered_by_names_spec(rows: Seq<RepoRowView>, names: Seq<Seq<char>>) -> Seq<
    RepoRowView,
>
    decreases names.len(),
{
    if names.len() == 0 {
        Seq::empty()
    } else {
        let prev = ordered_by_names_spec(rows, names.drop_last());
        match first_with_name(rows, names.last()) {
            Some(i) => prev.push(rows[i]),
            None => prev,
        }
    }
}

fn find_by_full_name(rows: &Vec<RepoRow>, name: &String) -> (r: Option<usize>)
    ensures
        match r {
            Some(i) => i < rows.len() && first_with_name(repos_view(rows@), name@) == Some(i as int),
            None => first_with_name(repos_view(rows@), name@) is None,
        },
{
    let ghost rv = repos_view(rows@);
    let mut i: usize = 0;
    while i < rows.len()
        invariant
            i <= rows.len(),
            rv == repos_view(rows@),
            rv.len() == rows.len(),
            forall|j: int| 0 <= j < i ==> #[trigger] rv[j].full_name != name@,
        decreases rows.len() - i,
    {
        if str_eq(rows[i].full_name.as_str(), name.as_str()) {
            proof {
                let pre = rv.take(i as int);
                assert forall|j: int| 0 <= j < pre.len() implies #[trigger] pre[j].full_name != name@ by {
                    assert(pre[j] == rv[j]);
                }
                lemma_first_with_name_none(pre, name@);
                assert(rv.take(i + 1).drop_last() =~= pre);
                assert(rv.take(i + 1).last() == rv[i as int]);
                lemma_first_with_name_prefix(rv, name@, i + 1);
            }
            return Some(i);
        }
        i = i + 1;
    }
    proof {
        lemma_first_with_name_none(rv, name@);
    }
    None
}

/// Rows matching `names`, in the order of `names` (the order an AI ranking gave).
pub fn order_by_full_names(rows: &Vec<RepoRow>, names: &Vec<String>) -> (ordered: Vec<RepoRow>)
    ensures
        repos_view(ordered@) == ordered_by_names_spec(repos_view(rows@), strings_view(names@)),
{
    let mut ordered: Vec<RepoRow> = Vec::new();
    let ghost nv = strings_view(names@);
    let ghost rv = repos_view(rows@);
    let mut i: usize = 0;
    while i < names.len()
        invariant
            i <= names.len(),
            nv == strings_view(names@),
            rv == repos_view(rows@),
            repos_view(ordered@) == ordered_by_names_spec(rv, nv.take(i as int)),
        decreases names.len() - i,
    {
        proof {
            assert(nv.take(i + 1).drop_last() =~= nv.take(i as int));
            assert(nv.take(i + 1).last() == names@[i as int]@);
        }
        match find_by_full_name(rows, &names[i]) {
            Some(k) => {
                let r = rows[k].clone();
                ordered.push(r);
                assert(repos_view(ordered@) =~= ordered_by_names_spec(rv, nv.take(i as int)).push(rv[k as int]));
            },
            None => {},
        }
        i = i + 1;
    }
    assert(nv.take(names.len() as int) =~= nv);
    ordered
}

/// When every name has a row, the rows come back one per name, in the order of the names.
pub proof fn lemma_order_follows_names(rows: Seq<RepoRowView>, names: Seq<Seq<char>>)
    requires
        forall|j: int| 0 <= j < names.len() ==> has_row(rows, #[trigger] names[j]),
    ensures
        ordered_by_names_spec(rows, names).len() == names.len(),
        forall|j: int| 0 <= j < names.len() ==> #[trigger] ordered_by_names_spec(rows, names)[j].full_name == names[j],
    decreases names.len(),
{
    if names.len() > 0 {
        let init = names.drop_last();
        assert forall|j: int| 0 <= j < init.len() implies has_row(rows, #[trigger] init[j]) by {
            assert(init[j] == names[j]);
        }
        lemma_order_follows_names(rows, init);
        assert(has_row(rows, names[names.len() - 1]));
        lemma_first_with_name_found(rows, names.last());
        let prev = ordered_by_names_spec(rows, init);
        let full = ordered_by_names_spec(rows, names);
        assert(full.len() == prev.len() + 1);
        assert forall|j: int| 0 <= j < names.len() implies #[trigger] full[j].full_name == names[j] by {
            if j < names.len() - 1 {
                assert(full[j] == prev[j]);
                assert(init[j] == names[j]);
            }
        }
    }
}

} // verus!
