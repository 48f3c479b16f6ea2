//! The GitHub REST API: the requests that fetch the starred repositories and
//! how the paginated replies are gathered.
use vstd::prelude::*;
use vstd::string::StringExecFns;
use crate::config::opt_view;
use crate::storage::{json_of_strings, strings_to_json, strings_view, topics_spec};
use crate::text::{concat, contains_spec, contains_str, nat_decimal, push_decimal};

verus! {

pub const API_BASE: &'static str = "https://api.github.com";
pub const PER_PAGE: u8 = 100;
pub const USER_AGENT: &'static str = "my-gh-stars/0.1.0";
pub const ACCEPT: &'static str = "application/vnd.github.star+json";
pub const UNAUTHORIZED_MESSAGE: &'static str = "GitHub token is invalid or expired. Please re-authenticate.";

/// A starred repository as fetched from GitHub. Times are RFC 3339 texts.
pub struct StarredRepo {
    pub github_id: i64,
    pub name: String,
    pub full_name: String,
    pub owner: String,
    pub description: Option<String>,
    pub language: Option<String>,
    pub html_url: String,
    pub stargazers_count: i64,
    pub topics: Vec<String>,
    pub starred_at: String,
    pub updated_at: String,
}

pub struct StarredRepoView {
    pub github_id: i64,
    pub name: Seq<char>,
    pub full_name: Seq<char>,
    pub owner: Seq<char>,
    pub description: Option<Seq<char>>,
    pub language: Option<Seq<char>>,
    pub html_url: Seq<char>,
    pub stargazers_count: i64,
    pub topics: Seq<Seq<char>>,
    pub starred_at: Seq<char>,
    pub updated_at: Seq<char>,
}

impl View for StarredRepo {
    type V = StarredRepoView;

    open spec fn view(&self) -> StarredRepoView {
        StarredRepoView {
            github_id: self.github_id,
            name: self.name@,
            full_name: self.full_name@,
            owner: self.owner@,
            description: opt_view(self.description),
            language: opt_view(self.language),
            html_url: self.html_url@,
            stargazers_count: self.stargazers_count,
            topics: strings_view(self.topics@),
            starred_at: self.starred_at@,
            updated_at: self.updated_at@,
        }
    }
}

pub open spec fn starred_view(v: Seq<StarredRepo>) -> Seq<StarredRepoView> {
    v.map_values(|r: StarredRepo| r@)
}

/// The owner object of a repository in the API's reply.
pub struct ApiOwner {
    pub login: String,
}

/// A repository in the API's reply.
pub struct ApiRepo {
    pub id: i64,
    pub name: String,
    pub full_name: String,
    pub owner: ApiOwner,
    pub description: Option<String>,
    pub language: Option<String>,
    pub html_url: String,
    pub stargazers_count: i64,
    pub topics: Option<Vec<String>>,
    pub updated_at: String,
}

/// One item of the `/user/starred` reply (with the `star+json` media type).
pub struct ApiStarredItem {
    pub starred_at: String,
    pub repo: ApiRepo,
}

/// The repository that an item of the reply describes; missing topics are none.
pub open spec fn item_view(item: ApiStarredItem) -> StarredRepoView {
    StarredRepoView {
        github_id: item.repo.id,
        name: item.repo.name@,
        full_name: item.repo.full_name@,
        owner: item.repo.owner.login@,
        description: opt_view(item.repo.description),
        language: opt_view(item.repo.language),
        html_url: item.repo.html_url@,
        stargazers_count: item.repo.stargazers_count,
        topics: match item.repo.topics {
            Some(t) => strings_view(t@),
            None => Seq::empty(),
        },
        starred_at: item.starred_at@,
        updated_at: item.repo.updated_at@,
    }
}

pub open spec fn items_view(items: Seq<ApiStarredItem>) -> Seq<StarredRepoView> {
    items.map_values(|i: ApiStarredItem| item_view(i))
}

impl StarredRepo {
    /// The repository that an item of the API's reply describes.
    pub fn from_item(item: ApiStarredItem) -> (r: StarredRepo)
        ensures
            r@ == item_view(item),
    {
        let ApiStarredItem { starred_at, repo } = item;
        let topics = match repo.topics {
            Some(t) => t,
            None => {
                let v: Vec<String> = Vec::new();
                assert(strings_view(v@) =~= Seq::empty());
                v
            },
        };
        StarredRepo {
            github_id: repo.id,
            name: repo.name,
            full_name: repo.full_name,
            owner: repo.owner.login,
            description: repo.description,
            language: repo.language,
            html_url: repo.html_url,
            stargazers_count: repo.stargazers_count,
            topics,
            starred_at,
            updated_at: repo.updated_at,
        }
    }

    /// The topics as the JSON array that the store keeps (always produced); a
    /// stored row reads the same topics back from it.
    pub fn topics_json(&self) -> (j: Option<String>)
        ensures
            j is Some,
            j matches Some(s) ==> s@ == json_of_strings(strings_view(self.topics@)),
            j matches Some(s) ==> topics_spec(s@) == strings_view(self.topics@),
    {
        strings_to_json(&self.topics)
    }
}

/// The API client's credentials.
pub struct ApiClient {
    pub token: String,
}

impl ApiClient {
    pub fn new(token: String) -> (c: ApiClient)
        ensures
            c.token@ == token@,
    {
        ApiClient { token }
    }

    /// The value of the `Authorization` header: a bearer token.
    pub fn authorization(&self) -> (h: String)
        ensures
            h@ == "Bearer "@ + self.token@,
    {
        concat("Bearer ", self.token.as_str())
    }
}

/// The URL of one page of the starred repositories.
pub open spec fn starred_page_url_spec(page: nat) -> Seq<char> {
    API_BASE@ + "/user/starred?per_page="@ + nat_decimal(PER_PAGE as nat) + "&page="@ + nat_decimal(page)
}

pub fn starred_page_url(page: u32) -> (u: String)
    ensures
        u@ == starred_page_url_spec(page as nat),
{
    let mut u = concat(API_BASE, "/user/starred?per_page=");
    push_decimal(&mut u, PER_PAGE as u64);
    u.append("&page=");
    push_decimal(&mut u, page as u64);
    u
}

/// The URL of the authenticated user.
pub fn current_user_url() -> (u: String)
    ensures
        u@ == API_BASE@ + "/user"@,
{
    concat(API_BASE, "/user")
}

/// Whether a `Link` header announces a next page.
pub fn has_next_page(link: Option<&str>) -> (b: bool)
    ensures
        b == match link {
            Some(l) => contains_spec(l@, "rel=\"next\""@),
            None => false,
        },
{
    match link {
        Some(l) => contains_str(l, "rel=\"next\""),
        None => false,
    }
}

/// What to do after one page of the starred repositories was received.
pub enum FetchStep {
    /// The page held repositories and another follows: fetch this page next.
    NextPage(u32),
    /// The page held repositories and was the last one.
    LastPage,
    /// The page held none: the fetch is over.
    NoMoreItems,
}

/// The repositories gathered so far, the page to fetch next, and how many
/// pages have brought repositories (the live page count that progress reports).
pub struct StarredFetch {
    pub repos: Vec<StarredRepo>,
    pub page: u32,
    pub pages: u32,
}

impl StarredFetch {
    /// A fetch that starts at the first page.
    pub fn new() -> (f: StarredFetch)
        ensures
            f.repos@.len() == 0,
            f.page == 1,
            f.pages == 0,
    {
        StarredFetch { repos: Vec::new(), page: 1, pages: 0 }
    }

    /// The URL of the page to fetch next.
    pub fn url(&self) -> (u: String)
        ensures
            u@ == starred_page_url_spec(self.page as nat),
    {
        starred_page_url(self.page)
    }

    /// How many pages have brought repositories so far: the live page count
    /// that the fetch reports as its progress.
    pub fn pages_fetched(&self) -> (n: usize)
        ensures
            n == self.pages,
    {
        self.pages as usize
    }

    /// The error for a page answered with HTTP `status`: GitHub refused the token on 401.
    pub fn status_error(status: u16) -> (e: Option<String>)
        ensures
            status == 401 ==> (e matches Some(m) && m@ == UNAUTHORIZED_MESSAGE@),
            status != 401 ==> e is None,
    {
        if status == 401 {
            Some(String::from_str(UNAUTHORIZED_MESSAGE))
        } else {
            None
        }
    }

    /// Takes one accepted page: whether its `Link` header announced a next page,
    /// and its items in order.
    pub fn receive_page(&mut self, has_next: bool, items: Vec<ApiStarredItem>) -> (step: FetchStep)
        requires
            items@.len() > 0 && has_next ==> old(self).page < u32::MAX,
        ensures
            items@.len() == 0 ==> step is NoMoreItems && final(self).repos@ == old(self).repos@ && final(self).page == old(self).page
                && final(self).pages == old(self).pages,
            items@.len() > 0 ==> {
                &&& starred_view(final(self).repos@) == starred_view(old(self).repos@) + items_view(items@)
                &&& final(self).pages == old(self).page
                &&& has_next ==> step == FetchStep::NextPage((old(self).page + 1) as u32) && final(self).page == old(self).page + 1
                &&& !has_next ==> step is LastPage && final(self).page == old(self).page
            },
    {
        if items.len() == 0 {
            return FetchStep::NoMoreItems;
        }
        let ghost before = starred_view(self.repos@);
        let ghost all = items@;
        let mut items = items;
        let mut converted: Vec<StarredRepo> = Vec::new();
        let n = items.len();
        // Items are taken from the back so that each can be moved out.
        while items.len() > 0
            invariant
                items@ == all.take(items@.len() as int),
                items@.len() <= n,
                starred_view(converted@) == items_view(all.skip(items@.len() as int)).reverse(),
                n == all.len(),
            decreases items.len(),
        {
            let ghost k = items@.len();
            let ghost prev = items@;
            let item = items.pop().unwrap();
            assert(item == all[k - 1]);
            let r = StarredRepo::from_item(item);
            let ghost prev_conv = converted@;
            converted.push(r);
            assert(starred_view(converted@) =~= starred_view(prev_conv).push(item_view(all[k - 1])));
            proof {
                assert(items@ =~= all.take(k - 1));
                assert(all.skip(k - 1) =~= seq![all[k - 1]] + all.skip(k as int));
                assert(items_view(all.skip(k - 1)) =~= seq![item_view(all[k - 1])] + items_view(all.skip(k as int)));
                let tail = items_view(all.skip(k as int));
                assert(items_view(all.skip(k - 1)).reverse() =~= tail.reverse().push(item_view(all[k - 1])));
                assert(starred_view(converted@) =~= items_view(all.skip(k - 1)).reverse());
            }
        }
        assert(all.skip(0) =~= all);
        while converted.len() > 0
            invariant
                starred_view(self.repos@) == before + items_view(all).take(n - converted@.len()),
                starred_view(converted@) == items_view(all).skip(n - converted@.len()).reverse(),
                converted@.len() <= n,
                n == all.len(),
                before == starred_view(old(self).repos@),
                self.page == old(self).page,
                self.pages == old(self).pages,
                has_next ==> self.page < u32::MAX,
            decreases converted.len(),
        {
            let ghost k = converted@.len();
            let ghost prev_repos = self.repos@;
            let r = converted.pop().unwrap();
            assert(r@ == items_view(all)[n - k]) by {
                let iv = items_view(all);
                assert(iv.skip(n - k).reverse().last() == iv[n - k]);
            }
            self.repos.push(r);
            assert(starred_view(self.repos@) =~= starred_view(prev_repos).push(r@));
            proof {
                let iv = items_view(all);
                assert(iv.skip(n - k).reverse().last() == iv[n - k]);
                assert(iv.take(n - k + 1) =~= iv.take(n - k).push(iv[n - k]));
                assert(iv.skip(n - k + 1).reverse() =~= iv.skip(n - k).reverse().drop_last());
            }
        }
        assert(items_view(all).take(n as int) =~= items_view(all));
        self.pages = self.page;
        if has_next {
            self.page = self.page + 1;
            FetchStep::NextPage(self.page)
        } else {
            FetchStep::LastPage
        }
    }
}


/// Every repository taken from a page carries its API item's fields
/// unchanged: id, names, owner's login, description, language, URL, star
/// count, topics (none when the item has no topics) and both times, in the
/// order of the page.
pub proof fn lemma_items_keep_fields(items: Seq<ApiStarredItem>)
    ensures
        items_view(items).len() == items.len(),
        forall|k: int| 0 <= k < items.len() ==> {
            let r = #[trigger] items_view(items)[k];
            let it = items[k];
            &&& r.github_id == it.repo.id
            &&& r.name == it.repo.name@
            &&& r.full_name == it.repo.full_name@
            &&& r.owner == it.repo.owner.login@
            &&& r.description == opt_view(it.repo.description)
            &&& r.language == opt_view(it.repo.language)
            &&& r.html_url == it.repo.html_url@
            &&& r.stargazers_count == it.repo.stargazers_count
            &&& r.topics == match it.repo.topics {
                Some(t) => strings_view(t@),
                None => Seq::<Seq<char>>::empty(),
            }
            &&& r.starred_at == it.starred_at@
            &&& r.updated_at == it.repo.updated_at@
        },
{
}

} // verus!
