//! Sorting repositories into categories by primary language and topics.
use vstd::prelude::*;
use crate::api::StarredRepo;
use crate::config::opt_view;
use crate::storage::strings_view;

verus! {

pub const LANGUAGE: &'static str = "language";
pub const TOPIC: &'static str = "topic";
pub const OTHER: &'static str = "other";
pub const UNCATEGORIZED: &'static str = "Uncategorized";

/// A category that a repository belongs to: its name and its kind.
pub struct CategoryAssignment {
    pub name: String,
    pub category_type: String,
}

pub open spec fn assignments_view(v: Seq<CategoryAssignment>) -> Seq<(Seq<char>, Seq<char>)> {
    v.map_values(|a: CategoryAssignment| (a.name@, a.category_type@))
}

/// One `topic` category per non-empty topic, in order.
pub open spec fn topic_categories(topics: Seq<Seq<char>>) -> Seq<(Seq<char>, Seq<char>)>
    decreases topics.len(),
{
    if topics.len() == 0 {
        Seq::empty()
    } else {
        let prev = topic_categories(topics.drop_last());
        if topics.last().len() > 0 {
            prev.push((topics.last(), TOPIC@))
        } else {
            prev
        }
    }
}

/// The categories of a repository: its language (when set and not empty), then
/// each non-empty topic; a repository with no language and no topics at all is
/// `Uncategorized`.
pub open spec fn categories_spec(language: Option<Seq<char>>, topics: Seq<Seq<char>>) -> Seq<(Seq<char>, Seq<char>)> {
    let lang: Seq<(Seq<char>, Seq<char>)> = match language {
        Some(l) => if l.len() > 0 { seq![(l, LANGUAGE@)] } else { Seq::empty() },
        None => Seq::empty(),
    };
    let fallback: Seq<(Seq<char>, Seq<char>)> = if language is None && topics.len() == 0 {
        seq![(UNCATEGORIZED@, OTHER@)]
    } else {
        Seq::empty()
    };
    lang + topic_categories(topics) + fallback
}

fn assignment(name: &str, category_type: &str) -> (a: CategoryAssignment)
    ensures
        a.name@ == name@,
        a.category_type@ == category_type@,
{
    CategoryAssignment { name: name.to_owned(), category_type: category_type.to_owned() }
}

pub struct Classifier;

impl Classifier {
    /// The categories that `repo` is stored under, in the order they are linked.
    pub fn categories(repo: &StarredRepo) -> (cats: Vec<CategoryAssignment>)
        ensures
            assignments_view(cats@) == categories_spec(opt_view(repo.language), strings_view(repo.topics@)),
    {
        let mut cats: Vec<CategoryAssignment> = Vec::new();
        match &repo.language {
            Some(lang) => {
                if !lang.as_str().is_empty() {
                    cats.push(assignment(lang.as_str(), LANGUAGE));
                }
            },
            None => {},
        }
        let ghost start = assignments_view(cats@);
        let ghost tv = strings_view(repo.topics@);
        let mut i: usize = 0;
        while i < repo.topics.len()
            invariant
                i <= repo.topics.len(),
                tv == strings_view(repo.topics@),
                assignments_view(cats@) == start + topic_categories(tv.take(i as int)),
            decreases repo.topics.len() - i,
        {
            proof {
                assert(tv.take(i + 1).drop_last() =~= tv.take(i as int));
                assert(tv.take(i + 1).last() == repo.topics@[i as int]@);
            }
            let topic = &repo.topics[i];
            if !topic.as_str().is_empty() {
                let ghost before = cats@;
                cats.push(assignment(topic.as_str(), TOPIC));
                assert(assignments_view(cats@) =~= assignments_view(before).push((topic@, TOPIC@)));
            }
            i = i + 1;
        }
        assert(tv.take(repo.topics.len() as int) =~= tv);
        if repo.language.is_none() && repo.topics.len() == 0 {
            let ghost before = cats@;
            cats.push(assignment(UNCATEGORIZED, OTHER));
            assert(assignments_view(cats@) =~= assignments_view(before).push((UNCATEGORIZED@, OTHER@)));
        }
        assert(assignments_view(cats@) =~= categories_spec(opt_view(repo.language), tv));
        cats
    }
}

proof fn lemma_topic_categories_empty(topics: Seq<Seq<char>>)
    ensures
        topic_categories(topics).len() == 0 <==> forall|i: int| 0 <= i < topics.len() ==> #[trigger] topics[i].len() == 0,
    decreases topics.len(),
{
    if topics.len() > 0 {
        lemma_topic_categories_empty(topics.drop_last());
        if topic_categories(topics).len() == 0 {
            assert forall|i: int| 0 <= i < topics.len() implies #[trigger] topics[i].len() == 0 by {
                if i < topics.len() - 1 {
                    assert(topics.drop_last()[i] == topics[i]);
                }
            }
        } else if forall|i: int| 0 <= i < topics.len() ==> #[trigger] topics[i].len() == 0 {
            assert forall|i: int| 0 <= i < topics.drop_last().len() implies #[trigger] topics.drop_last()[i].len() == 0 by {
                assert(topics.drop_last()[i] == topics[i]);
            }
            assert(topics[topics.len() - 1].len() == 0);
        }
    }
}

/// A repository ends up in no category exactly when its language is set but
/// empty, or missing while it has topics, and every topic is empty; otherwise it
/// is linked to at least one category. The language, when used, comes first.
pub proof fn lemma_categories_cover(language: Option<Seq<char>>, topics: Seq<Seq<char>>)
    ensures
        categories_spec(language, topics).len() == 0 <==> {
            &&& match language {
                Some(l) => l.len() == 0,
                None => topics.len() > 0,
            }
            &&& forall|i: int| 0 <= i < topics.len() ==> #[trigger] topics[i].len() == 0
        },
        language is Some && language->0.len() > 0 ==> categories_spec(language, topics)[0] == (language->0, LANGUAGE@),
{
    lemma_topic_categories_empty(topics);
}


/// The topics that become categories: the non-empty ones.
pub open spec fn non_empty_topic() -> spec_fn(Seq<char>) -> bool {
    |t: Seq<char>| t.len() > 0
}

/// The category that a topic becomes.
pub open spec fn as_topic_category() -> spec_fn(Seq<char>) -> (Seq<char>, Seq<char>) {
    |t: Seq<char>| (t, TOPIC@)
}

proof fn lemma_topic_categories_filter(topics: Seq<Seq<char>>)
    ensures
        topic_categories(topics) =~= topics.filter(non_empty_topic()).map_values(as_topic_category()),
    decreases topics.len(),
{
    let f = as_topic_category();
    let p = non_empty_topic();
    if topics.len() > 0 {
        lemma_topic_categories_filter(topics.drop_last());
        let sub = topics.drop_last().filter(p);
        reveal(Seq::filter);
        assert(topics.filter(p) == if p(topics.last()) { sub.push(topics.last()) } else { sub });
        if p(topics.last()) {
            assert(sub.push(topics.last()).map_values(f) =~= sub.map_values(f).push(f(topics.last())));
        }
    }
}

/// Every non-empty topic becomes a `topic` category, in the order of the
/// topics, and nothing else does: the topic categories are exactly the
/// non-empty topics, each paired with `topic`. So every non-empty topic of a
/// repository is among its categories, and there are as many topic
/// categories as non-empty topics.
pub proof fn lemma_every_topic_categorised(language: Option<Seq<char>>, topics: Seq<Seq<char>>)
    ensures
        topic_categories(topics) == topics.filter(non_empty_topic()).map_values(as_topic_category()),
        topic_categories(topics).len() == topics.filter(non_empty_topic()).len(),
        forall|j: int| 0 <= j < topics.len() && topics[j].len() > 0
            ==> #[trigger] categories_spec(language, topics).contains((topics[j], TOPIC@)),
{
    let p = non_empty_topic();
    lemma_topic_categories_filter(topics);
    let cats = topic_categories(topics);
    let fl = topics.filter(p);
    let lang: Seq<(Seq<char>, Seq<char>)> = match language {
        Some(l) => if l.len() > 0 { seq![(l, LANGUAGE@)] } else { Seq::empty() },
        None => Seq::empty(),
    };
    let fallback: Seq<(Seq<char>, Seq<char>)> = if language is None && topics.len() == 0 {
        seq![(UNCATEGORIZED@, OTHER@)]
    } else {
        Seq::empty()
    };
    assert(categories_spec(language, topics) == lang + cats + fallback);
    assert forall|j: int| 0 <= j < topics.len() && topics[j].len() > 0
        implies #[trigger] categories_spec(language, topics).contains((topics[j], TOPIC@)) by {
        assert(p(topics[j]));
        topics.lemma_filter_contains(p, j);
        let k = choose|k: int| 0 <= k < fl.len() && fl[k] == topics[j];
        assert(cats[k] == (topics[j], TOPIC@));
        assert((lang + cats + fallback)[lang.len() + k] == (topics[j], TOPIC@));
    }
}

} // verus!
