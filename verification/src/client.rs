//! The content-client data model and the pure parts of batch fetching:
//! which ids a ranked-list fetch requests, and how per-id outcomes are
//! assembled into a result list that keeps rank order and drops failures.
//!
//! The network transport itself (HTTP and JSON decoding) is an external
//! collaborator and lives outside this library; it hands these functions
//! plain ids and per-id outcomes.

use vstd::prelude::*;

verus! {

/// An error of the content client.
#[derive(Debug, Clone)]
pub enum HnError {
    /// The request could not be carried out.
    Http(String),
    /// The response could not be decoded.
    Deserialize(String),
}

impl HnError {
    /// A human-readable description of the error.
    pub fn message(&self) -> (r: String)
        ensures
            self matches HnError::Http(m) ==> r@ == "http request failed: "@ + m@,
            self matches HnError::Deserialize(m) ==> r@ == "deserialisation failed: "@ + m@,
    {
        match self {
            HnError::Http(m) => String::from_str("http request failed: ").concat(m.as_str()),
            HnError::Deserialize(m) => String::from_str("deserialisation failed: ").concat(
                m.as_str(),
            ),
        }
    }
}

/// A ranked content item. Absent fields of the remote record default to
/// their type's zero value.
#[derive(Debug, Clone)]
pub struct HackerNewsItem {
    pub id: u64,
    pub title: String,
    pub by: String,
    pub score: i64,
    pub url: Option<String>,
    pub time: Option<u64>,
    pub text: Option<String>,
    pub kids: Vec<u64>,
    pub descendants: Option<u64>,
}

/// A single discussion entry attached to an item.
#[derive(Debug, Clone)]
pub struct HackerNewsComment {
    pub id: u64,
    pub by: String,
    pub text: String,
    pub kids: Vec<u64>,
    pub time: Option<u64>,
}

/// The content client: stateless but for the remote base URL.
#[derive(Debug, Clone)]
pub struct HackerNewsClient {
    base_url: String,
}

impl View for HackerNewsClient {
    type V = Seq<char>;

    closed spec fn view(&self) -> Seq<char> {
        self.base_url@
    }
}

impl Default for HackerNewsClient {
    /// A client against the production endpoint.
    fn default() -> (r: Self)
        ensures
            r@ == "https://hacker-news.firebaseio.com/v0"@,
    {
        Self { base_url: String::from_str("https://hacker-news.firebaseio.com/v0") }
    }
}

impl HackerNewsClient {
    /// A client against the given base URL.
    pub fn new(base_url: String) -> (r: Self)
        ensures
            r@ == base_url@,
    {
        Self { base_url }
    }

    /// The base URL requests are made against.
    pub fn base_url(&self) -> (r: &String)
        ensures
            r@ == self@,
    {
        &self.base_url
    }
}

/// The prefix of the ranked id list that a top-items fetch with the given
/// limit requests: the first `limit` ids, where a limit of zero still
/// requests one.
pub open spec fn requested_window(ids: Seq<u64>, limit: usize) -> Seq<u64> {
    let n: int = if limit == 0 {
        1
    } else {
        limit as int
    };
    if ids.len() <= n {
        ids
    } else {
        ids.take(n)
    }
}

/// The prefix of an item's child ids that a comment fetch with the given
/// limit requests; an item without children yields the empty window.
pub open spec fn comment_window(kids: Seq<u64>, limit: usize) -> Seq<u64> {
    if kids.len() <= limit {
        kids
    } else {
        kids.take(limit as int)
    }
}

/// The successful outcomes of `s`, in order.
pub open spec fn somes_of<T>(s: Seq<Option<T>>) -> Seq<T>
    decreases s.len(),
{
    if s.len() == 0 {
        Seq::<T>::empty()
    } else {
        let rest = somes_of(s.drop_last());
        match s.last() {
            Some(v) => rest.push(v),
            None => rest,
        }
    }
}

/// The ids a top-items fetch with the given limit resolves, in rank order.
pub fn select_requested_ids(ids: Vec<u64>, limit: usize) -> (r: Vec<u64>)
    ensures
        r@ == requested_window(ids@, limit),
{
    let n: usize = if limit == 0 {
        1
    } else {
        limit
    };
    let mut ids = ids;
    if n < ids.len() {
        ids.truncate(n);
    }
    ids
}

/// The comment ids a per-item fetch with the given limit resolves, in order.
pub fn select_comment_ids(kids: &Vec<u64>, limit: usize) -> (r: Vec<u64>)
    ensures
        r@ == comment_window(kids@, limit),
{
    let mut out: Vec<u64> = Vec::new();
    let end: usize = if limit < kids.len() {
        limit
    } else {
        kids.len()
    };
    let mut i: usize = 0;
    while i < end
        invariant
            i <= end <= kids@.len(),
            out@ == kids@.take(i as int),
        decreases end - i,
    {
        out.push(kids[i]);
        assert(kids@.take(i + 1) =~= kids@.take(i as int).push(kids@[i as int]));
        i += 1;
    }
    assert(kids@.take(kids@.len() as int) =~= kids@);
    out
}

/// Keeps the successful outcomes of a batch of per-id fetches, in the
/// order the ids were requested; failed entries are dropped.
pub fn collect_present<T>(outcomes: Vec<Option<T>>) -> (r: Vec<T>)
    ensures
        r@ == somes_of(outcomes@),
{
    let ghost all = outcomes@;
    let mut rest = outcomes;
    let mut out: Vec<T> = Vec::new();
    assert(somes_of(all) + out@ =~= somes_of(all));
    loop
        invariant
            all == outcomes@,
            somes_of(rest@) + out@ == somes_of(all),
        decreases rest@.len(),
    {
        let ghost pre = rest@;
        match rest.pop() {
            Some(outcome) => {
                assert(pre.drop_last() =~= rest@);
                assert(somes_of(pre) == match pre.last() {
                    Some(v) => somes_of(rest@).push(v),
                    None => somes_of(rest@),
                });
                match outcome {
                    Some(v) => {
                        let ghost pre_out = out@;
                        out.insert(0, v);
                        assert(out@ =~= seq![v] + pre_out);
                        assert(somes_of(rest@) + out@ =~= somes_of(rest@).push(v) + pre_out);
                    },
                    None => {},
                }
            },
            None => {
                assert(somes_of(rest@) + out@ =~= out@);
                return out;
            },
        }
    }
}

/// The successes of a batch are never more numerous than its outcomes.
pub proof fn lemma_somes_of_len<T>(s: Seq<Option<T>>)
    ensures
        somes_of(s).len() <= s.len(),
    decreases s.len(),
{
    if s.len() > 0 {
        lemma_somes_of_len(s.drop_last());
    }
}

/// A top-items fetch with limit `L` yields at most `max(L, 1)` items:
/// the requested window is at most that long, and assembling the batch
/// only ever drops failed entries.
pub proof fn lemma_top_items_bound<T>(ids: Seq<u64>, limit: usize, outcomes: Seq<Option<T>>)
    requires
        outcomes.len() == requested_window(ids, limit).len(),
    ensures
        somes_of(outcomes).len() <= if limit == 0 {
            1int
        } else {
            limit as int
        },
{
    lemma_somes_of_len(outcomes);
}

} // verus!
