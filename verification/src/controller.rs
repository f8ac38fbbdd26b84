//! The interactive session controller: the immutable item list, the
//! selection cursor, the monotonically growing comment cache, the single
//! in-flight tracking slot, and the status state machine, together with
//! the message protocol through which completed background fetches reach
//! the controller.
//!
//! The controller never performs a fetch itself: `ensure_comments_for_selection`
//! reports which item id a caller must start a background fetch for, and
//! every completed fetch comes back as one `CommentFetchMessage`.

use std::collections::HashMap;
use vstd::prelude::*;

use crate::client::HackerNewsComment;
use crate::client::HackerNewsItem;

verus! {

broadcast use vstd::std_specs::hash::group_hash_axioms;

/// The comment-loading condition of the currently selected item.
#[derive(Debug, Clone)]
pub enum CommentStatus {
    /// Nothing is selected, or nothing has been asked for yet.
    Idle,
    /// A fetch for the selected item has been started and has not been
    /// observed to fail.
    Loading,
    /// The selected item's comments are in the cache.
    Ready,
    /// The fetch for the selected item failed with this description.
    Error(String),
}

/// One completed background fetch: the item it was started for, and
/// either the ordered comments or an error description.
#[derive(Debug)]
pub struct CommentFetchMessage {
    pub story_id: u64,
    pub result: Result<Vec<HackerNewsComment>, String>,
}

/// A discrete input event, as the controller understands it.
#[derive(Debug, Clone, Copy, PartialEq, Eq, Structural)]
pub enum InputEvent {
    /// End the session.
    Quit,
    /// Move the selection down, wrapping past the last item.
    Down,
    /// Move the selection up, wrapping past the first item.
    Up,
    /// Anything else; ignored.
    Other,
}

/// The part of the controller that the fetch protocol acts on: the
/// selected item's id, the cache contents, the in-flight slot and the
/// status.
pub ghost struct ControllerState {
    pub selected_id: Option<u64>,
    pub cache: Map<u64, Vec<HackerNewsComment>>,
    pub inflight: Option<u64>,
    pub status: CommentStatus,
}

/// How one fetch-completion message transforms the controller state:
/// the in-flight slot is cleared when the message is the tracked fetch;
/// a success is cached unless the id is already present; the visible
/// status changes only when the message concerns the selected item.
pub open spec fn step_message(m: ControllerState, msg: CommentFetchMessage) -> ControllerState {
    let inflight = if m.inflight == Some(msg.story_id) {
        Option::<u64>::None
    } else {
        m.inflight
    };
    match msg.result {
        Ok(comments) => ControllerState {
            selected_id: m.selected_id,
            cache: if m.cache.contains_key(msg.story_id) {
                m.cache
            } else {
                m.cache.insert(msg.story_id, comments)
            },
            inflight,
            status: if m.selected_id == Some(msg.story_id) {
                CommentStatus::Ready
            } else {
                m.status
            },
        },
        Err(e) => ControllerState {
            selected_id: m.selected_id,
            cache: m.cache,
            inflight,
            status: if m.selected_id == Some(msg.story_id) {
                CommentStatus::Error(e)
            } else {
                m.status
            },
        },
    }
}

/// A whole batch of messages applied in order.
pub open spec fn drained(m: ControllerState, msgs: Seq<CommentFetchMessage>) -> ControllerState
    decreases msgs.len(),
{
    if msgs.len() == 0 {
        m
    } else {
        drained(step_message(m, msgs[0]), msgs.skip(1))
    }
}

/// What ensuring comments for the current selection does to the state,
/// and which item id (if any) a background fetch must be started for:
/// nothing is started when nothing is selected, when the selection is
/// already cached, or when the selection's fetch is already tracked.
pub open spec fn ensure_step(m: ControllerState) -> (ControllerState, Option<u64>) {
    match m.selected_id {
        None => (
            ControllerState {
                selected_id: m.selected_id,
                cache: m.cache,
                inflight: None,
                status: CommentStatus::Idle,
            },
            Option::<u64>::None,
        ),
        Some(id) => if m.cache.contains_key(id) {
            (
                ControllerState {
                    selected_id: m.selected_id,
                    cache: m.cache,
                    inflight: None,
                    status: CommentStatus::Ready,
                },
                Option::<u64>::None,
            )
        } else if m.inflight == Some(id) {
            (
                ControllerState {
                    selected_id: m.selected_id,
                    cache: m.cache,
                    inflight: m.inflight,
                    status: CommentStatus::Loading,
                },
                Option::<u64>::None,
            )
        } else {
            (
                ControllerState {
                    selected_id: m.selected_id,
                    cache: m.cache,
                    inflight: Some(id),
                    status: CommentStatus::Loading,
                },
                Some(id),
            )
        },
    }
}

/// The session controller.
pub struct App {
    /// The ranked item list, fetched once and immutable for the session.
    pub posts: Vec<HackerNewsItem>,
    /// The selection cursor: an index into `posts`, or none when empty.
    pub selected: Option<usize>,
    /// Item id to its fetched comments; grows monotonically.
    pub comments_cache: HashMap<u64, Vec<HackerNewsComment>>,
    /// The id of the most recently started fetch whose completion the
    /// controller is waiting to react to.
    pub inflight_story: Option<u64>,
    /// The status of the currently selected item's comments.
    pub comment_status: CommentStatus,
}

impl App {
    /// The selection cursor is none exactly on an empty list, and in
    /// bounds otherwise.
    pub open spec fn wf(&self) -> bool {
        &&& (self.selected is None <==> self.posts@.len() == 0)
        &&& (self.selected matches Some(i) ==> i < self.posts@.len())
    }

    /// The id of the selected item, if a valid item is selected.
    pub open spec fn selected_id_spec(&self) -> Option<u64> {
        match self.selected {
            Some(i) => if i < self.posts@.len() {
                Some(self.posts@[i as int].id)
            } else {
                Option::<u64>::None
            },
            None => Option::<u64>::None,
        }
    }

    /// The protocol-relevant part of the controller.
    pub open spec fn state(&self) -> ControllerState {
        ControllerState {
            selected_id: self.selected_id_spec(),
            cache: self.comments_cache@,
            inflight: self.inflight_story,
            status: self.comment_status,
        }
    }

    /// Where the selection cursor lands after moving by `delta` with
    /// wraparound; unchanged on an empty list.
    pub open spec fn wrapped_next(&self, delta: int) -> Option<usize> {
        if self.posts@.len() == 0 {
            self.selected
        } else {
            let len = self.posts@.len() as int;
            let cur = match self.selected {
                Some(i) => i as int,
                None => 0int,
            };
            let next = cur + delta;
            let w = if next < 0 {
                len - 1
            } else if next >= len {
                0int
            } else {
                next
            };
            Some(w as usize)
        }
    }

    /// A fresh controller over the given item list: first item selected
    /// when there is one, empty cache, nothing in flight, idle status.
    pub fn new(posts: Vec<HackerNewsItem>) -> (a: App)
        ensures
            a.wf(),
            a.posts == posts,
            a.selected == (if posts@.len() == 0 {
                Option::<usize>::None
            } else {
                Some(0usize)
            }),
            a.comments_cache@ == Map::<u64, Vec<HackerNewsComment>>::empty(),
            a.inflight_story is None,
            a.comment_status is Idle,
    {
        let selected = if posts.len() == 0 {
            None
        } else {
            Some(0usize)
        };
        App {
            posts,
            selected,
            comments_cache: HashMap::new(),
            inflight_story: None,
            comment_status: CommentStatus::Idle,
        }
    }

    /// The selected item, if a valid one is selected.
    pub fn selected_post(&self) -> (r: Option<&HackerNewsItem>)
        ensures
            r is Some <==> (self.selected matches Some(i) && i < self.posts@.len()),
            r matches Some(p) ==> *p == self.posts@[self.selected->0 as int],
    {
        match self.selected {
            Some(i) => if i < self.posts.len() {
                Some(&self.posts[i])
            } else {
                None
            },
            None => None,
        }
    }

    /// The selected item's id, if a valid item is selected.
    pub fn selected_post_id(&self) -> (r: Option<u64>)
        ensures
            r == self.selected_id_spec(),
    {
        match self.selected {
            Some(i) => if i < self.posts.len() {
                Some(self.posts[i].id)
            } else {
                None
            },
            None => None,
        }
    }

    /// The cached comments of the selected item, if present.
    pub fn comments_for_selected(&self) -> (r: Option<&Vec<HackerNewsComment>>)
        ensures
            match self.selected_id_spec() {
                Some(id) => if self.comments_cache@.contains_key(id) {
                    r matches Some(c) && *c == self.comments_cache@[id]
                } else {
                    r is None
                },
                None => r is None,
            },
    {
        match self.selected_post_id() {
            Some(id) => self.comments_cache.get(&id),
            None => None,
        }
    }

    /// Applies one input event. A quit event reports `(true, false)` and
    /// changes nothing; navigation moves the cursor with wraparound and
    /// reports whether the selection actually changed; anything else is
    /// ignored.
    pub fn handle_key_event(&mut self, key: InputEvent) -> (r: (bool, bool))
        requires
            old(self).wf(),
        ensures
            final(self).wf(),
            final(self).posts == old(self).posts,
            final(self).comments_cache@ == old(self).comments_cache@,
            final(self).inflight_story == old(self).inflight_story,
            final(self).comment_status == old(self).comment_status,
            r.1 == (final(self).selected != old(self).selected),
            key == InputEvent::Quit ==> r == (true, false) && final(self).selected == old(
                self,
            ).selected,
            key == InputEvent::Down ==> r.0 == false && final(self).selected == old(
                self,
            ).wrapped_next(1),
            key == InputEvent::Up ==> r.0 == false && final(self).selected == old(
                self,
            ).wrapped_next(-1),
            key == InputEvent::Other ==> r == (false, false) && final(self).selected == old(
                self,
            ).selected,
    {
        match key {
            InputEvent::Quit => (true, false),
            InputEvent::Down => {
                let changed = self.move_selection(1);
                (false, changed)
            },
            InputEvent::Up => {
                let changed = self.move_selection(-1);
                (false, changed)
            },
            InputEvent::Other => (false, false),
        }
    }

    /// Moves the selection cursor by one step with wraparound, and
    /// reports whether the resulting index differs from the current one;
    /// an empty list reports no change.
    pub fn move_selection(&mut self, delta: isize) -> (changed: bool)
        requires
            old(self).wf(),
            delta == 1 || delta == -1,
        ensures
            final(self).wf(),
            final(self).posts == old(self).posts,
            final(self).comments_cache@ == old(self).comments_cache@,
            final(self).inflight_story == old(self).inflight_story,
            final(self).comment_status == old(self).comment_status,
            final(self).selected == old(self).wrapped_next(delta as int),
            changed == (final(self).selected != old(self).selected),
    {
        if self.posts.len() == 0 {
            return false;
        }
        let len = self.posts.len();
        let cur = match self.selected {
            Some(i) => i,
            None => 0,
        };
        let next = if delta == 1 {
            if cur + 1 >= len {
                0
            } else {
                cur + 1
            }
        } else {
            if cur == 0 {
                len - 1
            } else {
                cur - 1
            }
        };
        let same = match self.selected {
            Some(i) => i == next,
            None => false,
        };
        if same {
            return false;
        }
        self.selected = Some(next);
        true
    }

    /// Brings the status in line with the current selection, and reports
    /// which item id a background comment fetch must be started for, if
    /// any: none when nothing is selected, none on a cache hit (the hit
    /// is authoritative and nothing is re-fetched), and none when the
    /// selection's fetch is already tracked in flight.
    pub fn ensure_comments_for_selection(&mut self) -> (start: Option<u64>)
        ensures
            final(self).posts == old(self).posts,
            final(self).selected == old(self).selected,
            old(self).wf() ==> final(self).wf(),
            final(self).state() == ensure_step(old(self).state()).0,
            start == ensure_step(old(self).state()).1,
    {
        match self.selected_post_id() {
            None => {
                self.inflight_story = None;
                self.comment_status = CommentStatus::Idle;
                None
            },
            Some(id) => {
                if self.comments_cache.contains_key(&id) {
                    self.comment_status = CommentStatus::Ready;
                    self.inflight_story = None;
                    None
                } else {
                    let tracked_here = match self.inflight_story {
                        Some(x) => x == id,
                        None => false,
                    };
                    if tracked_here {
                        self.comment_status = CommentStatus::Loading;
                        None
                    } else {
                        self.comment_status = CommentStatus::Loading;
                        self.inflight_story = Some(id);
                        Some(id)
                    }
                }
            },
        }
    }

    /// Applies one completed fetch to the controller, as `step_message`
    /// describes: the tracked in-flight slot is cleared if this is its
    /// completion, a success is cached (never overwriting an existing
    /// entry), and the visible status changes only when the message
    /// concerns the currently selected item.
    pub fn process_comment_message(&mut self, message: CommentFetchMessage)
        ensures
            final(self).posts == old(self).posts,
            final(self).selected == old(self).selected,
            old(self).wf() ==> final(self).wf(),
            final(self).state() == step_message(old(self).state(), message),
    {
        let story_id = message.story_id;
        let tracked_here = match self.inflight_story {
            Some(x) => x == story_id,
            None => false,
        };
        if tracked_here {
            self.inflight_story = None;
        }
        let selected_here = match self.selected_post_id() {
            Some(s) => s == story_id,
            None => false,
        };
        match message.result {
            Ok(comments) => {
                if !self.comments_cache.contains_key(&story_id) {
                    self.comments_cache.insert(story_id, comments);
                }
                if selected_here {
                    self.comment_status = CommentStatus::Ready;
                }
            },
            Err(err) => {
                if selected_here {
                    self.comment_status = CommentStatus::Error(err);
                }
            },
        }
    }
}

/// Applies a drained batch of fetch-completion messages to the
/// controller, in arrival order.
pub fn drain_comment_messages(app: &mut App, messages: Vec<CommentFetchMessage>)
    ensures
        final(app).posts == old(app).posts,
        final(app).selected == old(app).selected,
        old(app).wf() ==> final(app).wf(),
        final(app).state() == drained(old(app).state(), messages@),
{
    let ghost m0 = app.state();
    let ghost all = messages@;
    let mut rest = messages;
    while rest.len() > 0
        invariant
            all == messages@,
            app.posts == old(app).posts,
            app.selected == old(app).selected,
            old(app).wf() ==> app.wf(),
            drained(m0, all) == drained(app.state(), rest@),
            m0 == old(app).state(),
        decreases rest@.len(),
    {
        let ghost pre = rest@;
        let ghost mpre = app.state();
        let msg = rest.remove(0);
        assert(pre.remove(0) =~= pre.skip(1));
        app.process_comment_message(msg);
        assert(drained(mpre, pre) == drained(step_message(mpre, pre[0]), pre.skip(1)));
    }
    assert(drained(app.state(), rest@) == app.state());
}

/// Navigating down from the last item selects the first; navigating up
/// from the first selects the last; navigating on an empty list leaves
/// the empty selection unchanged.
pub proof fn lemma_navigation_wraps(a: App)
    requires
        a.wf(),
        a.posts@.len() <= usize::MAX,
    ensures
        a.posts@.len() == 0 ==> a.wrapped_next(1) == a.selected && a.wrapped_next(-1)
            == a.selected,
        a.posts@.len() > 0 && a.selected == Some((a.posts@.len() - 1) as usize)
            ==> a.wrapped_next(1) == Some(0usize),
        a.posts@.len() > 0 && a.selected == Some(0usize) ==> a.wrapped_next(-1) == Some(
            (a.posts@.len() - 1) as usize,
        ),
{
}

/// One fetch completion never removes or overwrites a cache entry: every
/// key present before is present after, bound to the same comments, and
/// the cache can only have grown.
pub proof fn lemma_step_cache_monotone(m: ControllerState, msg: CommentFetchMessage)
    ensures
        m.cache.dom().subset_of(step_message(m, msg).cache.dom()),
        forall|k: u64| m.cache.contains_key(k) ==> step_message(m, msg).cache[k] == m.cache[k],
        m.cache.dom().finite() ==> m.cache.dom().len() <= step_message(m, msg).cache.dom().len(),
{
    let post = step_message(m, msg).cache;
    assert(m.cache.dom().subset_of(post.dom()));
    if m.cache.dom().finite() {
        vstd::set_lib::lemma_len_subset(m.cache.dom(), post.dom());
    }
}

/// Over a whole session of drained fetch completions the cache is
/// monotone: its size never decreases, and no key is ever removed or
/// rebound.
pub proof fn lemma_drained_cache_monotone(m: ControllerState, msgs: Seq<CommentFetchMessage>)
    ensures
        m.cache.dom().subset_of(drained(m, msgs).cache.dom()),
        forall|k: u64| m.cache.contains_key(k) ==> drained(m, msgs).cache[k] == m.cache[k],
        m.cache.dom().finite() ==> m.cache.dom().len() <= drained(m, msgs).cache.dom().len(),
    decreases msgs.len(),
{
    if msgs.len() == 0 {
    } else {
        lemma_step_cache_monotone(m, msgs[0]);
        lemma_drained_cache_monotone(step_message(m, msgs[0]), msgs.skip(1));
        if m.cache.dom().finite() {
            vstd::set_lib::lemma_len_subset(
                m.cache.dom(),
                step_message(m, msgs[0]).cache.dom(),
            );
        }
    }
}

/// Selecting an already-cached item never triggers a new fetch: when the
/// selected item's id is in the cache, ensuring comments starts nothing
/// and the status becomes ready at once.
pub proof fn lemma_cached_selection_starts_no_fetch(m: ControllerState)
    requires
        m.selected_id is Some,
        m.cache.contains_key(m.selected_id->0),
    ensures
        ensure_step(m).1 is None,
        ensure_step(m).0.status is Ready,
        ensure_step(m).0.cache == m.cache,
{
}

/// After bringing the status in line with the selection, the status is
/// ready exactly when the selected item is cached, idle exactly when
/// nothing is selected, and loading otherwise.
pub proof fn lemma_ensure_status_reflects_cache(m: ControllerState)
    ensures
        ensure_step(m).0.status is Ready <==> (m.selected_id matches Some(id)
            && m.cache.contains_key(id)),
        ensure_step(m).0.status is Idle <==> m.selected_id is None,
        ensure_step(m).0.status is Loading <==> (m.selected_id matches Some(id)
            && !m.cache.contains_key(id)),
{
}

/// A fetch completion for the item the user is looking at makes it
/// ready, however stale the in-flight slot is: even if other fetches
/// were started in between, the selected item's successful completion
/// caches its comments and sets the status to ready.
pub proof fn lemma_completion_reaches_selected(m: ControllerState, msg: CommentFetchMessage)
    requires
        msg.result is Ok,
        m.selected_id == Some(msg.story_id),
    ensures
        step_message(m, msg).status is Ready,
        step_message(m, msg).cache.contains_key(msg.story_id),
{
}

/// A fetch completion for an item other than the selected one never
/// touches the visible status; a successful one still lands in the
/// cache for free future use.
pub proof fn lemma_stale_completion_leaves_status(m: ControllerState, msg: CommentFetchMessage)
    requires
        m.selected_id != Some(msg.story_id),
    ensures
        step_message(m, msg).status == m.status,
        msg.result is Ok ==> step_message(m, msg).cache.contains_key(msg.story_id),
{
}

} // verus!
