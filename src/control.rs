//! The control loop, as a state machine.
//!
//! The loop fetches a batch of repositories; for each one, in order, that no
//! rule excludes, it asks whether it was announced already, publishes a post
//! sized to each configured destination, marks it announced and waits the
//! publish interval; after the batch it waits the discovery interval and
//! fetches again. The machine decides; whoever runs it performs each
//! [`Action`] and hands back the [`Event`] it led to. Every failure is turned
//! into a decision to go on: nothing here stops the loop.
use vstd::prelude::*;
use crate::config::Config;
use crate::denylist::denied;
use crate::format::{fits, make_post, post_fits, post_of, Destination};
use crate::repo::{dedup_key, key_of, Repo};

verus! {

/// Where the loop stands.
#[derive(Clone, Copy, Debug, PartialEq, Eq)]
pub enum Phase {
    /// A batch is being fetched.
    Fetching,
    /// The store is asked whether the current item was announced.
    Checking,
    /// A post about the current item is being published.
    Publishing,
    /// The current item is being marked announced.
    Marking,
    /// Waiting the publish interval after an item.
    Throttling,
    /// Waiting the discovery interval after a batch.
    Resting,
}

/// What the loop asks to be done next.
#[derive(Debug)]
pub enum Action {
    /// Fetch a batch of trending repositories.
    Fetch,
    /// Ask the store whether this key was announced.
    CheckSeen(String),
    /// Publish this text to this destination.
    Publish(Destination, String),
    /// Remember this key as announced for this many seconds.
    Mark(String, u64),
    /// Wait this many seconds.
    Sleep(u64),
}

/// An [`Action`] with its texts as sequences of characters.
pub enum ActionView {
    Fetch,
    CheckSeen(Seq<char>),
    Publish(Destination, Seq<char>),
    Mark(Seq<char>, u64),
    Sleep(u64),
}

impl View for Action {
    type V = ActionView;

    open spec fn view(&self) -> ActionView {
        match self {
            Action::Fetch => ActionView::Fetch,
            Action::CheckSeen(k) => ActionView::CheckSeen(k@),
            Action::Publish(d, t) => ActionView::Publish(*d, t@),
            Action::Mark(k, ttl) => ActionView::Mark(k@, *ttl),
            Action::Sleep(s) => ActionView::Sleep(*s),
        }
    }
}

/// How the last action turned out.
#[derive(Debug)]
pub enum Event {
    /// The batch was fetched.
    Fetched(Vec<Repo>),
    /// No batch could be fetched.
    FetchFailed,
    /// The store answered whether the key was announced.
    Checked(bool),
    /// The store could not be reached.
    StoreFailed,
    /// The post was published.
    Published,
    /// The destination refused the post, or could not be reached.
    PublishFailed,
    /// The key was marked announced.
    Marked,
    /// The wait is over.
    Slept,
}

/// The state of the control loop.
#[derive(Debug)]
pub struct Announcer {
    pub config: Config,
    pub phase: Phase,
    /// The batch being worked through.
    pub batch: Vec<Repo>,
    /// The position of the current item in the batch.
    pub index: usize,
    /// The first destination not yet tried for the current item.
    pub next_dest: usize,
}

/// The position of the first item at or after `from` that no rule excludes,
/// or the length of the batch where there is none.
pub open spec fn next_candidate(cfg: Config, batch: Seq<Repo>, from: int) -> int
    decreases batch.len() - from,
{
    if from >= batch.len() {
        batch.len() as int
    } else if !denied(cfg.denylist, batch[from]) {
        from
    } else {
        next_candidate(cfg, batch, from + 1)
    }
}

/// The position of the first destination at or after `from` that a post
/// about `repo` can be sized to, or the number of destinations.
pub open spec fn next_destination(repo: Repo, dests: Seq<Destination>, from: int) -> int
    decreases dests.len() - from,
{
    if from >= dests.len() {
        dests.len() as int
    } else if fits(repo, dests[from]) {
        from
    } else {
        next_destination(repo, dests, from + 1)
    }
}

/// The store key of the item at `index`.
pub open spec fn key_at(batch: Seq<Repo>, index: int) -> Seq<char> {
    key_of(batch[index].author@, batch[index].name@)
}

/// `t` and `act` are what comes of waiting out the batch: the batch is
/// dropped and the discovery interval waited.
pub open spec fn rested(cfg: Config, t: Announcer, act: ActionView) -> bool {
    &&& t.config == cfg
    &&& t.phase == Phase::Resting
    &&& t.batch@.len() == 0
    &&& act == ActionView::Sleep(cfg.interval.fetch_interval)
}

/// `t` and `act` are what comes of looking through `batch` from `from` on:
/// the first item that no rule excludes is checked against the store, and
/// where there is none the loop rests.
pub open spec fn moved_to_item(
    cfg: Config,
    batch: Seq<Repo>,
    from: int,
    t: Announcer,
    act: ActionView,
) -> bool {
    let j = next_candidate(cfg, batch, from);
    if j < batch.len() {
        &&& t.config == cfg
        &&& t.phase == Phase::Checking
        &&& t.batch@ == batch
        &&& t.index == j
        &&& act == ActionView::CheckSeen(key_at(batch, j))
    } else {
        rested(cfg, t, act)
    }
}

/// `t` and `act` are what comes of trying the destinations of `s` from
/// `from` on for its current item: the first that a post can be sized to gets
/// the post, and where none is left the item is marked announced.
pub open spec fn moved_to_destination(s: Announcer, from: int, t: Announcer, act: ActionView) -> bool {
    let repo = s.batch@[s.index as int];
    let ds = s.config.destinations@;
    let k = next_destination(repo, ds, from);
    &&& t.config == s.config
    &&& t.batch@ == s.batch@
    &&& t.index == s.index
    &&& if k < ds.len() {
        &&& t.phase == Phase::Publishing
        &&& t.next_dest == k + 1
        &&& act == ActionView::Publish(ds[k], post_of(repo, ds[k]))
    } else {
        &&& t.phase == Phase::Marking
        &&& act == ActionView::Mark(key_at(s.batch@, s.index as int), s.config.interval.post_ttl)
    }
}

/// `t` and `act` are what comes of finishing the current item of `s`: the
/// publish interval is waited.
pub open spec fn throttled(s: Announcer, t: Announcer, act: ActionView) -> bool {
    &&& t.config == s.config
    &&& t.batch@ == s.batch@
    &&& t.index == s.index
    &&& t.phase == Phase::Throttling
    &&& act == ActionView::Sleep(s.config.interval.post_interval)
}

/// `s` has a current item.
pub open spec fn has_current(s: Announcer) -> bool {
    s.index < s.batch@.len()
}

/// The transition of the loop from `s` on event `e` to `t`, asking for `act`.
/// An event that does not answer the phase (which whoever runs the loop never
/// hands in) drops the batch and rests.
pub open spec fn step_spec(s: Announcer, e: Event, t: Announcer, act: ActionView) -> bool {
    match e {
        Event::Fetched(b) => if s.phase == Phase::Fetching {
            moved_to_item(s.config, b@, 0, t, act)
        } else {
            rested(s.config, t, act)
        },
        Event::FetchFailed => rested(s.config, t, act),
        Event::Checked(seen) => if s.phase == Phase::Checking && has_current(s) {
            if seen {
                moved_to_item(s.config, s.batch@, s.index + 1, t, act)
            } else {
                moved_to_destination(s, 0, t, act)
            }
        } else {
            rested(s.config, t, act)
        },
        Event::StoreFailed => if s.phase == Phase::Checking && has_current(s) {
            moved_to_item(s.config, s.batch@, s.index + 1, t, act)
        } else if s.phase == Phase::Marking && has_current(s) {
            throttled(s, t, act)
        } else {
            rested(s.config, t, act)
        },
        Event::Published | Event::PublishFailed => if s.phase == Phase::Publishing && has_current(s)
            && s.next_dest <= s.config.destinations@.len() {
            moved_to_destination(s, s.next_dest as int, t, act)
        } else {
            rested(s.config, t, act)
        },
        Event::Marked => if s.phase == Phase::Marking && has_current(s) {
            throttled(s, t, act)
        } else {
            rested(s.config, t, act)
        },
        Event::Slept => if s.phase == Phase::Throttling && has_current(s) {
            moved_to_item(s.config, s.batch@, s.index + 1, t, act)
        } else if s.phase == Phase::Resting {
            &&& t.config == s.config
            &&& t.phase == Phase::Fetching
            &&& act == ActionView::Fetch
        } else {
            rested(s.config, t, act)
        },
    }
}

/// While an item is being worked on, it is one of the batch and no rule
/// excludes it.
pub open spec fn current_allowed(s: Announcer) -> bool {
    (s.phase == Phase::Checking || s.phase == Phase::Publishing || s.phase == Phase::Marking
        || s.phase == Phase::Throttling) ==> has_current(s) && !denied(
        s.config.denylist,
        s.batch@[s.index as int],
    )
}

/// The search for the next item stops at the first one that no rule
/// excludes, having passed over excluded ones only.
pub proof fn lemma_next_candidate(cfg: Config, batch: Seq<Repo>, from: int)
    requires
        0 <= from <= batch.len(),
    ensures
        from <= next_candidate(cfg, batch, from) <= batch.len(),
        next_candidate(cfg, batch, from) < batch.len() ==> !denied(
            cfg.denylist,
            batch[next_candidate(cfg, batch, from)],
        ),
        forall|k: int|
            from <= k < next_candidate(cfg, batch, from) ==> denied(cfg.denylist, #[trigger] batch[k]),
    decreases batch.len() - from,
{
    if from < batch.len() && denied(cfg.denylist, batch[from]) {
        lemma_next_candidate(cfg, batch, from + 1);
    }
}

impl Announcer {
    /// A loop that has yet to fetch its first batch: the first action is
    /// [`Action::Fetch`].
    pub fn new(config: Config) -> (r: Self)
        ensures
            r.config == config,
            r.phase == Phase::Fetching,
            r.batch@.len() == 0,
            r.index == 0,
            r.next_dest == 0,
    {
        Announcer { config, phase: Phase::Fetching, batch: Vec::new(), index: 0, next_dest: 0 }
    }

    fn rest(&mut self) -> (r: Action)
        ensures
            rested(old(self).config, *final(self), r@),
    {
        self.phase = Phase::Resting;
        self.batch = Vec::new();
        self.index = 0;
        self.next_dest = 0;
        Action::Sleep(self.config.interval.fetch_interval)
    }

    fn throttle(&mut self) -> (r: Action)
        ensures
            throttled(*old(self), *final(self), r@),
    {
        self.phase = Phase::Throttling;
        Action::Sleep(self.config.interval.post_interval)
    }

    fn seek_item(&mut self, from: usize) -> (r: Action)
        requires
            from <= old(self).batch@.len(),
        ensures
            moved_to_item(old(self).config, old(self).batch@, from as int, *final(self), r@),
    {
        let mut j = from;
        while j < self.batch.len()
            invariant
                from <= j <= self.batch@.len(),
                self.config == old(self).config,
                self.batch@ == old(self).batch@,
                next_candidate(self.config, self.batch@, from as int) == next_candidate(
                    self.config,
                    self.batch@,
                    j as int,
                ),
            decreases self.batch@.len() - j,
        {
            if !self.config.denylist.contains(&self.batch[j]) {
                let key = dedup_key(&self.batch[j]);
                self.phase = Phase::Checking;
                self.index = j;
                return Action::CheckSeen(key);
            }
            j = j + 1;
        }
        self.rest()
    }

    fn seek_destination(&mut self, from: usize) -> (r: Action)
        requires
            old(self).index < old(self).batch@.len(),
            from <= old(self).config.destinations@.len(),
        ensures
            moved_to_destination(*old(self), from as int, *final(self), r@),
    {
        let mut k = from;
        while k < self.config.destinations.len()
            invariant
                from <= k <= self.config.destinations@.len(),
                self.config == old(self).config,
                self.batch@ == old(self).batch@,
                self.index == old(self).index,
                self.index < self.batch@.len(),
                next_destination(self.batch@[self.index as int], self.config.destinations@, from as int)
                    == next_destination(
                    self.batch@[self.index as int],
                    self.config.destinations@,
                    k as int,
                ),
            decreases self.config.destinations@.len() - k,
        {
            let d = self.config.destinations[k];
            if post_fits(&self.batch[self.index], d) {
                let text = make_post(&self.batch[self.index], d);
                self.phase = Phase::Publishing;
                self.next_dest = k + 1;
                return Action::Publish(d, text);
            }
            k = k + 1;
        }
        let key = dedup_key(&self.batch[self.index]);
        self.phase = Phase::Marking;
        Action::Mark(key, self.config.interval.post_ttl)
    }

    fn current_ok(&self) -> (r: bool)
        ensures
            r == has_current(*self),
            self.batch@.len() <= usize::MAX,
    {
        self.index < self.batch.len()
    }

    /// Takes the outcome of the last action and decides the next one (see
    /// [`step_spec`]). An item that no rule excludes is the only one ever
    /// checked, published or marked.
    pub fn step(&mut self, event: Event) -> (r: Action)
        ensures
            step_spec(*old(self), event, *final(self), r@),
            current_allowed(*old(self)) ==> current_allowed(*final(self)),
    {
        let ghost s = *self;
        let r = match event {
            Event::Fetched(batch) => {
                if let Phase::Fetching = self.phase {
                    self.batch = batch;
                    self.index = 0;
                    self.seek_item(0)
                } else {
                    self.rest()
                }
            },
            Event::FetchFailed => self.rest(),
            Event::Checked(seen) => {
                if let Phase::Checking = self.phase {
                    if !self.current_ok() {
                        self.rest()
                    } else if seen {
                        self.seek_item(self.index + 1)
                    } else {
                        self.seek_destination(0)
                    }
                } else {
                    self.rest()
                }
            },
            Event::StoreFailed => {
                match self.phase {
                    Phase::Checking if self.current_ok() => self.seek_item(self.index + 1),
                    Phase::Marking if self.current_ok() => self.throttle(),
                    _ => self.rest(),
                }
            },
            Event::Published | Event::PublishFailed => {
                if let Phase::Publishing = self.phase {
                    if self.current_ok() && self.next_dest <= self.config.destinations.len() {
                        self.seek_destination(self.next_dest)
                    } else {
                        self.rest()
                    }
                } else {
                    self.rest()
                }
            },
            Event::Marked => {
                if let Phase::Marking = self.phase {
                    if self.current_ok() {
                        self.throttle()
                    } else {
                        self.rest()
                    }
                } else {
                    self.rest()
                }
            },
            Event::Slept => {
                match self.phase {
                    Phase::Throttling if self.current_ok() => self.seek_item(self.index + 1),
                    Phase::Resting => {
                        self.phase = Phase::Fetching;
                        Action::Fetch
                    },
                    _ => self.rest(),
                }
            },
        };
        proof {
            if self.phase == Phase::Checking {
                if s.phase == Phase::Fetching {
                    lemma_next_candidate(self.config, self.batch@, 0);
                } else {
                    lemma_next_candidate(self.config, self.batch@, s.index + 1);
                }
            }
        }
        r
    }
}

/// One destination's failure does not keep the others from being tried: a
/// refused post moves on to the next destination exactly as a published one
/// does, and once none is left the item is marked announced all the same.
pub proof fn lemma_publish_failure_isolated(s: Announcer, t: Announcer, act: ActionView)
    ensures
        step_spec(s, Event::PublishFailed, t, act) == step_spec(s, Event::Published, t, act),
        s.phase == Phase::Publishing && has_current(s) && s.next_dest
            <= s.config.destinations@.len() && next_destination(
            s.batch@[s.index as int],
            s.config.destinations@,
            s.next_dest as int,
        ) == s.config.destinations@.len() && step_spec(s, Event::PublishFailed, t, act) ==> act
            == ActionView::Mark(key_at(s.batch@, s.index as int), s.config.interval.post_ttl),
{
}

/// An item that a rule excludes is never checked against the store, never
/// published and never marked: every such action is about the current item,
/// and the current item is one that no rule excludes.
pub proof fn lemma_excluded_never_touched(s: Announcer, e: Event, t: Announcer, act: ActionView)
    requires
        current_allowed(s),
        step_spec(s, e, t, act),
    ensures
        current_allowed(t),
        act is CheckSeen || act is Publish || act is Mark ==> has_current(t) && !denied(
            t.config.denylist,
            t.batch@[t.index as int],
        ),
        act matches ActionView::CheckSeen(k) ==> k == key_at(t.batch@, t.index as int),
        act matches ActionView::Mark(k, _) ==> k == key_at(t.batch@, t.index as int),
{
    if t.phase == Phase::Checking {
        match e {
            Event::Fetched(b) => lemma_next_candidate(s.config, b@, 0),
            _ => lemma_next_candidate(s.config, s.batch@, s.index + 1),
        }
    }
}

} // verus!
