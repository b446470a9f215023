//! The bounded concurrent fan-out at the heart of the upload commands:
//! every item of a group is launched exactly once, no more than a fixed
//! number of operations are in flight at any instant, and every item —
//! successful, failed, or invalid — yields exactly one outcome line.
//!
//! The group is a state machine: the surrounding binary performs the
//! remote calls and feeds each completion back, in whatever order the
//! responses arrive; everything decided here is verified.

use vstd::prelude::*;
use vstd::string::*;

verus! {

/// What kind of remote operation a fan-out group performs for each item.
#[derive(Clone, Copy, Debug, PartialEq, Eq, Structural)]
pub enum TaskKind {
    FileUpload,
    UrlUpload,
    LitterUpload,
    InvalidEntry,
}

/// Where one item of a group stands.
#[derive(Clone, Copy, Debug, PartialEq, Eq, Structural)]
pub enum TaskState {
    Pending,
    InFlight,
    Done,
}

/// How many entries of `s` are `t`.
pub open spec fn count_state(s: Seq<TaskState>, t: TaskState) -> int
    decreases s.len(),
{
    if s.len() == 0 {
        0
    } else {
        count_state(s.drop_last(), t) + if s.last() == t {
            1int
        } else {
            0int
        }
    }
}

proof fn lemma_count_bounds(s: Seq<TaskState>, t: TaskState)
    ensures
        0 <= count_state(s, t) <= s.len(),
    decreases s.len(),
{
    if s.len() > 0 {
        lemma_count_bounds(s.drop_last(), t);
    }
}

proof fn lemma_count_member(s: Seq<TaskState>, i: int, t: TaskState)
    requires
        0 <= i < s.len(),
        s[i] == t,
    ensures
        count_state(s, t) >= 1,
    decreases s.len(),
{
    lemma_count_bounds(s.drop_last(), t);
    if i < s.len() - 1 {
        lemma_count_member(s.drop_last(), i, t);
    }
}

proof fn lemma_count_update(s: Seq<TaskState>, i: int, v: TaskState, t: TaskState)
    requires
        0 <= i < s.len(),
    ensures
        count_state(s.update(i, v), t) == count_state(s, t) - (if s[i] == t {
            1int
        } else {
            0int
        }) + (if v == t {
            1int
        } else {
            0int
        }),
    decreases s.len(),
{
    if i == s.len() - 1 {
        assert(s.update(i, v).drop_last() =~= s.drop_last());
        assert(s.update(i, v).last() == v);
    } else {
        lemma_count_update(s.drop_last(), i, v, t);
        assert(s.update(i, v).drop_last() =~= s.drop_last().update(i, v));
        assert(s.update(i, v).last() == s.last());
    }
}

/// The line reported for an item that is neither a file nor a valid URL.
pub open spec fn spec_invalid_line(item: Seq<char>) -> Seq<char> {
    "Ignoring "@ + item + ": not a file or valid URL"@
}

/// The line reported for an item whose remote operation failed.
pub open spec fn spec_failure_line(item: Seq<char>) -> Seq<char> {
    "Uploading "@ + item + " failed."@
}

/// The one line reported for an item: an invalid item gets its fixed
/// "ignoring" line; any other item gets the payload the remote operation
/// returned, or the fixed failure line when the operation failed.
pub open spec fn spec_outcome_line(
    kind: TaskKind,
    item: Seq<char>,
    result: Option<Seq<char>>,
) -> Seq<char> {
    if kind == TaskKind::InvalidEntry {
        spec_invalid_line(item)
    } else {
        match result {
            Some(payload) => payload,
            None => spec_failure_line(item),
        }
    }
}

/// The outcome line for an item that is not a file or valid URL.
pub fn invalid_uri(uri: &str) -> (r: String)
    ensures
        r@ == spec_invalid_line(uri@),
{
    let r = String::from_str("Ignoring ").concat(uri).concat(": not a file or valid URL");
    proof {
        assert(r@ =~= spec_invalid_line(uri@));
    }
    r
}

/// The outcome line for an item whose remote operation failed.
pub fn failure_line(item: &str) -> (r: String)
    ensures
        r@ == spec_failure_line(item@),
{
    let r = String::from_str("Uploading ").concat(item).concat(" failed.");
    proof {
        assert(r@ =~= spec_failure_line(item@));
    }
    r
}

/// The one outcome line for an item of a group of kind `kind`, given the
/// remote result: the payload on success, nothing on failure.
pub fn outcome_line(kind: TaskKind, item: &str, result: Option<String>) -> (r: String)
    ensures
        r@ == spec_outcome_line(kind, item@, result.deep_view()),
{
    match kind {
        TaskKind::InvalidEntry => invalid_uri(item),
        _ => match result {
            Some(payload) => payload,
            None => failure_line(item),
        },
    }
}

/// One fan-out group: the items of one class, the kind of operation they
/// need, and the running state of the bounded dispatch.
pub struct FanOut {
    pub kind: TaskKind,
    pub items: Vec<String>,
    pub status: Vec<TaskState>,
    pub next_item: usize,
    pub finished: usize,
    pub limit: usize,
    pub outcomes: Vec<String>,
}

impl FanOut {
    /// The group's bookkeeping is consistent: items are launched in input
    /// order, at most `limit` are in flight, and one outcome line has been
    /// recorded per completed item.
    pub open spec fn wf(&self) -> bool {
        &&& self.status.len() == self.items.len()
        &&& self.next_item <= self.items.len()
        &&& self.limit >= 1
        &&& forall|i: int| 0 <= i < self.next_item ==> self.status@[i] != TaskState::Pending
        &&& forall|i: int|
            self.next_item <= i < self.status@.len() ==> self.status@[i] == TaskState::Pending
        &&& self.finished == count_state(self.status@, TaskState::Done)
        &&& count_state(self.status@, TaskState::InFlight) == self.next_item - self.finished
        &&& self.finished <= self.next_item
        &&& self.next_item - self.finished <= self.limit
        &&& self.outcomes.len() == self.finished
    }

    /// How many operations are in flight.
    pub open spec fn spec_in_flight(&self) -> int {
        self.next_item - self.finished
    }

    /// A new group over `items`, with nothing launched yet and the given
    /// in-flight ceiling.
    pub fn new(kind: TaskKind, items: Vec<String>, limit: usize) -> (r: FanOut)
        requires
            limit >= 1,
        ensures
            r.wf(),
            r.kind == kind,
            r.items == items,
            r.limit == limit,
            r.next_item == 0,
            r.finished == 0,
            r.outcomes.len() == 0,
    {
        let n = items.len();
        let mut status: Vec<TaskState> = Vec::new();
        while status.len() < n
            invariant
                status.len() <= n,
                forall|i: int| 0 <= i < status@.len() ==> status@[i] == TaskState::Pending,
                count_state(status@, TaskState::Done) == 0,
                count_state(status@, TaskState::InFlight) == 0,
            decreases n - status.len(),
        {
            let ghost old_status = status@;
            status.push(TaskState::Pending);
            proof {
                assert(status@.drop_last() =~= old_status);
            }
        }
        FanOut { kind, items, status, next_item: 0, finished: 0, limit, outcomes: Vec::new() }
    }

    /// Launch the next item when one is pending and a slot is free:
    /// returns its index, or nothing when everything is launched already
    /// or the in-flight ceiling is reached.
    pub fn try_launch(&mut self) -> (r: Option<usize>)
        requires
            old(self).wf(),
        ensures
            final(self).wf(),
            final(self).kind == old(self).kind,
            final(self).items == old(self).items,
            final(self).limit == old(self).limit,
            final(self).outcomes == old(self).outcomes,
            final(self).finished == old(self).finished,
            match r {
                Some(i) => {
                    &&& old(self).next_item < old(self).items.len()
                    &&& old(self).spec_in_flight() < old(self).limit
                    &&& i == old(self).next_item
                    &&& final(self).next_item == old(self).next_item + 1
                    &&& final(self).status@ == old(self).status@.update(
                        i as int,
                        TaskState::InFlight,
                    )
                },
                None => {
                    &&& *final(self) == *old(self)
                    &&& (old(self).next_item == old(self).items.len() || old(self).spec_in_flight()
                        >= old(self).limit)
                },
            },
    {
        if self.next_item < self.items.len() && self.next_item - self.finished < self.limit {
            let i = self.next_item;
            proof {
                lemma_count_update(self.status@, i as int, TaskState::InFlight, TaskState::Done);
                lemma_count_update(self.status@, i as int, TaskState::InFlight, TaskState::InFlight);
            }
            self.status.set(i, TaskState::InFlight);
            self.next_item = self.next_item + 1;
            Some(i)
        } else {
            None
        }
    }

    /// Record the completion of item `i` with its remote result — the
    /// returned payload on success, nothing on failure — and return the
    /// item's outcome line. An in-flight item completes exactly once,
    /// whatever its own result and whatever became of the other items.
    pub fn complete(&mut self, i: usize, result: Option<String>) -> (line: String)
        requires
            old(self).wf(),
            i < old(self).status.len(),
            old(self).status@[i as int] == TaskState::InFlight,
        ensures
            final(self).wf(),
            final(self).kind == old(self).kind,
            final(self).items == old(self).items,
            final(self).limit == old(self).limit,
            final(self).next_item == old(self).next_item,
            final(self).finished == old(self).finished + 1,
            final(self).status@ == old(self).status@.update(i as int, TaskState::Done),
            line@ == spec_outcome_line(
                old(self).kind,
                old(self).items@[i as int]@,
                result.deep_view(),
            ),
            final(self).outcomes.deep_view() == old(self).outcomes.deep_view().push(line@),
    {
        proof {
            lemma_count_member(self.status@, i as int, TaskState::InFlight);
            lemma_count_update(self.status@, i as int, TaskState::Done, TaskState::Done);
            lemma_count_update(self.status@, i as int, TaskState::Done, TaskState::InFlight);
        }
        self.status.set(i, TaskState::Done);
        self.finished = self.finished + 1;
        let line = outcome_line(self.kind, self.items[i].as_str(), result);
        let ghost old_outcomes = self.outcomes.deep_view();
        self.outcomes.push(line.clone());
        proof {
            assert(self.outcomes.deep_view() =~= old_outcomes.push(line@));
        }
        line
    }

    /// Whether every item of the group has completed.
    pub fn is_done(&self) -> (r: bool)
        ensures
            r == (self.finished == self.items.len()),
    {
        self.finished == self.items.len()
    }

    /// How many operations are in flight now.
    pub fn in_flight(&self) -> (r: usize)
        requires
            self.wf(),
        ensures
            r as int == self.spec_in_flight(),
    {
        self.next_item - self.finished
    }

    /// How many items have completed so far.
    pub fn completed(&self) -> (r: usize)
        ensures
            r == self.finished,
    {
        self.finished
    }
}

/// The concurrency ceiling: a well-formed group never has more than
/// `limit` operations in flight.
pub proof fn lemma_concurrency_ceiling(g: &FanOut)
    requires
        g.wf(),
    ensures
        g.spec_in_flight() <= g.limit,
{
}

/// One outcome per item: a well-formed group that has completed all its
/// items has emitted exactly one line per item.
pub proof fn lemma_one_outcome_per_item(g: &FanOut)
    requires
        g.wf(),
        g.finished == g.items.len(),
    ensures
        g.outcomes.len() == g.items.len(),
{
}

/// No deadlock: a well-formed group that has not completed everything can
/// always move — something is in flight and can complete, or the next item
/// fits under the ceiling and can be launched.
pub proof fn lemma_group_progress(g: &FanOut)
    requires
        g.wf(),
        g.finished < g.items.len(),
    ensures
        g.spec_in_flight() > 0 || (g.next_item < g.items.len() && g.spec_in_flight() < g.limit),
{
}

} // verus!
