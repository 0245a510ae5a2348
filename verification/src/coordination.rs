//! Coordination of Studio UI jobs that share one guest helper: how a request may overlap
//! other callers, the per-session admission queue that serves requests in accept order, and
//! the bounded record of recent jobs.
use vstd::prelude::*;
use crate::contracts::{secure_identifier, BackendError, UiActionKind};
use crate::text::{equals_str, string_of, to_chars};
use crate::ui_automation::{error, Operation, Request};

verus! {

/// Recent jobs kept for diagnostics; waiting never depends on this history.
pub const HISTORY: usize = 64;

#[derive(Debug, Clone, Copy, PartialEq, Eq, Structural)]
pub enum Concurrency {
    /// Read-only state observation; may overlap other observations.
    Observation,
    /// State change confined to one Studio session; serial per session.
    Session,
    /// Focus or keyboard input; exclusive across the interactive desktop.
    Desktop,
}

pub open spec fn concurrency_spec(operation: Operation, action: Option<UiActionKind>) -> Concurrency {
    match operation {
        Operation::Capabilities | Operation::Tree | Operation::Find | Operation::Screenshot
        | Operation::Wait => Concurrency::Observation,
        Operation::Release | Operation::Reconnect => Concurrency::Session,
        Operation::Action => match action {
            Some(UiActionKind::Focus) | Some(UiActionKind::KeyboardInput) => Concurrency::Desktop,
            _ => Concurrency::Session,
        },
    }
}

/// How one UI request may overlap other callers of the shared helper: `click`, `invoke`
/// and `set-value` act on one window without taking the desktop focus, while `focus` and
/// `keyboard-input` act on the foreground.
pub fn concurrency(operation: Operation, action: Option<UiActionKind>) -> (c: Concurrency)
    ensures
        c == concurrency_spec(operation, action),
{
    match operation {
        Operation::Capabilities | Operation::Tree | Operation::Find | Operation::Screenshot
        | Operation::Wait => Concurrency::Observation,
        Operation::Release | Operation::Reconnect => Concurrency::Session,
        Operation::Action => match action {
            Some(UiActionKind::Focus) | Some(UiActionKind::KeyboardInput) => Concurrency::Desktop,
            _ => Concurrency::Session,
        },
    }
}

/// How a participant uses the shared VM.
#[derive(Debug, Clone, Copy, PartialEq, Eq, Structural)]
pub enum VmUseMode {
    Shared,
    Exclusive,
}

/// Only read-only observations share the VM; every state change or foreground action
/// excludes other participants.
pub fn vm_mode(class: Concurrency) -> (m: VmUseMode)
    ensures
        m == (if class == Concurrency::Observation {
            VmUseMode::Shared
        } else {
            VmUseMode::Exclusive
        }),
{
    match class {
        Concurrency::Observation => VmUseMode::Shared,
        Concurrency::Session | Concurrency::Desktop => VmUseMode::Exclusive,
    }
}

/// One queued arrival: reserved when the keeper accepted the connection, filled once its
/// request became a job.
#[derive(Debug, Clone, Copy, PartialEq, Eq, Structural)]
pub struct Waiter {
    pub arrival: u64,
    pub filled: bool,
}

/// Whether the arrivals strictly increase along the queue.
pub open spec fn arrivals_increasing(w: Seq<Waiter>) -> bool {
    forall|i: int, j: int| 0 <= i < j < w.len() ==> w[i].arrival < w[j].arrival
}

/// The queue with the entry of `arrival` filled.
pub open spec fn fill_spec(w: Seq<Waiter>, arrival: u64) -> Seq<Waiter> {
    Seq::new(
        w.len(),
        |i: int| if w[i].arrival == arrival { Waiter { arrival, filled: true } } else { w[i] },
    )
}

/// The queue without the entries of `arrival`.
pub open spec fn remove_spec(w: Seq<Waiter>, arrival: u64) -> Seq<Waiter>
    decreases w.len(),
{
    if w.len() == 0 {
        w
    } else {
        let init = remove_spec(w.drop_last(), arrival);
        if w.last().arrival == arrival {
            init
        } else {
            init.push(w.last())
        }
    }
}

/// Whether the session queue grants a turn now: it is idle and the oldest arrival is filled.
pub open spec fn grants(busy: bool, w: Seq<Waiter>) -> bool {
    !busy && w.len() > 0 && w[0].filled
}

/// Per-session admission queue. Entries keep strict arrival order and only the oldest entry
/// can be admitted, so one session's requests run one at a time in accept order; a reserved
/// entry whose request is not read yet holds back every later arrival.
pub struct SessionGate {
    busy: bool,
    waiters: Vec<Waiter>,
}

impl SessionGate {
    pub closed spec fn busy_view(&self) -> bool {
        self.busy
    }

    pub closed spec fn waiters_view(&self) -> Seq<Waiter> {
        self.waiters@
    }

    pub open spec fn wf(&self) -> bool {
        arrivals_increasing(self.waiters_view())
    }

    /// An idle session queue with nobody waiting.
    pub fn new() -> (g: Self)
        ensures
            g.wf(),
            !g.busy_view(),
            g.waiters_view().len() == 0,
    {
        SessionGate { busy: false, waiters: Vec::new() }
    }

    /// Whether a turn is held.
    pub fn is_busy(&self) -> (b: bool)
        ensures
            b == self.busy_view(),
    {
        self.busy
    }

    /// The queued arrivals, oldest first.
    pub fn waiters(&self) -> (w: Vec<Waiter>)
        ensures
            w@ == self.waiters_view(),
    {
        self.waiters.clone()
    }

    /// Admits the oldest arrival when the session queue is idle and that arrival is filled; returns
    /// the admitted arrival.
    fn pump(&mut self) -> (granted: Option<u64>)
        requires
            old(self).wf(),
        ensures
            final(self).wf(),
            granted is Some == grants(old(self).busy_view(), old(self).waiters_view()),
            grants(old(self).busy_view(), old(self).waiters_view()) ==> {
                &&& granted == Some(old(self).waiters_view()[0].arrival)
                &&& final(self).busy_view()
                &&& final(self).waiters_view() == old(self).waiters_view().drop_first()
            },
            !grants(old(self).busy_view(), old(self).waiters_view()) ==> {
                &&& final(self).busy_view() == old(self).busy_view()
                &&& final(self).waiters_view() == old(self).waiters_view()
            },
    {
        if !self.busy && self.waiters.len() > 0 && self.waiters[0].filled {
            let first = self.waiters.remove(0);
            self.busy = true;
            assert(self.waiters@ =~= old(self).waiters@.drop_first());
            Some(first.arrival)
        } else {
            None
        }
    }

    /// Queues a reservation for `arrival`, later than every queued arrival.
    pub fn reserve(&mut self, arrival: u64)
        requires
            old(self).wf(),
            forall|i: int| 0 <= i < old(self).waiters_view().len() ==> #[trigger] old(self).waiters_view()[i].arrival < arrival,
        ensures
            final(self).wf(),
            final(self).busy_view() == old(self).busy_view(),
            final(self).waiters_view() == old(self).waiters_view().push(Waiter { arrival, filled: false }),
    {
        self.waiters.push(Waiter { arrival, filled: false });
    }

    /// Marks the reservation of `arrival` as filled, then admits what can be admitted.
    /// `found` is false when no reservation of `arrival` is queued.
    pub fn fill(&mut self, arrival: u64) -> (r: (bool, Option<u64>))
        requires
            old(self).wf(),
        ensures
            final(self).wf(),
            r.0 == exists|i: int| 0 <= i < old(self).waiters_view().len() && #[trigger] old(self).waiters_view()[i].arrival == arrival,
            !r.0 ==> r.1 is None && final(self).busy_view() == old(self).busy_view()
                && final(self).waiters_view() == old(self).waiters_view(),
            r.0 ==> {
                let filled = fill_spec(old(self).waiters_view(), arrival);
                &&& r.1 is Some == grants(old(self).busy_view(), filled)
                &&& grants(old(self).busy_view(), filled) ==> r.1 == Some(filled[0].arrival)
                    && final(self).busy_view() && final(self).waiters_view() == filled.drop_first()
                &&& !grants(old(self).busy_view(), filled) ==> final(self).busy_view() == old(self).busy_view()
                    && final(self).waiters_view() == filled
            },
    {
        let mut i: usize = 0;
        while i < self.waiters.len()
            invariant
                i <= self.waiters.len(),
                self.waiters@ == old(self).waiters@,
                self.busy == old(self).busy,
                arrivals_increasing(self.waiters@),
                forall|j: int| 0 <= j < i ==> #[trigger] self.waiters@[j].arrival != arrival,
            decreases self.waiters.len() - i,
        {
            if self.waiters[i].arrival == arrival {
                let ghost before = self.waiters@;
                assert(old(self).waiters_view()[i as int].arrival == arrival);
                self.waiters.set(i, Waiter { arrival, filled: true });
                assert forall|j: int| 0 <= j < before.len() && j != i implies before[j].arrival != arrival by {
                    if j > i {
                        assert(before[i as int].arrival < before[j].arrival);
                    }
                }
                assert(self.waiters@ =~= fill_spec(before, arrival));
                assert(arrivals_increasing(self.waiters@));
                let granted = self.pump();
                return (true, granted);
            }
            i = i + 1;
        }
        (false, None)
    }

    /// Removes the entry of `arrival`, whether reserved or filled, then admits what can be
    /// admitted.
    pub fn remove(&mut self, arrival: u64) -> (granted: Option<u64>)
        requires
            old(self).wf(),
        ensures
            final(self).wf(),
            ({
                let rest = remove_spec(old(self).waiters_view(), arrival);
                &&& granted is Some == grants(old(self).busy_view(), rest)
                &&& grants(old(self).busy_view(), rest) ==> granted == Some(rest[0].arrival)
                    && final(self).busy_view() && final(self).waiters_view() == rest.drop_first()
                &&& !grants(old(self).busy_view(), rest) ==> final(self).busy_view() == old(self).busy_view()
                    && final(self).waiters_view() == rest
            }),
    {
        let mut kept: Vec<Waiter> = Vec::new();
        let mut i: usize = 0;
        while i < self.waiters.len()
            invariant
                i <= self.waiters.len(),
                self.waiters@ == old(self).waiters@,
                self.busy == old(self).busy,
                arrivals_increasing(self.waiters@),
                kept@ == remove_spec(self.waiters@.take(i as int), arrival),
                forall|j: int| 0 <= j < kept@.len() ==> exists|k: int| 0 <= k < i && #[trigger] kept@[j] == self.waiters@[k],
                forall|j: int, k: int| 0 <= j < kept@.len() && i <= k < self.waiters@.len() ==> #[trigger] kept@[j].arrival < #[trigger] self.waiters@[k].arrival,
                arrivals_increasing(kept@),
            decreases self.waiters.len() - i,
        {
            proof {
                assert(self.waiters@.take(i as int + 1).drop_last() =~= self.waiters@.take(i as int));
            }
            let w = self.waiters[i];
            if w.arrival != arrival {
                kept.push(w);
            }
            i = i + 1;
        }
        assert(self.waiters@.take(self.waiters@.len() as int) =~= self.waiters@);
        self.waiters = kept;
        self.pump()
    }

    /// Releases the held turn, then admits what can be admitted.
    pub fn turn_completed(&mut self) -> (granted: Option<u64>)
        requires
            old(self).wf(),
        ensures
            final(self).wf(),
            granted is Some == grants(false, old(self).waiters_view()),
            grants(false, old(self).waiters_view()) ==> granted == Some(old(self).waiters_view()[0].arrival)
                && final(self).busy_view() && final(self).waiters_view() == old(self).waiters_view().drop_first(),
            !grants(false, old(self).waiters_view()) ==> !final(self).busy_view()
                && final(self).waiters_view() == old(self).waiters_view(),
    {
        self.busy = false;
        self.pump()
    }
}


/// Admission follows accept order: whenever the session queue admits an arrival, every arrival still
/// queued behind it was accepted later.
pub proof fn lemma_admission_in_accept_order(busy: bool, w: Seq<Waiter>)
    requires
        arrivals_increasing(w),
        grants(busy, w),
    ensures
        forall|i: int| 0 <= i < w.drop_first().len() ==> w[0].arrival < #[trigger] w.drop_first()[i].arrival,
{
    assert forall|i: int| 0 <= i < w.drop_first().len() implies w[0].arrival < #[trigger] w.drop_first()[i].arrival by {
        assert(w.drop_first()[i] == w[i + 1]);
    }
}

/// One turn at a time: a session queue whose turn is held admits nobody, whatever is queued.
pub proof fn lemma_one_turn_at_a_time(w: Seq<Waiter>)
    ensures
        !grants(true, w),
{
}

/// A reservation whose request is not read yet holds back every later arrival of its
/// session, filled or not.
pub proof fn lemma_reservation_blocks_later(busy: bool, w: Seq<Waiter>)
    requires
        w.len() > 0,
        !w[0].filled,
    ensures
        !grants(busy, w),
{
}

/// Removing one caller's arrival keeps every other entry, in order, and nothing of that
/// arrival.
pub proof fn lemma_remove_only_that_arrival(w: Seq<Waiter>, arrival: u64)
    ensures
        forall|i: int| 0 <= i < w.len() && w[i].arrival != arrival ==> remove_spec(w, arrival).contains(#[trigger] w[i]),
        forall|j: int| 0 <= j < remove_spec(w, arrival).len() ==> (#[trigger] remove_spec(w, arrival)[j]).arrival != arrival && w.contains(remove_spec(w, arrival)[j]),
    decreases w.len(),
{
    if w.len() > 0 {
        let init = w.drop_last();
        lemma_remove_only_that_arrival(init, arrival);
        let r = remove_spec(w, arrival);
        let ri = remove_spec(init, arrival);
        assert forall|i: int| 0 <= i < w.len() && w[i].arrival != arrival implies r.contains(#[trigger] w[i]) by {
            if i < w.len() - 1 {
                assert(init[i] == w[i]);
                assert(ri.contains(init[i]));
                let k = choose|k: int| 0 <= k < ri.len() && ri[k] == init[i];
                if w.last().arrival != arrival {
                    assert(r[k] == w[i]);
                }
            } else {
                assert(r[r.len() - 1] == w[i]);
            }
        }
        assert forall|j: int| 0 <= j < r.len() implies (#[trigger] r[j]).arrival != arrival && w.contains(r[j]) by {
            if j < ri.len() {
                assert(r[j] == ri[j]);
                assert(init.contains(ri[j]));
                let k = choose|k: int| 0 <= k < init.len() && init[k] == ri[j];
                assert(w[k] == init[k]);
            } else {
                assert(r[j] == w.last());
                assert(w[w.len() - 1] == w.last());
            }
        }
    }
}


/// Same-user caller identity captured with each job: it labels ownership and queue records
/// only, and is never used to signal a process.
#[derive(Debug, Clone, Copy, PartialEq, Eq, Structural)]
pub struct Caller {
    pub pid: u32,
    pub start: Option<u64>,
}

/// One coordinated job: the caller, the Studio session it addresses and the window it
/// named, when it named one.
#[derive(Debug, Clone)]
pub struct Job {
    pub id: String,
    pub arrival: u64,
    pub session_id: String,
    pub operation: Operation,
    pub concurrency: Concurrency,
    pub caller: Caller,
    pub window_id: Option<String>,
}

impl Job {
    /// The job for `request`, accepted as `arrival`, under a fresh random identifier.
    pub fn new(arrival: u64, request: &Request, caller: Caller) -> (r: Result<Self, BackendError>)
        ensures
            r matches Ok(job) ==> {
                &&& job.arrival == arrival
                &&& job.session_id@ == request.session_id@
                &&& job.operation == request.operation
                &&& job.concurrency == concurrency_spec(request.operation, request.action)
                &&& job.caller == caller
                &&& job.window_id matches Some(w) ==> request.window_id matches Some(v) && w@ == v@
                &&& job.window_id is None ==> request.window_id is None
            },
            r matches Err(e) ==> e.message@ == "ui-provider-failed"@,
    {
        let operation = request.operation;
        let id = match secure_identifier("ui") {
            Ok(id) => id,
            Err(_) => {
                return Err(error(operation, "ui-provider-failed"));
            },
        };
        let window_id = match &request.window_id {
            Some(w) => Some(string_of(w.as_str())),
            None => None,
        };
        Ok(Job {
            id,
            arrival,
            session_id: string_of(request.session_id.as_str()),
            operation,
            concurrency: concurrency(operation, request.action),
            caller,
            window_id,
        })
    }
}

#[derive(Debug, Clone, PartialEq, Eq)]
pub enum JobState {
    Queued,
    Running,
    Completed,
    Failed(String),
    Cancelled,
}

#[derive(Debug, Clone)]
pub struct JobRecord {
    pub job: Job,
    pub state: JobState,
    /// When the job was queued, in Unix milliseconds.
    pub enqueued_at: i64,
}

/// The history that keeping the newest `HISTORY` records of `history` followed by `record`
/// gives.
pub open spec fn bounded_push(history: Seq<JobRecord>, record: JobRecord) -> Seq<JobRecord> {
    let all = history.push(record);
    if all.len() > HISTORY {
        all.skip(all.len() - HISTORY)
    } else {
        all
    }
}

/// The position of the newest record of job `id`.
pub open spec fn last_record_of(history: Seq<JobRecord>, id: Seq<char>) -> Option<int> {
    if exists|i: int| 0 <= i < history.len() && (#[trigger] history[i]).job.id@ == id {
        Some(choose|i: int| 0 <= i < history.len() && (#[trigger] history[i]).job.id@ == id
            && forall|j: int| i < j < history.len() ==> (#[trigger] history[j]).job.id@ != id)
    } else {
        None
    }
}

/// The running count after a record moves from `previous` to `next`.
pub open spec fn running_after(running: nat, previous: JobState, next: JobState) -> nat {
    if previous is Queued && next is Running {
        running + 1
    } else if previous is Running && !(next is Running) {
        if running > 0 { (running - 1) as nat } else { 0 }
    } else {
        running
    }
}

/// Recent jobs and the number of jobs running.
pub struct Registry {
    history: Vec<JobRecord>,
    running: usize,
}

impl Registry {
    pub closed spec fn history_view(&self) -> Seq<JobRecord> {
        self.history@
    }

    pub closed spec fn running_view(&self) -> nat {
        self.running as nat
    }

    pub open spec fn wf(&self) -> bool {
        self.history_view().len() <= HISTORY
    }

    pub fn new() -> (r: Self)
        ensures
            r.wf(),
            r.history_view().len() == 0,
            r.running_view() == 0,
    {
        Registry { history: Vec::new(), running: 0 }
    }

    /// Appends a record, dropping the oldest ones beyond `HISTORY`.
    pub fn record(&mut self, job: Job, state: JobState, enqueued_at: i64)
        requires
            old(self).wf(),
        ensures
            final(self).wf(),
            final(self).history_view() == bounded_push(old(self).history_view(), JobRecord { job, state, enqueued_at }),
            final(self).running_view() == old(self).running_view(),
    {
        let ghost all = self.history@.push(JobRecord { job, state, enqueued_at });
        self.history.push(JobRecord { job, state, enqueued_at });
        let ghost mut dropped: int = 0;
        while self.history.len() > HISTORY
            invariant
                0 <= dropped <= all.len(),
                self.history@ == all.skip(dropped),
                all.len() <= HISTORY + 1,
                dropped == 0 || all.len() - dropped >= HISTORY,
                self.running == old(self).running,
            decreases self.history.len(),
        {
            self.history.remove(0);
            proof {
                assert(all.skip(dropped).drop_first() =~= all.skip(dropped + 1));
                dropped = dropped + 1;
            }
        }
        proof {
            if dropped == 0 {
                assert(all.skip(0) =~= all);
            }
        }
    }

    /// Moves the newest record of job `id` to `state`, keeping the running count; nothing
    /// changes when no record of `id` is kept.
    pub fn record_state(&mut self, id: &str, state: JobState)
        requires
            old(self).wf(),
        ensures
            final(self).wf(),
            match last_record_of(old(self).history_view(), id@) {
                None => final(self).history_view() == old(self).history_view()
                    && final(self).running_view() == old(self).running_view(),
                Some(i) => {
                    let previous = old(self).history_view()[i];
                    &&& final(self).history_view() == old(self).history_view().update(
                        i,
                        JobRecord { job: previous.job, state, enqueued_at: previous.enqueued_at },
                    )
                    &&& final(self).running_view() == running_after(old(self).running_view(), previous.state, state)
                        || (final(self).running_view() == usize::MAX && running_after(old(self).running_view(), previous.state, state) > usize::MAX)
                },
            },
    {
        let target = to_chars(id);
        let mut i: usize = self.history.len();
        while i > 0
            invariant
                i <= self.history.len(),
                self.history@ == old(self).history@,
                self.running == old(self).running,
                old(self).history@.len() <= HISTORY,
                target@ == id@,
                forall|j: int| i <= j < self.history@.len() ==> (#[trigger] self.history@[j]).job.id@ != id@,
            decreases i,
        {
            let k = i - 1;
            if equals_str(&target, self.history[k].job.id.as_str()) {
                proof {
                    assert(self.history@[k as int].job.id@ == id@);
                    let c = choose|c: int| 0 <= c < self.history@.len() && (#[trigger] self.history@[c]).job.id@ == id@
                        && forall|j: int| c < j < self.history@.len() ==> (#[trigger] self.history@[j]).job.id@ != id@;
                    if c < k {
                        assert(self.history@[k as int].job.id@ != id@);
                    }
                    if c > k {
                        assert(self.history@[c].job.id@ != id@);
                    }
                }
                let previous = self.history.remove(k);
                let was_queued = matches!(previous.state, JobState::Queued);
                let was_running = matches!(previous.state, JobState::Running);
                let now_running = matches!(state, JobState::Running);
                if was_queued && now_running {
                    self.running = self.running.saturating_add(1);
                } else if was_running && !now_running {
                    self.running = self.running.saturating_sub(1);
                }
                let ghost before = old(self).history@;
                self.history.insert(k, JobRecord { job: previous.job, state, enqueued_at: previous.enqueued_at });
                assert(self.history@ =~= before.update(k as int, JobRecord { job: previous.job, state, enqueued_at: previous.enqueued_at }));
                return;
            }
            i = k;
        }
        proof {
            assert(!exists|j: int| 0 <= j < self.history@.len() && (#[trigger] self.history@[j]).job.id@ == id@);
        }
    }

    /// The kept records, oldest first.
    pub fn snapshot(&self) -> (r: &[JobRecord])
        ensures
            r@ == self.history_view(),
    {
        self.history.as_slice()
    }

    /// The number of jobs running.
    pub fn running(&self) -> (n: usize)
        ensures
            n == self.running_view(),
    {
        self.running
    }

    /// Whether no job is running, which is what a keeper waits for before shutting down.
    pub fn is_idle(&self) -> (b: bool)
        ensures
            b == (self.running_view() == 0),
    {
        self.running == 0
    }
}

/// The history never holds more than `HISTORY` records, however many are recorded, and a
/// new record is always kept as the newest.
pub proof fn lemma_history_bounded(history: Seq<JobRecord>, record: JobRecord)
    ensures
        bounded_push(history, record).len() <= HISTORY,
        bounded_push(history, record).last() == record,
{
    let all = history.push(record);
    if all.len() > HISTORY {
        assert(all.skip(all.len() - HISTORY).last() == all.last());
    }
}


/// The state of one session's queue: whether its turn is held, and its queue.
pub type GateView = (bool, Seq<Waiter>);

/// The session queue view filed under `session`.
pub open spec fn lookup(keys: Seq<Seq<char>>, views: Seq<GateView>, session: Seq<char>) -> Option<GateView> {
    if exists|i: int| 0 <= i < keys.len() && #[trigger] keys[i] == session {
        Some(views[choose|i: int| 0 <= i < keys.len() && #[trigger] keys[i] == session])
    } else {
        None
    }
}

pub open spec fn distinct_keys(keys: Seq<Seq<char>>) -> bool {
    forall|i: int, j: int| 0 <= i < keys.len() && 0 <= j < keys.len() && i != j ==> #[trigger] keys[i] != #[trigger] keys[j]
}

proof fn lemma_lookup_at(keys: Seq<Seq<char>>, views: Seq<GateView>, i: int)
    requires
        distinct_keys(keys),
        0 <= i < keys.len(),
    ensures
        lookup(keys, views, keys[i]) == Some(views[i]),
{
    let c = choose|c: int| 0 <= c < keys.len() && #[trigger] keys[c] == keys[i];
    assert(keys[c] == keys[i]);
}

proof fn lemma_lookup_update(keys: Seq<Seq<char>>, views: Seq<GateView>, i: int, v: GateView, t: Seq<char>)
    requires
        distinct_keys(keys),
        0 <= i < keys.len(),
        keys.len() == views.len(),
        t != keys[i],
    ensures
        lookup(keys, views.update(i, v), t) == lookup(keys, views, t),
        lookup(keys, views.update(i, v), keys[i]) == Some(v),
{
    lemma_lookup_at(keys, views.update(i, v), i);
    if exists|j: int| 0 <= j < keys.len() && #[trigger] keys[j] == t {
        let c = choose|j: int| 0 <= j < keys.len() && #[trigger] keys[j] == t;
        assert(c != i);
    }
}

proof fn lemma_lookup_push(keys: Seq<Seq<char>>, views: Seq<GateView>, k: Seq<char>, v: GateView, t: Seq<char>)
    requires
        distinct_keys(keys),
        keys.len() == views.len(),
        lookup(keys, views, k) is None,
    ensures
        distinct_keys(keys.push(k)),
        t != k ==> lookup(keys.push(k), views.push(v), t) == lookup(keys, views, t),
        lookup(keys.push(k), views.push(v), k) == Some(v),
{
    let keys2 = keys.push(k);
    let views2 = views.push(v);
    assert forall|i: int, j: int| 0 <= i < keys2.len() && 0 <= j < keys2.len() && i != j implies #[trigger] keys2[i] != #[trigger] keys2[j] by {
        if i < keys.len() && j < keys.len() {
            assert(keys2[i] == keys[i] && keys2[j] == keys[j]);
        } else if i < keys.len() {
            assert(keys2[i] == keys[i]);
            assert(keys[i] != k);
        } else {
            assert(keys2[j] == keys[j]);
            assert(keys[j] != k);
        }
    }
    lemma_lookup_at(keys2, views2, keys.len() as int);
    if t != k && exists|j: int| 0 <= j < keys2.len() && #[trigger] keys2[j] == t {
        let c = choose|j: int| 0 <= j < keys2.len() && #[trigger] keys2[j] == t;
        assert(c < keys.len());
        assert(keys[c] == t);
        lemma_lookup_at(keys, views, c);
        lemma_lookup_at(keys2, views2, c);
    } else if t != k {
        assert forall|j: int| 0 <= j < keys.len() implies #[trigger] keys[j] != t by {
            assert(keys2[j] == keys[j]);
        }
    }
}

/// Process-wide coordination state: the arrival counter in keeper-accept order, one session queue
/// per Studio session, and the job registry. Every UI request path meets here.
pub struct Coordinator {
    last_arrival: u64,
    sessions: Vec<String>,
    gates: Vec<SessionGate>,
    registry: Registry,
}

impl Coordinator {
    pub closed spec fn last_arrival_view(&self) -> u64 {
        self.last_arrival
    }

    pub closed spec fn keys(&self) -> Seq<Seq<char>> {
        Seq::new(self.sessions@.len(), |i: int| self.sessions@[i]@)
    }

    pub closed spec fn gate_views(&self) -> Seq<GateView> {
        Seq::new(self.gates@.len(), |i: int| (self.gates@[i].busy_view(), self.gates@[i].waiters_view()))
    }

    pub closed spec fn registry_view(&self) -> Registry {
        self.registry
    }

    /// The session queue of `session`, when one was made for it.
    pub open spec fn gate_for(&self, session: Seq<char>) -> Option<GateView> {
        lookup(self.keys(), self.gate_views(), session)
    }

    pub open spec fn wf(&self) -> bool {
        &&& self.keys().len() == self.gate_views().len()
        &&& distinct_keys(self.keys())
        &&& forall|i: int| 0 <= i < self.gate_views().len() ==> arrivals_increasing(#[trigger] self.gate_views()[i].1)
        &&& forall|i: int, k: int| 0 <= i < self.gate_views().len() && 0 <= k < self.gate_views()[i].1.len()
            ==> #[trigger] self.gate_views()[i].1[k].arrival <= self.last_arrival_view()
        &&& self.registry_view().wf()
    }

    /// No session queue, no arrival and no job yet.
    pub fn new() -> (c: Self)
        ensures
            c.wf(),
            c.last_arrival_view() == 0,
            forall|s: Seq<char>| c.gate_for(s) is None,
            c.registry_view().history_view().len() == 0,
            c.registry_view().running_view() == 0,
    {
        let c = Coordinator { last_arrival: 0, sessions: Vec::new(), gates: Vec::new(), registry: Registry::new() };
        assert(c.keys().len() == 0);
        c
    }

    fn find(&self, session: &str) -> (r: Option<usize>)
        requires
            self.wf(),
        ensures
            match r {
                Some(i) => i < self.keys().len() && self.keys()[i as int] == session@
                    && self.gate_for(session@) == Some(self.gate_views()[i as int]),
                None => self.gate_for(session@) is None,
            },
    {
        let target = to_chars(session);
        let mut i: usize = 0;
        while i < self.sessions.len()
            invariant
                i <= self.sessions.len(),
                target@ == session@,
                self.wf(),
                forall|j: int| 0 <= j < i ==> self.keys()[j] != session@,
            decreases self.sessions.len() - i,
        {
            if equals_str(&target, self.sessions[i].as_str()) {
                proof {
                    assert(self.keys()[i as int] == session@);
                    lemma_lookup_at(self.keys(), self.gate_views(), i as int);
                }
                return Some(i);
            }
            proof {
                assert(self.keys()[i as int] == self.sessions@[i as int]@);
            }
            i = i + 1;
        }
        None
    }

    /// Reserves the next arrival for `session_id` in keeper-accept order, making the
    /// session's queue when it has none. `None` once the arrival counter is exhausted.
    pub fn reserve(&mut self, session_id: &str) -> (r: Option<u64>)
        requires
            old(self).wf(),
        ensures
            final(self).wf(),
            final(self).registry_view() == old(self).registry_view(),
            old(self).last_arrival_view() == u64::MAX ==> r is None && final(self).last_arrival_view() == old(self).last_arrival_view()
                && forall|t: Seq<char>| #[trigger] final(self).gate_for(t) == old(self).gate_for(t),
            old(self).last_arrival_view() < u64::MAX ==> {
                let arrival = (old(self).last_arrival_view() + 1) as u64;
                &&& r == Some(arrival)
                &&& final(self).last_arrival_view() == arrival
                &&& final(self).gate_for(session_id@) == Some(reserve_view(old(self).gate_for(session_id@), arrival))
                &&& forall|t: Seq<char>| t != session_id@ ==> #[trigger] final(self).gate_for(t) == old(self).gate_for(t)
            },
    {
        if self.last_arrival == u64::MAX {
            return None;
        }
        let arrival = self.last_arrival + 1;
        let ghost old_keys = self.keys();
        let ghost old_views = self.gate_views();
        match self.find(session_id) {
            Some(i) => {
                let mut g = self.gates.remove(i);
                assert(old_views[i as int] == (g.busy_view(), g.waiters_view()));
                assert(arrivals_increasing(old_views[i as int].1));
                assert(g.wf());
                assert forall|k: int| 0 <= k < g.waiters_view().len() implies #[trigger] g.waiters_view()[k].arrival < arrival by {
                    assert(old_views[i as int].1[k].arrival <= old(self).last_arrival);
                }
                g.reserve(arrival);
                self.gates.insert(i, g);
                self.last_arrival = arrival;
                proof {
                    assert(self.keys() =~= old_keys);
                    assert(self.gate_views() =~= old_views.update(i as int, (g.busy_view(), g.waiters_view())));
                    lemma_lookup_at(old_keys, old_views.update(i as int, (g.busy_view(), g.waiters_view())), i as int);
                    assert forall|t: Seq<char>| t != session_id@ implies #[trigger] self.gate_for(t) == old(self).gate_for(t) by {
                        lemma_lookup_update(old_keys, old_views, i as int, (g.busy_view(), g.waiters_view()), t);
                    }
                    assert forall|j: int, k: int| 0 <= j < self.gate_views().len() && 0 <= k < self.gate_views()[j].1.len()
                        implies #[trigger] self.gate_views()[j].1[k].arrival <= self.last_arrival_view() by {
                        if j != i {
                            assert(self.gate_views()[j] == old_views[j]);
                        }
                    }
                }
            },
            None => {
                let mut g = SessionGate::new();
                g.reserve(arrival);
                self.sessions.push(string_of(session_id));
                self.gates.push(g);
                self.last_arrival = arrival;
                proof {
                    assert(self.keys() =~= old_keys.push(session_id@));
                    assert(self.gate_views() =~= old_views.push((g.busy_view(), g.waiters_view())));
                    lemma_lookup_push(old_keys, old_views, session_id@, (g.busy_view(), g.waiters_view()), seq![]);
                    assert forall|t: Seq<char>| t != session_id@ implies #[trigger] self.gate_for(t) == old(self).gate_for(t) by {
                        lemma_lookup_push(old_keys, old_views, session_id@, (g.busy_view(), g.waiters_view()), t);
                    }
                    assert(g.waiters_view() =~= seq![Waiter { arrival, filled: false }]);
                    assert forall|j: int, k: int| 0 <= j < self.gate_views().len() && 0 <= k < self.gate_views()[j].1.len()
                        implies #[trigger] self.gate_views()[j].1[k].arrival <= self.last_arrival_view() by {
                        if j < old_views.len() {
                            assert(self.gate_views()[j] == old_views[j]);
                        }
                    }
                }
            },
        }
        Some(arrival)
    }
}

/// The session queue of a session after `arrival` was reserved for it: its queue, or a new idle one,
/// with the reservation queued last.
pub open spec fn reserve_view(g: Option<GateView>, arrival: u64) -> GateView {
    match g {
        Some(v) => (v.0, v.1.push(Waiter { arrival, filled: false })),
        None => (false, seq![Waiter { arrival, filled: false }]),
    }
}


/// What the session queue does after a change: admit the oldest arrival when it is idle and that
/// arrival is filled.
pub open spec fn pump_view(g: GateView) -> (GateView, Option<u64>) {
    if grants(g.0, g.1) {
        ((true, g.1.drop_first()), Some(g.1[0].arrival))
    } else {
        (g, None)
    }
}

/// A change to one session's queue.
#[derive(Debug, Clone, Copy, PartialEq, Eq, Structural)]
pub enum GateOp {
    /// The reserved arrival's request became a job.
    Fill(u64),
    /// The arrival left the queue: its reservation was dropped, or its caller gave up.
    Remove(u64),
    /// The held turn ended.
    Complete,
}

pub open spec fn queued(w: Seq<Waiter>, arrival: u64) -> bool {
    exists|k: int| 0 <= k < w.len() && (#[trigger] w[k]).arrival == arrival
}

/// The session queue after `op`, the arrival admitted by it, and whether `op` applied (a fill of an
/// arrival that is not queued does not).
pub open spec fn op_view(g: GateView, op: GateOp) -> (GateView, Option<u64>, bool) {
    match op {
        GateOp::Fill(a) => if queued(g.1, a) {
            let p = pump_view((g.0, fill_spec(g.1, a)));
            (p.0, p.1, true)
        } else {
            (g, None, false)
        },
        GateOp::Remove(a) => {
            let p = pump_view((g.0, remove_spec(g.1, a)));
            (p.0, p.1, true)
        },
        GateOp::Complete => {
            let p = pump_view((false, g.1));
            (p.0, p.1, true)
        },
    }
}

impl Coordinator {
    fn gate_op(&mut self, i: usize, op: GateOp) -> (r: (bool, Option<u64>))
        requires
            old(self).wf(),
            i < old(self).keys().len(),
        ensures
            final(self).wf(),
            final(self).last_arrival_view() == old(self).last_arrival_view(),
            final(self).registry_view() == old(self).registry_view(),
            final(self).keys() == old(self).keys(),
            ({
                let v = op_view(old(self).gate_views()[i as int], op);
                &&& r == (v.2, v.1)
                &&& final(self).gate_views() == old(self).gate_views().update(i as int, v.0)
            }),
    {
        let ghost old_views = self.gate_views();
        let mut g = self.gates.remove(i);
        assert(old_views[i as int] == (g.busy_view(), g.waiters_view()));
        assert(arrivals_increasing(old_views[i as int].1));
        let ghost before = g.waiters_view();
        let r = match op {
            GateOp::Fill(a) => g.fill(a),
            GateOp::Remove(a) => {
                proof {
                    lemma_remove_only_that_arrival(before, a);
                }
                (true, g.remove(a))
            },
            GateOp::Complete => (true, g.turn_completed()),
        };
        proof {
            assert forall|k: int| 0 <= k < g.waiters_view().len() implies #[trigger] g.waiters_view()[k].arrival <= self.last_arrival by {
                match op {
                    GateOp::Fill(a) => {
                        if r.0 {
                            let f = fill_spec(before, a);
                            if grants(old_views[i as int].0, f) {
                                assert(g.waiters_view()[k] == f[k + 1]);
                                assert(old_views[i as int].1[k + 1].arrival <= self.last_arrival);
                            } else {
                                assert(old_views[i as int].1[k].arrival <= self.last_arrival);
                            }
                        } else {
                            assert(old_views[i as int].1[k].arrival <= self.last_arrival);
                        }
                    },
                    GateOp::Remove(a) => {
                        let rest = remove_spec(before, a);
                        let e = if grants(old_views[i as int].0, rest) { rest[k + 1] } else { rest[k] };
                        assert(g.waiters_view()[k] == e);
                        assert(before.contains(e));
                        let m = choose|m: int| 0 <= m < before.len() && before[m] == e;
                        assert(old_views[i as int].1[m].arrival <= self.last_arrival);
                    },
                    GateOp::Complete => {
                        if grants(false, before) {
                            assert(g.waiters_view()[k] == before[k + 1]);
                            assert(old_views[i as int].1[k + 1].arrival <= self.last_arrival);
                        } else {
                            assert(old_views[i as int].1[k].arrival <= self.last_arrival);
                        }
                    },
                }
            }
        }
        self.gates.insert(i, g);
        proof {
            assert(self.gate_views() =~= old_views.update(i as int, (g.busy_view(), g.waiters_view())));
            assert(self.keys() =~= old(self).keys());
            assert forall|j: int, k: int| 0 <= j < self.gate_views().len() && 0 <= k < self.gate_views()[j].1.len()
                implies #[trigger] self.gate_views()[j].1[k].arrival <= self.last_arrival_view() by {
                if j != i {
                    assert(self.gate_views()[j] == old_views[j]);
                }
            }
            assert forall|j: int| 0 <= j < self.gate_views().len() implies arrivals_increasing(#[trigger] self.gate_views()[j].1) by {
                if j != i {
                    assert(self.gate_views()[j] == old_views[j]);
                }
            }
        }
        r
    }

    proof fn lemma_gate_op_frame(&self, next: &Self, i: int, v: GateView, session: Seq<char>)
        requires
            self.wf(),
            0 <= i < self.keys().len(),
            self.keys()[i] == session,
            next.keys() == self.keys(),
            next.gate_views() == self.gate_views().update(i, v),
        ensures
            next.gate_for(session) == Some(v),
            forall|t: Seq<char>| t != session ==> #[trigger] next.gate_for(t) == self.gate_for(t),
    {
        lemma_lookup_at(self.keys(), self.gate_views().update(i, v), i);
        assert forall|t: Seq<char>| t != session implies #[trigger] next.gate_for(t) == self.gate_for(t) by {
            lemma_lookup_update(self.keys(), self.gate_views(), i, v, t);
        }
    }

    /// Turns the reservation into a queued job: the reservation must be the job's own
    /// (`ui-invalid-request` otherwise) and still queued (`ui-session-unavailable`
    /// otherwise). Returns the arrival the session's queue admits next, if any.
    pub fn enqueue(
        &mut self,
        reserved_session: &str,
        reserved_arrival: u64,
        job: Job,
        enqueued_at: i64,
    ) -> (r: Result<Option<u64>, BackendError>)
        requires
            old(self).wf(),
        ensures
            final(self).wf(),
            final(self).last_arrival_view() == old(self).last_arrival_view(),
            !(reserved_session@ == job.session_id@ && reserved_arrival == job.arrival) ==> {
                &&& r matches Err(e) && e.message@ == "ui-invalid-request"@
                &&& final(self).registry_view() == old(self).registry_view()
                &&& forall|t: Seq<char>| #[trigger] final(self).gate_for(t) == old(self).gate_for(t)
            },
            (reserved_session@ == job.session_id@ && reserved_arrival == job.arrival) ==> match old(self).gate_for(job.session_id@) {
                Some(g) if queued(g.1, job.arrival) => {
                    let v = op_view(g, GateOp::Fill(job.arrival));
                    &&& r == Ok::<Option<u64>, BackendError>(v.1)
                    &&& final(self).gate_for(job.session_id@) == Some(v.0)
                    &&& forall|t: Seq<char>| t != job.session_id@ ==> #[trigger] final(self).gate_for(t) == old(self).gate_for(t)
                    &&& final(self).registry_view().history_view() == bounded_push(
                        old(self).registry_view().history_view(),
                        JobRecord { job, state: JobState::Queued, enqueued_at },
                    )
                    &&& final(self).registry_view().running_view() == old(self).registry_view().running_view()
                },
                _ => {
                    &&& r matches Err(e) && e.message@ == "ui-session-unavailable"@
                    &&& final(self).registry_view() == old(self).registry_view()
                    &&& forall|t: Seq<char>| #[trigger] final(self).gate_for(t) == old(self).gate_for(t)
                },
            },
    {
        let operation = job.operation;
        let reserved = to_chars(reserved_session);
        if !equals_str(&reserved, job.session_id.as_str()) || reserved_arrival != job.arrival {
            return Err(error(operation, "ui-invalid-request"));
        }
        let i = match self.find(job.session_id.as_str()) {
            Some(i) => i,
            None => {
                return Err(error(operation, "ui-session-unavailable"));
            },
        };
        let ghost before = *self;
        let (found, granted) = self.gate_op(i, GateOp::Fill(job.arrival));
        if !found {
            proof {
                assert(self.gate_views() =~= before.gate_views());
            }
            return Err(error(operation, "ui-session-unavailable"));
        }
        proof {
            before.lemma_gate_op_frame(self, i as int, op_view(before.gate_views()[i as int], GateOp::Fill(job.arrival)).0, job.session_id@);
        }
        self.registry.record(job, JobState::Queued, enqueued_at);
        Ok(granted)
    }

    /// Takes `arrival` out of the session's queue, as when its reservation is dropped or
    /// its caller gives up waiting. Returns the arrival the session queue admits next, if any.
    pub fn remove_queued(&mut self, session_id: &str, arrival: u64) -> (granted: Option<u64>)
        requires
            old(self).wf(),
        ensures
            final(self).wf(),
            final(self).last_arrival_view() == old(self).last_arrival_view(),
            final(self).registry_view() == old(self).registry_view(),
            match old(self).gate_for(session_id@) {
                Some(g) => {
                    let v = op_view(g, GateOp::Remove(arrival));
                    &&& granted == v.1
                    &&& final(self).gate_for(session_id@) == Some(v.0)
                    &&& forall|t: Seq<char>| t != session_id@ ==> #[trigger] final(self).gate_for(t) == old(self).gate_for(t)
                },
                None => granted is None && forall|t: Seq<char>| #[trigger] final(self).gate_for(t) == old(self).gate_for(t),
            },
    {
        match self.find(session_id) {
            Some(i) => {
                let ghost before = *self;
                let (_, granted) = self.gate_op(i, GateOp::Remove(arrival));
                proof {
                    before.lemma_gate_op_frame(self, i as int, op_view(before.gate_views()[i as int], GateOp::Remove(arrival)).0, session_id@);
                }
                granted
            },
            None => None,
        }
    }

    /// Ends the session's held turn. Returns the arrival the session queue admits next, if any.
    pub fn turn_completed(&mut self, session_id: &str) -> (granted: Option<u64>)
        requires
            old(self).wf(),
        ensures
            final(self).wf(),
            final(self).last_arrival_view() == old(self).last_arrival_view(),
            final(self).registry_view() == old(self).registry_view(),
            match old(self).gate_for(session_id@) {
                Some(g) => {
                    let v = op_view(g, GateOp::Complete);
                    &&& granted == v.1
                    &&& final(self).gate_for(session_id@) == Some(v.0)
                    &&& forall|t: Seq<char>| t != session_id@ ==> #[trigger] final(self).gate_for(t) == old(self).gate_for(t)
                },
                None => granted is None && forall|t: Seq<char>| #[trigger] final(self).gate_for(t) == old(self).gate_for(t),
            },
    {
        match self.find(session_id) {
            Some(i) => {
                let ghost before = *self;
                let (_, granted) = self.gate_op(i, GateOp::Complete);
                proof {
                    before.lemma_gate_op_frame(self, i as int, op_view(before.gate_views()[i as int], GateOp::Complete).0, session_id@);
                }
                granted
            },
            None => None,
        }
    }

    /// Records a new state for job `id` in the registry.
    pub fn record_state(&mut self, id: &str, state: JobState)
        requires
            old(self).wf(),
        ensures
            final(self).wf(),
            final(self).last_arrival_view() == old(self).last_arrival_view(),
            forall|t: Seq<char>| #[trigger] final(self).gate_for(t) == old(self).gate_for(t),
            ({
                let before = old(self).registry_view();
                let after = final(self).registry_view();
                match last_record_of(before.history_view(), id@) {
                    None => after.history_view() == before.history_view() && after.running_view() == before.running_view(),
                    Some(i) => after.history_view() == before.history_view().update(
                        i,
                        JobRecord { job: before.history_view()[i].job, state, enqueued_at: before.history_view()[i].enqueued_at },
                    ),
                }
            }),
    {
        self.registry.record_state(id, state);
        proof {
            assert(self.keys() =~= old(self).keys());
            assert(self.gate_views() =~= old(self).gate_views());
        }
    }

    /// The kept job records, oldest first.
    pub fn snapshot(&self) -> (r: &[JobRecord])
        ensures
            r@ == self.registry_view().history_view(),
    {
        self.registry.snapshot()
    }

    /// Whether no job is running.
    pub fn is_idle(&self) -> (b: bool)
        ensures
            b == (self.registry_view().running_view() == 0),
    {
        self.registry.is_idle()
    }
}

} // verus!
