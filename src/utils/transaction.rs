use vstd::prelude::*;

verus! {

/// How long a transaction waits for its participants before it completes anyway, in
/// nanoseconds (300 ms).
pub const TIME_LIMIT: u64 = 300_000_000;

/// What a commit blocker reports to the compositor.
#[derive(Debug, Clone, Copy, PartialEq, Eq, Structural)]
pub enum BlockerState {
    /// The commit waits.
    Pending,
    /// The commit may go through.
    Released,
}

/// The events that act on a transaction.
pub enum TransactionEvent {
    CloneHandle,
    DropHandle,
    AddNotification(u64),
    RegisterDeadline,
    Deadline(u64),
    Complete,
}

/// What an event does to whether a transaction has completed.
pub open spec fn completed_after(t: Transaction, e: TransactionEvent) -> bool {
    match e {
        TransactionEvent::DropHandle => t.completed_spec() || t.holders_spec() == 1,
        TransactionEvent::Deadline(now) => t.completed_spec() || now >= t.deadline_spec(),
        TransactionEvent::Complete => true,
        _ => t.completed_spec(),
    }
}

/// A barrier that releases the next commits of several windows at once.
///
/// The event loop owns the state of each transaction; every participant holds a handle to it,
/// counted in `holders`. The transaction completes when the last handle is dropped or when its
/// deadline passes, whichever comes first, and completion is final.
#[derive(Debug)]
pub struct Transaction {
    completed: bool,
    holders: u64,
    deadline: u64,
    deadline_registered: bool,
    notifications: Vec<u64>,
}

impl Transaction {
    pub closed spec fn completed_spec(self) -> bool {
        self.completed
    }

    /// How many handles to this transaction are alive.
    pub closed spec fn holders_spec(self) -> u64 {
        self.holders
    }

    /// The time (nanoseconds) at which the transaction completes on its own.
    pub closed spec fn deadline_spec(self) -> u64 {
        self.deadline
    }

    pub closed spec fn deadline_registered_spec(self) -> bool {
        self.deadline_registered
    }

    /// The clients to tell when the transaction completes.
    pub closed spec fn waiting(self) -> Seq<u64> {
        self.notifications@
    }

    /// A completed transaction keeps nobody waiting.
    pub open spec fn wf(self) -> bool {
        self.completed_spec() ==> self.waiting().len() == 0
    }

    /// The state that a blocker of this transaction reports.
    pub open spec fn blocker_state_spec(self) -> BlockerState {
        if self.completed_spec() { BlockerState::Released } else { BlockerState::Pending }
    }

    /// A pending transaction with one handle, created at time `now` (nanoseconds); its
    /// deadline is `TIME_LIMIT` later, saturating.
    pub fn new(now: u64) -> (r: Self)
        ensures
            r.wf(),
            !r.completed_spec(),
            r.holders_spec() == 1,
            r.deadline_spec() == (if now as int + TIME_LIMIT as int > u64::MAX as int {
                u64::MAX
            } else {
                (now + TIME_LIMIT) as u64
            }),
            !r.deadline_registered_spec(),
            r.waiting() == Seq::<u64>::empty(),
    {
        Transaction {
            completed: false,
            holders: 1,
            deadline: now.saturating_add(TIME_LIMIT),
            deadline_registered: false,
            notifications: Vec::new(),
        }
    }

    /// Takes one more handle, for another participant.
    pub fn clone_handle(&mut self)
        requires
            old(self).holders_spec() < u64::MAX,
        ensures
            final(self).holders_spec() == old(self).holders_spec() + 1,
            final(self).completed_spec() == old(self).completed_spec(),
            final(self).deadline_spec() == old(self).deadline_spec(),
            final(self).deadline_registered_spec() == old(self).deadline_registered_spec(),
            final(self).waiting() == old(self).waiting(),
            final(self).completed_spec() == completed_after(*old(self), TransactionEvent::CloneHandle),
    {
        self.holders = self.holders + 1;
    }

    /// Whether completion has happened.
    pub fn is_completed(&self) -> (r: bool)
        ensures
            r == self.completed_spec(),
    {
        self.completed
    }

    /// Whether exactly one handle is alive.
    pub fn is_last(&self) -> (r: bool)
        ensures
            r == (self.holders_spec() == 1),
    {
        self.holders == 1
    }

    /// What a blocker of this transaction reports: released exactly once it has completed.
    pub fn blocker_state(&self) -> (r: BlockerState)
        ensures
            r == self.blocker_state_spec(),
    {
        if self.completed {
            BlockerState::Released
        } else {
            BlockerState::Pending
        }
    }

    /// Asks for `client` to be told when the transaction completes. A completed transaction
    /// has nobody left to tell, so the request is ignored there.
    pub fn add_notification(&mut self, client: u64)
        requires
            old(self).wf(),
        ensures
            final(self).wf(),
            final(self).waiting() == (if old(self).completed_spec() {
                old(self).waiting()
            } else {
                old(self).waiting().push(client)
            }),
            final(self).completed_spec() == old(self).completed_spec(),
            final(self).holders_spec() == old(self).holders_spec(),
            final(self).deadline_spec() == old(self).deadline_spec(),
            final(self).deadline_registered_spec() == old(self).deadline_registered_spec(),
            final(self).completed_spec() == completed_after(
                *old(self),
                TransactionEvent::AddNotification(client),
            ),
    {
        if self.completed {
            return;
        }
        self.notifications.push(client);
    }

    /// Completes the transaction and returns the clients to tell, in the order they were
    /// added; on a completed transaction it does nothing and returns none.
    pub fn complete(&mut self) -> (r: Vec<u64>)
        requires
            old(self).wf(),
        ensures
            final(self).wf(),
            final(self).completed_spec(),
            r@ == old(self).waiting(),
            final(self).waiting() == Seq::<u64>::empty(),
            final(self).holders_spec() == old(self).holders_spec(),
            final(self).deadline_spec() == old(self).deadline_spec(),
            final(self).deadline_registered_spec() == old(self).deadline_registered_spec(),
            final(self).completed_spec() == completed_after(*old(self), TransactionEvent::Complete),
    {
        self.completed = true;
        let mut taken = Vec::new();
        std::mem::swap(&mut taken, &mut self.notifications);
        taken
    }

    /// Drops one handle. Dropping the last one completes the transaction; the clients to
    /// tell are returned.
    pub fn drop_handle(&mut self) -> (r: Vec<u64>)
        requires
            old(self).wf(),
            old(self).holders_spec() >= 1,
        ensures
            final(self).wf(),
            final(self).holders_spec() == old(self).holders_spec() - 1,
            final(self).completed_spec() == (old(self).completed_spec()
                || old(self).holders_spec() == 1),
            old(self).holders_spec() == 1 ==> r@ == old(self).waiting()
                && final(self).waiting() == Seq::<u64>::empty(),
            old(self).holders_spec() != 1 ==> r@ == Seq::<u64>::empty()
                && final(self).waiting() == old(self).waiting(),
            final(self).deadline_spec() == old(self).deadline_spec(),
            final(self).deadline_registered_spec() == old(self).deadline_registered_spec(),
            final(self).completed_spec() == completed_after(*old(self), TransactionEvent::DropHandle),
    {
        let last = self.holders == 1;
        self.holders = self.holders - 1;
        if last {
            self.complete()
        } else {
            Vec::new()
        }
    }

    /// Arms the deadline: the first call returns the time at which the event loop should call
    /// `on_deadline`; later calls return `None`, the timer being armed already.
    pub fn register_deadline_timer(&mut self) -> (r: Option<u64>)
        ensures
            final(self).deadline_registered_spec(),
            r == (if old(self).deadline_registered_spec() {
                None
            } else {
                Some(old(self).deadline_spec())
            }),
            final(self).completed_spec() == old(self).completed_spec(),
            final(self).holders_spec() == old(self).holders_spec(),
            final(self).deadline_spec() == old(self).deadline_spec(),
            final(self).waiting() == old(self).waiting(),
            final(self).completed_spec() == completed_after(
                *old(self),
                TransactionEvent::RegisterDeadline,
            ),
    {
        if self.deadline_registered {
            None
        } else {
            self.deadline_registered = true;
            Some(self.deadline)
        }
    }

    /// The deadline timer fired at time `now`: once the deadline has passed, the transaction
    /// completes whatever its participants did, and the clients to tell are returned.
    pub fn on_deadline(&mut self, now: u64) -> (r: Vec<u64>)
        requires
            old(self).wf(),
        ensures
            final(self).wf(),
            final(self).completed_spec() == (old(self).completed_spec()
                || now >= old(self).deadline_spec()),
            now >= old(self).deadline_spec() ==> r@ == old(self).waiting(),
            now < old(self).deadline_spec() ==> r@ == Seq::<u64>::empty()
                && final(self).waiting() == old(self).waiting(),
            final(self).holders_spec() == old(self).holders_spec(),
            final(self).deadline_spec() == old(self).deadline_spec(),
            final(self).deadline_registered_spec() == old(self).deadline_registered_spec(),
            final(self).completed_spec() == completed_after(*old(self), TransactionEvent::Deadline(now)),
    {
        if now >= self.deadline {
            self.complete()
        } else {
            Vec::new()
        }
    }
}

/// Completion is final: no event takes it back, so a blocker that has reported `Released`
/// reports it from then on; and completing again changes nothing and tells nobody twice.
pub proof fn lemma_completion_is_final(t: Transaction, e: TransactionEvent)
    requires
        t.wf(),
        t.completed_spec(),
    ensures
        completed_after(t, e),
        t.blocker_state_spec() == BlockerState::Released,
        t.waiting().len() == 0,
{
}

} // verus!
