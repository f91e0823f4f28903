use vstd::prelude::*;

verus! {

/// Where one callback track of a transaction stands.
#[derive(Clone, Copy, Debug, PartialEq, Eq, Structural)]
pub enum CallbackState {
    Unset,
    Registered,
    Fired,
}

/// The two moments at which the compositor reports on a submitted transaction.
#[derive(Clone, Copy, Debug, PartialEq, Eq, Structural)]
pub enum Phase {
    /// Applied, and ready to be presented.
    Commit,
    /// Presented; replaced buffers may be reused.
    Complete,
}

/// Why a registration or a compositor event was refused.
#[derive(Clone, Copy, Debug, PartialEq, Eq, Structural)]
pub enum CallbackError {
    /// Callbacks are attached before submission, not after.
    AlreadySubmitted,
    /// The compositor reported on a transaction that was never submitted.
    NotSubmitted,
    /// The compositor reported a phase that was already reported.
    AlreadyFired,
    /// Completion was reported while the commit callback had not fired yet.
    CommitPending,
    /// The platform version lacks this callback.
    Unsupported,
}

/// The on-commit and on-complete tracks of one transaction, and whether it was submitted.
#[derive(Clone, Copy, Debug, PartialEq, Eq, Structural)]
pub struct CallbackRegistry {
    pub on_commit: CallbackState,
    pub on_complete: CallbackState,
    pub submitted: bool,
}

pub open spec fn fresh_registry() -> CallbackRegistry {
    CallbackRegistry {
        on_commit: CallbackState::Unset,
        on_complete: CallbackState::Unset,
        submitted: false,
    }
}

/// Attaching a callback for `phase`: allowed only before submission; a second
/// registration replaces the first.
pub open spec fn register_spec(s: CallbackRegistry, phase: Phase) -> (CallbackRegistry, Result<
    (),
    CallbackError,
>) {
    if s.submitted {
        (s, Err(CallbackError::AlreadySubmitted))
    } else {
        match phase {
            Phase::Commit => (CallbackRegistry { on_commit: CallbackState::Registered, ..s }, Ok(())),
            Phase::Complete => (
                CallbackRegistry { on_complete: CallbackState::Registered, ..s },
                Ok(()),
            ),
        }
    }
}

/// Submitting: allowed once.
pub open spec fn submit_spec(s: CallbackRegistry) -> (CallbackRegistry, Result<(), CallbackError>) {
    if s.submitted {
        (s, Err(CallbackError::AlreadySubmitted))
    } else {
        (CallbackRegistry { submitted: true, ..s }, Ok(()))
    }
}

/// The compositor reports `phase`. `Ok(true)`: the registered callback is to be invoked now,
/// and never again. `Ok(false)`: none was registered for this phase.
pub open spec fn fire_spec(s: CallbackRegistry, phase: Phase) -> (CallbackRegistry, Result<
    bool,
    CallbackError,
>) {
    if !s.submitted {
        (s, Err(CallbackError::NotSubmitted))
    } else {
        match phase {
            Phase::Commit => match s.on_commit {
                CallbackState::Unset => (s, Ok(false)),
                CallbackState::Registered => (
                    CallbackRegistry { on_commit: CallbackState::Fired, ..s },
                    Ok(true),
                ),
                CallbackState::Fired => (s, Err(CallbackError::AlreadyFired)),
            },
            Phase::Complete => if s.on_commit == CallbackState::Registered {
                (s, Err(CallbackError::CommitPending))
            } else {
                match s.on_complete {
                    CallbackState::Unset => (s, Ok(false)),
                    CallbackState::Registered => (
                        CallbackRegistry { on_complete: CallbackState::Fired, ..s },
                        Ok(true),
                    ),
                    CallbackState::Fired => (s, Err(CallbackError::AlreadyFired)),
                }
            },
        }
    }
}

impl CallbackRegistry {
    pub fn new() -> (r: CallbackRegistry)
        ensures
            r == fresh_registry(),
    {
        CallbackRegistry {
            on_commit: CallbackState::Unset,
            on_complete: CallbackState::Unset,
            submitted: false,
        }
    }

    pub fn register(&mut self, phase: Phase) -> (r: Result<(), CallbackError>)
        ensures
            (*final(self), r) == register_spec(*old(self), phase),
    {
        if self.submitted {
            return Err(CallbackError::AlreadySubmitted);
        }
        match phase {
            Phase::Commit => self.on_commit = CallbackState::Registered,
            Phase::Complete => self.on_complete = CallbackState::Registered,
        }
        Ok(())
    }

    pub fn submit(&mut self) -> (r: Result<(), CallbackError>)
        ensures
            (*final(self), r) == submit_spec(*old(self)),
    {
        if self.submitted {
            return Err(CallbackError::AlreadySubmitted);
        }
        self.submitted = true;
        Ok(())
    }

    pub fn fire(&mut self, phase: Phase) -> (r: Result<bool, CallbackError>)
        ensures
            (*final(self), r) == fire_spec(*old(self), phase),
    {
        if !self.submitted {
            return Err(CallbackError::NotSubmitted);
        }
        match phase {
            Phase::Commit => match self.on_commit {
                CallbackState::Unset => Ok(false),
                CallbackState::Registered => {
                    self.on_commit = CallbackState::Fired;
                    Ok(true)
                },
                CallbackState::Fired => Err(CallbackError::AlreadyFired),
            },
            Phase::Complete => {
                if self.on_commit == CallbackState::Registered {
                    return Err(CallbackError::CommitPending);
                }
                match self.on_complete {
                    CallbackState::Unset => Ok(false),
                    CallbackState::Registered => {
                        self.on_complete = CallbackState::Fired;
                        Ok(true)
                    },
                    CallbackState::Fired => Err(CallbackError::AlreadyFired),
                }
            },
        }
    }
}

/// The registry after registering per the two flags, from a fresh one.
pub open spec fn registered(commit: bool, complete: bool) -> CallbackRegistry {
    let s0 = fresh_registry();
    let s1 = if commit {
        register_spec(s0, Phase::Commit).0
    } else {
        s0
    };
    if complete {
        register_spec(s1, Phase::Complete).0
    } else {
        s1
    }
}

/// Runs the compositor's reports in order, collecting which of them invoked a callback.
pub open spec fn run_events(s: CallbackRegistry, events: Seq<Phase>) -> (CallbackRegistry, Seq<
    Phase,
>)
    decreases events.len(),
{
    if events.len() == 0 {
        (s, Seq::empty())
    } else {
        let prev = run_events(s, events.drop_last());
        let step = fire_spec(prev.0, events.last());
        (step.0, if step.1 == Ok::<bool, CallbackError>(true) {
            prev.1.push(events.last())
        } else {
            prev.1
        })
    }
}

pub open spec fn count_phase(inv: Seq<Phase>, p: Phase) -> nat
    decreases inv.len(),
{
    if inv.len() == 0 {
        0
    } else {
        count_phase(inv.drop_last(), p) + if inv.last() == p {
            1nat
        } else {
            0nat
        }
    }
}

/// What holds after any run of reports from a submitted registry: each track fired at
/// most once; a track that fired invoked exactly once; a complete invocation came after a
/// commit invocation whenever the commit track was registered.
pub open spec fn run_invariant(start: CallbackRegistry, s: CallbackRegistry, inv: Seq<Phase>) -> bool {
    &&& s.submitted
    &&& count_phase(inv, Phase::Commit) == if s.on_commit == CallbackState::Fired { 1nat } else { 0nat }
    &&& count_phase(inv, Phase::Complete) == if s.on_complete == CallbackState::Fired { 1nat } else { 0nat }
    &&& start.on_commit == CallbackState::Unset ==> s.on_commit == CallbackState::Unset
    &&& start.on_commit != CallbackState::Unset ==> s.on_commit != CallbackState::Unset
    &&& start.on_complete == CallbackState::Unset ==> s.on_complete == CallbackState::Unset
    &&& start.on_complete != CallbackState::Unset ==> s.on_complete != CallbackState::Unset
    &&& s.on_commit == CallbackState::Registered ==> s.on_complete != CallbackState::Fired
    &&& forall|i: int| 0 <= i < inv.len() && inv[i] == Phase::Complete && start.on_commit
        == CallbackState::Registered ==> exists|j: int| 0 <= j < i && inv[j] == Phase::Commit
}

proof fn lemma_run_invariant(commit: bool, complete: bool, events: Seq<Phase>)
    ensures
        run_invariant(
            registered(commit, complete),
            run_events(submit_spec(registered(commit, complete)).0, events).0,
            run_events(submit_spec(registered(commit, complete)).0, events).1,
        ),
    decreases events.len(),
{
    let start = registered(commit, complete);
    let s0 = submit_spec(start).0;
    if events.len() > 0 {
        lemma_run_invariant(commit, complete, events.drop_last());
        let prev = run_events(s0, events.drop_last());
        let cur = run_events(s0, events);
        let step = fire_spec(prev.0, events.last());
        assert(cur.1.drop_last() == prev.1 || cur.1 == prev.1);
        if step.1 == Ok::<bool, CallbackError>(true) {
            assert(cur.1.drop_last() == prev.1);
            if events.last() == Phase::Complete && start.on_commit == CallbackState::Registered {
                assert(prev.0.on_commit == CallbackState::Fired);
                assert(count_phase(prev.1, Phase::Commit) == 1);
                lemma_count_witness(prev.1, Phase::Commit);
            }
            assert forall|i: int|
                0 <= i < cur.1.len() && cur.1[i] == Phase::Complete && start.on_commit
                    == CallbackState::Registered implies exists|j: int|
                0 <= j < i && cur.1[j] == Phase::Commit by {
                if i < prev.1.len() {
                    assert(cur.1[i] == prev.1[i]);
                    let j = choose|j: int| 0 <= j < i && prev.1[j] == Phase::Commit;
                    assert(cur.1[j] == prev.1[j]);
                } else {
                    let j = choose|j: int| 0 <= j < prev.1.len() && prev.1[j] == Phase::Commit;
                    assert(cur.1[j] == prev.1[j]);
                }
            }
        }
    }
}

proof fn lemma_count_witness(inv: Seq<Phase>, p: Phase)
    requires
        count_phase(inv, p) > 0,
    ensures
        exists|j: int| 0 <= j < inv.len() && inv[j] == p,
    decreases inv.len(),
{
    if inv.last() != p {
        lemma_count_witness(inv.drop_last(), p);
        let j = choose|j: int| 0 <= j < inv.drop_last().len() && inv.drop_last()[j] == p;
        assert(inv[j] == inv.drop_last()[j]);
    } else {
        assert(inv[inv.len() - 1] == p);
    }
}

/// For every registration choice and every run of compositor reports after a single
/// submission, each registered callback is invoked at most once, an unregistered one
/// never, and the on-complete callback is never invoked before the on-commit one.
/// When the compositor reports commit and then completion, each registered callback is
/// invoked exactly once, on-commit first.
pub proof fn lemma_callbacks_once_in_order(commit: bool, complete: bool, events: Seq<Phase>)
    ensures
        ({
            let start = registered(commit, complete);
            let inv = run_events(submit_spec(start).0, events).1;
            &&& count_phase(inv, Phase::Commit) <= (if commit { 1nat } else { 0nat })
            &&& count_phase(inv, Phase::Complete) <= (if complete { 1nat } else { 0nat })
            &&& forall|i: int|
                0 <= i < inv.len() && inv[i] == Phase::Complete && commit ==> exists|j: int|
                    0 <= j < i && inv[j] == Phase::Commit
        }),
        run_events(submit_spec(registered(commit, complete)).0, seq![Phase::Commit, Phase::Complete]).1
            == (if commit { seq![Phase::Commit] } else { Seq::<Phase>::empty() }) + (if complete {
            seq![Phase::Complete]
        } else {
            Seq::<Phase>::empty()
        }),
{
    lemma_run_invariant(commit, complete, events);
    let s0 = submit_spec(registered(commit, complete)).0;
    let evs = seq![Phase::Commit, Phase::Complete];
    let one = seq![Phase::Commit];
    assert(evs.drop_last() =~= one);
    assert(one.drop_last() =~= Seq::<Phase>::empty());
    let r0 = run_events(s0, Seq::<Phase>::empty());
    assert(r0.1 =~= Seq::<Phase>::empty());
    let r1 = run_events(s0, one);
    assert(r1 == run_events(s0, evs.drop_last()));
    assert(r1.1 =~= (if commit { seq![Phase::Commit] } else { Seq::<Phase>::empty() }));
    let r2 = run_events(s0, evs);
    assert(r2.1 =~= (if commit { seq![Phase::Commit] } else { Seq::<Phase>::empty() }) + (if complete {
        seq![Phase::Complete]
    } else {
        Seq::<Phase>::empty()
    }));
}

} // verus!
