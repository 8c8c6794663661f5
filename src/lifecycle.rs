//! The order of native calls in one GEMM invocation, as a state machine.
//!
//! Resources are acquired in a fixed order: device binding, buffers A, B and C,
//! the two uploads, the library handle, the GEMM call and the download. After
//! the last forward step, or after the first failure, the machine unwinds:
//! it destroys the handle if it is live and then releases the live buffers in
//! the reverse order of their allocation. A failure while unwinding does not
//! stop the unwinding, and the first failure is the one reported.

use vstd::prelude::*;
use crate::error::{
    blas_kind, runtime_kind, BlasCall, ErrorKind, RuntimeCall, Subsystem, BLAS_SUCCESS,
    RUNTIME_SUCCESS,
};

verus! {

/// The number of forward steps of one invocation.
pub const FORWARD_STEPS: usize = 9;

/// The number of device buffers of one invocation.
pub const BUFFER_COUNT: usize = 3;

/// One of the three device buffers: the operands A and B and the result C.
#[derive(Clone, Copy, Debug, PartialEq, Eq, Structural)]
pub enum Slot {
    A,
    B,
    C,
}

/// The lifecycle of the library handle.
#[derive(Clone, Copy, Debug, PartialEq, Eq, Structural)]
pub enum HandleState {
    Uninitialized,
    Created,
    Destroyed,
}

/// The native call that the machine asks its driver to make next.
#[derive(Clone, Copy, Debug, PartialEq, Eq, Structural)]
pub enum Step {
    BindDevice,
    Allocate(Slot),
    CopyToDevice(Slot),
    CreateHandle,
    Gemm,
    CopyToHost,
    DestroyHandle,
    Release(Slot),
    Finished,
}

/// The state of one invocation: how many forward steps succeeded, how many
/// buffers are live, the handle's state, and the first step that failed.
#[derive(Clone, Copy, Debug, PartialEq, Eq, Structural)]
pub struct Lifecycle {
    pub stage: usize,
    pub buffers: usize,
    pub handle: HandleState,
    pub failure: Option<Step>,
}

/// The buffer allocated in position `i` of the allocation order.
pub open spec fn slot_at(i: int) -> Slot {
    if i == 0 {
        Slot::A
    } else if i == 1 {
        Slot::B
    } else {
        Slot::C
    }
}

/// The forward step at position `stage`.
pub open spec fn forward_step(stage: int) -> Step {
    if stage == 0 {
        Step::BindDevice
    } else if stage == 1 {
        Step::Allocate(Slot::A)
    } else if stage == 2 {
        Step::Allocate(Slot::B)
    } else if stage == 3 {
        Step::Allocate(Slot::C)
    } else if stage == 4 {
        Step::CopyToDevice(Slot::A)
    } else if stage == 5 {
        Step::CopyToDevice(Slot::B)
    } else if stage == 6 {
        Step::CreateHandle
    } else if stage == 7 {
        Step::Gemm
    } else {
        Step::CopyToHost
    }
}

/// The number of buffers live after `stage` forward steps succeeded.
pub open spec fn buffers_after(stage: int) -> int {
    if stage <= 1 {
        0
    } else if stage >= 4 {
        3
    } else {
        stage - 1
    }
}

/// Whether `step` is a call of the linear-algebra library (else of the runtime).
pub open spec fn is_blas_step(step: Step) -> bool {
    step == Step::CreateHandle || step == Step::Gemm || step == Step::DestroyHandle
}

/// Whether `code` is the success status of the API that `step` calls.
pub open spec fn step_ok(step: Step, code: i32) -> bool {
    if is_blas_step(step) {
        code == BLAS_SUCCESS
    } else {
        code == RUNTIME_SUCCESS
    }
}

/// The kind of error that a failure of `step` stands for.
pub open spec fn step_kind(step: Step) -> ErrorKind {
    match step {
        Step::BindDevice => runtime_kind(RuntimeCall::SetDevice),
        Step::Allocate(_) => runtime_kind(RuntimeCall::Malloc),
        Step::CopyToDevice(_) => runtime_kind(RuntimeCall::Memcpy),
        Step::CopyToHost => runtime_kind(RuntimeCall::Memcpy),
        Step::Release(_) => runtime_kind(RuntimeCall::Free),
        Step::CreateHandle => blas_kind(BlasCall::Create),
        Step::Gemm => blas_kind(BlasCall::Gemm),
        Step::DestroyHandle => blas_kind(BlasCall::Destroy),
        Step::Finished => ErrorKind::PreconditionViolation,
    }
}

/// The API that reports the status of `step`.
pub open spec fn step_subsystem(step: Step) -> Subsystem {
    if is_blas_step(step) {
        Subsystem::Blas
    } else {
        Subsystem::Runtime
    }
}

impl Lifecycle {
    /// Whether the machine has left the forward steps and is releasing what it holds.
    pub open spec fn unwinding(self) -> bool {
        self.stage >= FORWARD_STEPS || self.failure is Some
    }

    /// The resources still held: the live buffers and a live handle.
    pub open spec fn live(self) -> nat {
        self.buffers as nat + if self.handle == HandleState::Created {
            1nat
        } else {
            0nat
        }
    }

    /// The states reachable from the start.
    pub open spec fn wf(self) -> bool {
        &&& self.stage <= FORWARD_STEPS
        &&& self.buffers <= BUFFER_COUNT
        &&& self.buffers <= buffers_after(self.stage as int)
        &&& self.handle == HandleState::Created ==> self.stage >= 7
        &&& self.handle == HandleState::Uninitialized ==> self.stage <= 6
        &&& !self.unwinding() ==> {
            &&& self.buffers == buffers_after(self.stage as int)
            &&& self.handle == if self.stage >= 7 {
                HandleState::Created
            } else {
                HandleState::Uninitialized
            }
        }
    }

    /// The step the machine asks for in this state.
    pub open spec fn next_step_spec(self) -> Step {
        if !self.unwinding() {
            forward_step(self.stage as int)
        } else if self.handle == HandleState::Created {
            Step::DestroyHandle
        } else if self.buffers > 0 {
            Step::Release(slot_at(self.buffers - 1))
        } else {
            Step::Finished
        }
    }

    /// Whether the machine has released everything and has nothing more to ask.
    pub open spec fn finished(self) -> bool {
        self.next_step_spec() == Step::Finished
    }

    /// The first failure, keeping an earlier one over `step`.
    pub open spec fn keep_first(self, ok: bool, step: Step) -> Option<Step> {
        if ok || self.failure is Some {
            self.failure
        } else {
            Some(step)
        }
    }

    /// The state after the driver reports whether the step it was asked for succeeded.
    pub open spec fn advance_spec(self, ok: bool) -> Lifecycle {
        let step = self.next_step_spec();
        if !self.unwinding() {
            if ok {
                Lifecycle {
                    stage: (self.stage + 1) as usize,
                    buffers: if step is Allocate {
                        (self.buffers + 1) as usize
                    } else {
                        self.buffers
                    },
                    handle: if step == Step::CreateHandle {
                        HandleState::Created
                    } else {
                        self.handle
                    },
                    failure: self.failure,
                }
            } else {
                Lifecycle { failure: Some(step), ..self }
            }
        } else {
            match step {
                Step::DestroyHandle => Lifecycle {
                    handle: HandleState::Destroyed,
                    failure: self.keep_first(ok, step),
                    ..self
                },
                Step::Release(_) => Lifecycle {
                    buffers: (self.buffers - 1) as usize,
                    failure: self.keep_first(ok, step),
                    ..self
                },
                _ => self,
            }
        }
    }

    /// The state before the first step: nothing acquired, nothing failed.
    pub open spec fn start_spec() -> Lifecycle {
        Lifecycle { stage: 0, buffers: 0, handle: HandleState::Uninitialized, failure: None }
    }

    /// The state before the first step: nothing acquired, nothing failed.
    pub fn start() -> (r: Lifecycle)
        ensures
            r == Lifecycle::start_spec(),
            r.wf(),
    {
        Lifecycle { stage: 0, buffers: 0, handle: HandleState::Uninitialized, failure: None }
    }

    /// The step the machine asks for. A GEMM call or a destruction is asked for
    /// only while the handle is live, and a release only while a buffer is.
    pub fn next_step(&self) -> (r: Step)
        requires
            self.wf(),
        ensures
            r == self.next_step_spec(),
            r == Step::Gemm ==> self.handle == HandleState::Created,
            r == Step::DestroyHandle ==> self.handle == HandleState::Created,
            r is Release ==> self.buffers > 0,
            r == Step::CreateHandle ==> self.handle == HandleState::Uninitialized,
    {
        let unwinding = self.stage >= FORWARD_STEPS || self.failure.is_some();
        if !unwinding {
            match self.stage {
                0 => Step::BindDevice,
                1 => Step::Allocate(Slot::A),
                2 => Step::Allocate(Slot::B),
                3 => Step::Allocate(Slot::C),
                4 => Step::CopyToDevice(Slot::A),
                5 => Step::CopyToDevice(Slot::B),
                6 => Step::CreateHandle,
                7 => Step::Gemm,
                _ => Step::CopyToHost,
            }
        } else if self.handle == HandleState::Created {
            Step::DestroyHandle
        } else if self.buffers > 0 {
            let slot = if self.buffers == 1 {
                Slot::A
            } else if self.buffers == 2 {
                Slot::B
            } else {
                Slot::C
            };
            Step::Release(slot)
        } else {
            Step::Finished
        }
    }

    /// Records whether the step last asked for succeeded.
    pub fn advance(&mut self, ok: bool)
        requires
            old(self).wf(),
        ensures
            *final(self) == old(self).advance_spec(ok),
            final(self).wf(),
    {
        let step = self.next_step();
        if self.stage < FORWARD_STEPS && self.failure.is_none() {
            if ok {
                self.stage = self.stage + 1;
                if let Step::Allocate(_) = step {
                    self.buffers = self.buffers + 1;
                }
                if step == Step::CreateHandle {
                    self.handle = HandleState::Created;
                }
            } else {
                self.failure = Some(step);
            }
        } else {
            match step {
                Step::DestroyHandle => {
                    self.handle = HandleState::Destroyed;
                    if !ok && self.failure.is_none() {
                        self.failure = Some(step);
                    }
                },
                Step::Release(_) => {
                    self.buffers = self.buffers - 1;
                    if !ok && self.failure.is_none() {
                        self.failure = Some(step);
                    }
                },
                _ => {},
            }
        }
    }

    /// Whether the machine has nothing more to ask.
    pub fn is_finished(&self) -> (r: bool)
        requires
            self.wf(),
        ensures
            r == self.finished(),
    {
        self.next_step() == Step::Finished
    }
}

/// The state after the driver reports `outcomes` in turn, starting from `s`.
pub open spec fn run(s: Lifecycle, outcomes: Seq<bool>) -> Lifecycle
    decreases outcomes.len(),
{
    if outcomes.len() == 0 {
        s
    } else {
        run(s.advance_spec(outcomes[0]), outcomes.drop_first())
    }
}

/// The steps asked for, starting from `s`, while the driver reports `outcomes`.
pub open spec fn trace(s: Lifecycle, outcomes: Seq<bool>) -> Seq<Step>
    decreases outcomes.len(),
{
    if outcomes.len() == 0 || s.finished() {
        seq![]
    } else {
        seq![s.next_step_spec()] + trace(s.advance_spec(outcomes[0]), outcomes.drop_first())
    }
}

/// How many handle creations succeed, starting from `s`, while the driver reports `outcomes`.
pub open spec fn handles_created(s: Lifecycle, outcomes: Seq<bool>) -> nat
    decreases outcomes.len(),
{
    if outcomes.len() == 0 {
        0
    } else {
        (if s.next_step_spec() == Step::CreateHandle && outcomes[0] {
            1nat
        } else {
            0nat
        }) + handles_created(s.advance_spec(outcomes[0]), outcomes.drop_first())
    }
}

/// How many handle destructions are asked for, starting from `s`, while the driver
/// reports `outcomes`.
pub open spec fn handles_destroyed(s: Lifecycle, outcomes: Seq<bool>) -> nat
    decreases outcomes.len(),
{
    if outcomes.len() == 0 {
        0
    } else {
        (if s.next_step_spec() == Step::DestroyHandle {
            1nat
        } else {
            0nat
        }) + handles_destroyed(s.advance_spec(outcomes[0]), outcomes.drop_first())
    }
}

/// How many buffer allocations succeed, starting from `s`, while the driver reports
/// `outcomes`.
pub open spec fn buffers_allocated(s: Lifecycle, outcomes: Seq<bool>) -> nat
    decreases outcomes.len(),
{
    if outcomes.len() == 0 {
        0
    } else {
        (if s.next_step_spec() is Allocate && outcomes[0] {
            1nat
        } else {
            0nat
        }) + buffers_allocated(s.advance_spec(outcomes[0]), outcomes.drop_first())
    }
}

/// How many buffer releases are asked for, starting from `s`, while the driver reports
/// `outcomes`.
pub open spec fn buffers_released(s: Lifecycle, outcomes: Seq<bool>) -> nat
    decreases outcomes.len(),
{
    if outcomes.len() == 0 {
        0
    } else {
        (if s.next_step_spec() is Release {
            1nat
        } else {
            0nat
        }) + buffers_released(s.advance_spec(outcomes[0]), outcomes.drop_first())
    }
}

/// An upper bound on the outcomes still to be reported before the machine finishes.
pub open spec fn remaining(s: Lifecycle) -> nat {
    if s.unwinding() {
        s.live()
    } else {
        ((FORWARD_STEPS - s.stage) + 4) as nat
    }
}

/// Every step keeps the machine among the reachable states.
pub proof fn lemma_advance_wf(s: Lifecycle, ok: bool)
    requires
        s.wf(),
    ensures
        s.advance_spec(ok).wf(),
{
}

/// Every reported outcome lowers `remaining` by at least one until the machine finishes.
proof fn lemma_advance_remaining(s: Lifecycle, ok: bool)
    requires
        s.wf(),
        !s.finished(),
    ensures
        remaining(s.advance_spec(ok)) < remaining(s),
{
}

/// Starting from a reachable state, the resources held at the start plus those
/// acquired along the way equal those released along the way plus those held at
/// the end, for handles and buffers alike.
pub proof fn lemma_balance(s: Lifecycle, outcomes: Seq<bool>)
    requires
        s.wf(),
    ensures
        run(s, outcomes).wf(),
        handles_created(s, outcomes) + s.live() - s.buffers == handles_destroyed(s, outcomes)
            + run(s, outcomes).live() - run(s, outcomes).buffers,
        buffers_allocated(s, outcomes) + s.buffers == buffers_released(s, outcomes) + run(
            s,
            outcomes,
        ).buffers,
    decreases outcomes.len(),
{
    if outcomes.len() > 0 {
        lemma_advance_wf(s, outcomes[0]);
        lemma_balance(s.advance_spec(outcomes[0]), outcomes.drop_first());
    }
}

/// Starting from a reachable state, once `remaining` outcomes have been reported
/// the machine has finished.
pub proof fn lemma_finishes(s: Lifecycle, outcomes: Seq<bool>)
    requires
        s.wf(),
        outcomes.len() >= remaining(s),
    ensures
        run(s, outcomes).finished(),
    decreases outcomes.len(),
{
    if s.finished() {
        lemma_run_finished(s, outcomes);
    } else {
        lemma_advance_wf(s, outcomes[0]);
        lemma_advance_remaining(s, outcomes[0]);
        lemma_finishes(s.advance_spec(outcomes[0]), outcomes.drop_first());
    }
}

/// A finished machine stays as it is, whatever is reported.
pub proof fn lemma_run_finished(s: Lifecycle, outcomes: Seq<bool>)
    requires
        s.wf(),
        s.finished(),
    ensures
        run(s, outcomes) == s,
        trace(s, outcomes) == Seq::<Step>::empty(),
        buffers_allocated(s, outcomes) == 0,
        buffers_released(s, outcomes) == 0,
    decreases outcomes.len(),
{
    if outcomes.len() > 0 {
        lemma_run_finished(s.advance_spec(outcomes[0]), outcomes.drop_first());
    }
}

/// Whatever the native calls report, an invocation asks for at most
/// `FORWARD_STEPS + 4` calls and then has released everything: the handle is not
/// live and no buffer is.
pub proof fn lemma_always_finishes(outcomes: Seq<bool>)
    requires
        outcomes.len() >= FORWARD_STEPS + 4,
    ensures
        run(Lifecycle::start_spec(), outcomes).finished(),
        run(Lifecycle::start_spec(), outcomes).handle != HandleState::Created,
        run(Lifecycle::start_spec(), outcomes).buffers == 0,
{
    lemma_finishes(Lifecycle::start_spec(), outcomes);
}

/// Whatever the native calls report, once an invocation has finished the handle
/// has been destroyed exactly as many times as it was created (at most once), and
/// as many buffers have been released as were allocated.
pub proof fn lemma_release_discipline(outcomes: Seq<bool>)
    requires
        run(Lifecycle::start_spec(), outcomes).finished(),
    ensures
        handles_destroyed(Lifecycle::start_spec(), outcomes) == handles_created(
            Lifecycle::start_spec(),
            outcomes,
        ),
        handles_created(Lifecycle::start_spec(), outcomes) <= 1,
        buffers_released(Lifecycle::start_spec(), outcomes) == buffers_allocated(
            Lifecycle::start_spec(),
            outcomes,
        ),
{
    lemma_balance(Lifecycle::start_spec(), outcomes);
    lemma_created_at_most_once(Lifecycle::start_spec(), outcomes);
}

proof fn lemma_created_at_most_once(s: Lifecycle, outcomes: Seq<bool>)
    requires
        s.wf(),
    ensures
        handles_created(s, outcomes) <= if s.handle == HandleState::Uninitialized
            && !s.unwinding() {
            1nat
        } else {
            0nat
        },
    decreases outcomes.len(),
{
    if outcomes.len() > 0 {
        lemma_advance_wf(s, outcomes[0]);
        lemma_created_at_most_once(s.advance_spec(outcomes[0]), outcomes.drop_first());
    }
}

/// When the second of the three buffer allocations fails, the machine releases
/// exactly the first buffer and then finishes, with that allocation as the failure,
/// which is reported as an allocation failure.
pub proof fn lemma_second_allocation_fails(outcomes: Seq<bool>)
    requires
        outcomes.len() >= 4,
        outcomes[0],
        outcomes[1],
        !outcomes[2],
    ensures
        trace(Lifecycle::start_spec(), outcomes) == seq![
            Step::BindDevice,
            Step::Allocate(Slot::A),
            Step::Allocate(Slot::B),
            Step::Release(Slot::A),
        ],
        run(Lifecycle::start_spec(), outcomes).finished(),
        run(Lifecycle::start_spec(), outcomes).failure == Some(Step::Allocate(Slot::B)),
        step_kind(Step::Allocate(Slot::B)) == ErrorKind::AllocationFailure,
        buffers_allocated(Lifecycle::start_spec(), outcomes) == 1,
        buffers_released(Lifecycle::start_spec(), outcomes) == 1,
{
    let s0 = Lifecycle::start_spec();
    let s1 = s0.advance_spec(outcomes[0]);
    let o1 = outcomes.drop_first();
    let s2 = s1.advance_spec(o1[0]);
    let o2 = o1.drop_first();
    let s3 = s2.advance_spec(o2[0]);
    let o3 = o2.drop_first();
    let s4 = s3.advance_spec(o3[0]);
    let o4 = o3.drop_first();
    assert(s4.finished());
    lemma_run_finished(s4, o4);
    assert(buffers_allocated(s0, outcomes) == buffers_allocated(s1, o1));
    assert(buffers_allocated(s1, o1) == 1 + buffers_allocated(s2, o2));
    assert(buffers_allocated(s2, o2) == buffers_allocated(s3, o3));
    assert(buffers_allocated(s3, o3) == buffers_allocated(s4, o4));
    assert(buffers_released(s2, o2) == buffers_released(s3, o3));
    assert(buffers_released(s1, o1) == buffers_released(s2, o2));
    assert(buffers_released(s0, outcomes) == buffers_released(s1, o1));
    assert(buffers_released(s3, o3) == 1 + buffers_released(s4, o4));
    assert(run(s3, o3) == run(s4, o4));
    assert(run(s2, o2) == run(s3, o3));
    assert(run(s1, o1) == run(s2, o2));
    assert(run(s0, outcomes) == run(s1, o1));
    assert(trace(s3, o3) == seq![Step::Release(Slot::A)]);
    assert(trace(s2, o2) == seq![Step::Allocate(Slot::B), Step::Release(Slot::A)]);
    assert(trace(s1, o1) == seq![
        Step::Allocate(Slot::A),
        Step::Allocate(Slot::B),
        Step::Release(Slot::A),
    ]);
}

/// The native calls of an invocation in which every call succeeds.
pub open spec fn success_steps() -> Seq<Step> {
    seq![
        Step::BindDevice,
        Step::Allocate(Slot::A),
        Step::Allocate(Slot::B),
        Step::Allocate(Slot::C),
        Step::CopyToDevice(Slot::A),
        Step::CopyToDevice(Slot::B),
        Step::CreateHandle,
        Step::Gemm,
        Step::CopyToHost,
        Step::DestroyHandle,
        Step::Release(Slot::C),
        Step::Release(Slot::B),
        Step::Release(Slot::A),
    ]
}

/// When every native call succeeds, an invocation binds the device, allocates A, B
/// and C, uploads A and B, creates the handle, multiplies, downloads C, destroys the
/// handle and releases C, B and A, in that order, and finishes with no failure.
pub proof fn lemma_success_order(outcomes: Seq<bool>)
    requires
        outcomes.len() >= FORWARD_STEPS + 4,
        forall|i: int| 0 <= i < FORWARD_STEPS + 4 ==> outcomes[i],
    ensures
        trace(Lifecycle::start_spec(), outcomes) == success_steps(),
        run(Lifecycle::start_spec(), outcomes).finished(),
        run(Lifecycle::start_spec(), outcomes).failure is None,
{
    let s0 = Lifecycle::start_spec();
    let o0 = outcomes;
    let s1 = s0.advance_spec(true);
    let o1 = o0.drop_first();
    assert(o0[0] == outcomes[0]);
    let s2 = s1.advance_spec(true);
    let o2 = o1.drop_first();
    assert(o1[0] == outcomes[1]);
    let s3 = s2.advance_spec(true);
    let o3 = o2.drop_first();
    assert(o2[0] == outcomes[2]);
    let s4 = s3.advance_spec(true);
    let o4 = o3.drop_first();
    assert(o3[0] == outcomes[3]);
    let s5 = s4.advance_spec(true);
    let o5 = o4.drop_first();
    assert(o4[0] == outcomes[4]);
    let s6 = s5.advance_spec(true);
    let o6 = o5.drop_first();
    assert(o5[0] == outcomes[5]);
    let s7 = s6.advance_spec(true);
    let o7 = o6.drop_first();
    assert(o6[0] == outcomes[6]);
    let s8 = s7.advance_spec(true);
    let o8 = o7.drop_first();
    assert(o7[0] == outcomes[7]);
    let s9 = s8.advance_spec(true);
    let o9 = o8.drop_first();
    assert(o8[0] == outcomes[8]);
    let s10 = s9.advance_spec(true);
    let o10 = o9.drop_first();
    assert(o9[0] == outcomes[9]);
    let s11 = s10.advance_spec(true);
    let o11 = o10.drop_first();
    assert(o10[0] == outcomes[10]);
    let s12 = s11.advance_spec(true);
    let o12 = o11.drop_first();
    assert(o11[0] == outcomes[11]);
    let s13 = s12.advance_spec(true);
    let o13 = o12.drop_first();
    assert(o12[0] == outcomes[12]);
    assert(s13.finished());
    lemma_run_finished(s13, o13);
    assert(run(s12, o12) == run(s13, o13));
    assert(trace(s12, o12) =~= success_steps().subrange(12, 13));
    assert(run(s11, o11) == run(s12, o12));
    assert(trace(s11, o11) =~= success_steps().subrange(11, 13));
    assert(run(s10, o10) == run(s11, o11));
    assert(trace(s10, o10) =~= success_steps().subrange(10, 13));
    assert(run(s9, o9) == run(s10, o10));
    assert(trace(s9, o9) =~= success_steps().subrange(9, 13));
    assert(run(s8, o8) == run(s9, o9));
    assert(trace(s8, o8) =~= success_steps().subrange(8, 13));
    assert(run(s7, o7) == run(s8, o8));
    assert(trace(s7, o7) =~= success_steps().subrange(7, 13));
    assert(run(s6, o6) == run(s7, o7));
    assert(trace(s6, o6) =~= success_steps().subrange(6, 13));
    assert(run(s5, o5) == run(s6, o6));
    assert(trace(s5, o5) =~= success_steps().subrange(5, 13));
    assert(run(s4, o4) == run(s5, o5));
    assert(trace(s4, o4) =~= success_steps().subrange(4, 13));
    assert(run(s3, o3) == run(s4, o4));
    assert(trace(s3, o3) =~= success_steps().subrange(3, 13));
    assert(run(s2, o2) == run(s3, o3));
    assert(trace(s2, o2) =~= success_steps().subrange(2, 13));
    assert(run(s1, o1) == run(s2, o2));
    assert(trace(s1, o1) =~= success_steps().subrange(1, 13));
    assert(run(s0, o0) == run(s1, o1));
    assert(trace(s0, o0) =~= success_steps().subrange(0, 13));
}

} // verus!
