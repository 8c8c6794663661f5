//! One GEMM invocation: checking the operands, laying them out for the device,
//! naming each native call with its arguments, and turning the reported
//! statuses and the downloaded result into a row-major matrix or an error.
//!
//! The driver asks `next_action`, makes that native call, and hands its status
//! to `record`, until the action is `Finished`; then `finish` gives the result.

use vstd::prelude::*;
use crate::error::{
    error_is, host_error, translate_compute_status, translate_runtime_status, BlasCall,
    ComputeError, ErrorKind, RuntimeCall,
};
use crate::layout::{col_major_of, row_major_of, to_column_major, to_row_major};
use crate::lifecycle::{
    step_kind, step_ok, step_subsystem, Lifecycle, Slot, Step, FORWARD_STEPS,
};

verus! {

/// A matrix of `rows` x `cols` elements stored row-major.
#[derive(Clone, Debug)]
pub struct Matrix<T> {
    pub rows: usize,
    pub cols: usize,
    pub data: Vec<T>,
}

impl<T: Copy> Matrix<T> {
    /// The element count matches the dimensions.
    pub open spec fn wf(&self) -> bool {
        self.data@.len() == self.rows * self.cols
    }

    /// A matrix from its dimensions and its row-major elements; an element count
    /// other than `rows * cols` is a precondition violation.
    pub fn new(rows: usize, cols: usize, data: Vec<T>) -> (r: Result<Matrix<T>, ComputeError>)
        ensures
            r is Ok <==> data@.len() == rows * cols,
            r matches Ok(m) ==> m.rows == rows && m.cols == cols && m.data@ == data@,
            r matches Err(e) ==> e.kind == ErrorKind::PreconditionViolation,
    {
        let len = data.len();
        match rows.checked_mul(cols) {
            Some(count) if count == len => Ok(Matrix { rows, cols, data }),
            _ => Err(
                host_error(
                    ErrorKind::PreconditionViolation,
                    "element count does not match the dimensions".to_string(),
                ),
            ),
        }
    }
}

/// How the GEMM call reads an operand. Only `Plain` is issued here.
#[derive(Clone, Copy, Debug, PartialEq, Eq, Structural)]
pub enum Op {
    Plain,
    Transpose,
}

/// A native call with its arguments. The GEMM call computes `C := A * B`
/// (scalars one and zero) over column-major buffers.
#[derive(Clone, Copy, Debug, PartialEq, Eq, Structural)]
pub enum Action {
    BindDevice { device: i32 },
    Allocate { slot: Slot, bytes: usize },
    CopyToDevice { slot: Slot, bytes: usize },
    CreateHandle,
    Gemm { op_a: Op, op_b: Op, m: i32, n: i32, k: i32, lda: i32, ldb: i32, ldc: i32 },
    CopyToHost { slot: Slot, bytes: usize },
    DestroyHandle,
    Release { slot: Slot },
    Finished,
}

/// The dimensions of `A * B` that the native calls can take: positive, agreeing
/// inner dimensions, each fitting the library's integer type, and each buffer's
/// element count and byte length fitting `usize`.
pub open spec fn dims_ok(m: int, k: int, n: int, kb: int, elem: int) -> bool {
    &&& 0 < m <= i32::MAX
    &&& 0 < k <= i32::MAX
    &&& 0 < n <= i32::MAX
    &&& k == kb
    &&& m * k <= usize::MAX
    &&& k * n <= usize::MAX
    &&& m * n <= usize::MAX
    &&& m * k * elem <= usize::MAX
    &&& k * n * elem <= usize::MAX
    &&& m * n * elem <= usize::MAX
}

/// The number of elements of buffer `slot` for an `m` x `k` by `k` x `n` product.
pub open spec fn slot_elems(slot: Slot, m: int, k: int, n: int) -> int {
    match slot {
        Slot::A => m * k,
        Slot::B => k * n,
        Slot::C => m * n,
    }
}

/// The native call, with its arguments, for `step`.
pub open spec fn action_of(step: Step, m: int, k: int, n: int, device: i32, elem: int) -> Action {
    match step {
        Step::BindDevice => Action::BindDevice { device },
        Step::Allocate(slot) => Action::Allocate {
            slot,
            bytes: (slot_elems(slot, m, k, n) * elem) as usize,
        },
        Step::CopyToDevice(slot) => Action::CopyToDevice {
            slot,
            bytes: (slot_elems(slot, m, k, n) * elem) as usize,
        },
        Step::CreateHandle => Action::CreateHandle,
        Step::Gemm => Action::Gemm {
            op_a: Op::Plain,
            op_b: Op::Plain,
            m: m as i32,
            n: n as i32,
            k: k as i32,
            lda: m as i32,
            ldb: k as i32,
            ldc: m as i32,
        },
        Step::CopyToHost => Action::CopyToHost { slot: Slot::C, bytes: (m * n * elem) as usize },
        Step::DestroyHandle => Action::DestroyHandle,
        Step::Release(slot) => Action::Release { slot },
        Step::Finished => Action::Finished,
    }
}

/// Translates the status of a native call made for `step`.
fn translate_step_status(step: Step, code: i32, label: String) -> (r: Option<ComputeError>)
    requires
        step != Step::Finished,
    ensures
        r is None <==> step_ok(step, code),
        r matches Some(e) ==> error_is(e, step_kind(step), step_subsystem(step), code, label@),
{
    match step {
        Step::BindDevice => translate_runtime_status(RuntimeCall::SetDevice, code, label),
        Step::Allocate(_) => translate_runtime_status(RuntimeCall::Malloc, code, label),
        Step::CopyToDevice(_) => translate_runtime_status(RuntimeCall::Memcpy, code, label),
        Step::CopyToHost => translate_runtime_status(RuntimeCall::Memcpy, code, label),
        Step::Release(_) => translate_runtime_status(RuntimeCall::Free, code, label),
        Step::CreateHandle => translate_compute_status(BlasCall::Create, code, label),
        Step::Gemm => translate_compute_status(BlasCall::Gemm, code, label),
        Step::DestroyHandle => translate_compute_status(BlasCall::Destroy, code, label),
        Step::Finished => None,
    }
}

/// One multiply of an `m` x `k` matrix A by a `k` x `n` matrix B on one device.
pub struct Invocation<T> {
    m: usize,
    k: usize,
    n: usize,
    device: i32,
    elem: usize,
    a_col: Vec<T>,
    b_col: Vec<T>,
    state: Lifecycle,
    error: Option<ComputeError>,
}

impl<T: Copy> Invocation<T> {
    /// The rows of A and of the product.
    pub closed spec fn m(&self) -> int {
        self.m as int
    }

    /// The columns of A, which are the rows of B.
    pub closed spec fn k(&self) -> int {
        self.k as int
    }

    /// The columns of B and of the product.
    pub closed spec fn n(&self) -> int {
        self.n as int
    }

    /// The index of the device the invocation binds.
    pub closed spec fn device(&self) -> i32 {
        self.device
    }

    /// The byte size of one element.
    pub closed spec fn elem(&self) -> int {
        self.elem as int
    }

    /// A in column-major order, as it is uploaded.
    pub closed spec fn a_col(&self) -> Seq<T> {
        self.a_col@
    }

    /// B in column-major order, as it is uploaded.
    pub closed spec fn b_col(&self) -> Seq<T> {
        self.b_col@
    }

    /// Where the invocation stands in its sequence of native calls.
    pub closed spec fn lifecycle(&self) -> Lifecycle {
        self.state
    }

    /// The first error observed, if any.
    pub closed spec fn error(&self) -> Option<ComputeError> {
        self.error
    }

    /// The invocation's internal consistency.
    pub closed spec fn inv(&self) -> bool {
        &&& dims_ok(self.m as int, self.k as int, self.n as int, self.k as int, self.elem as int)
        &&& self.elem as nat == vstd::layout::size_of::<T>()
        &&& self.a_col@.len() == self.m * self.k
        &&& self.b_col@.len() == self.k * self.n
        &&& self.state.wf()
        &&& self.error is Some <==> self.state.failure is Some
        &&& self.state.failure matches Some(step) ==> step != Step::Finished
        &&& self.error matches Some(e) ==> e.kind == step_kind(self.state.failure->0)
    }

    /// The next native call, with its arguments.
    pub open spec fn action_spec(&self) -> Action {
        action_of(
            self.lifecycle().next_step_spec(),
            self.m(),
            self.k(),
            self.n(),
            self.device(),
            self.elem(),
        )
    }

    /// Checks the operands and lays them out column-major. Nothing is acquired:
    /// a violated precondition is reported before any native call.
    pub fn new(a: &Matrix<T>, b: &Matrix<T>, device: i32) -> (r: Result<
        Invocation<T>,
        ComputeError,
    >)
        requires
            a.wf(),
            b.wf(),
        ensures
            r is Ok <==> dims_ok(
                a.rows as int,
                a.cols as int,
                b.cols as int,
                b.rows as int,
                vstd::layout::size_of::<T>() as int,
            ),
            r matches Err(e) ==> e.kind == ErrorKind::PreconditionViolation,
            r matches Ok(inv) ==> {
                &&& inv.inv()
                &&& inv.m() == a.rows && inv.k() == a.cols && inv.n() == b.cols
                &&& inv.device() == device
                &&& inv.elem() == vstd::layout::size_of::<T>()
                &&& inv.a_col() == col_major_of(a.rows as nat, a.cols as nat, a.data@)
                &&& inv.b_col() == col_major_of(b.rows as nat, b.cols as nat, b.data@)
                &&& inv.lifecycle() == Lifecycle::start_spec()
                &&& inv.error() is None
            },
    {
        let elem = core::mem::size_of::<T>();
        let m = a.rows;
        let k = a.cols;
        let n = b.cols;
        let limit = i32::MAX as usize;
        if m == 0 || k == 0 || n == 0 || b.rows != k || m > limit || k > limit || n > limit {
            return Err(host_error(
                ErrorKind::PreconditionViolation,
                "operand dimensions do not agree".to_string(),
            ));
        }
        let bytes_a = match m.checked_mul(k) {
            Some(c) => c.checked_mul(elem),
            None => None,
        };
        let bytes_b = match k.checked_mul(n) {
            Some(c) => c.checked_mul(elem),
            None => None,
        };
        let bytes_c = match m.checked_mul(n) {
            Some(c) => c.checked_mul(elem),
            None => None,
        };
        if bytes_a.is_none() || bytes_b.is_none() || bytes_c.is_none() {
            return Err(host_error(
                ErrorKind::PreconditionViolation,
                "a buffer's byte length does not fit the address space".to_string(),
            ));
        }
        let a_col = to_column_major(m, k, &a.data);
        let b_col = to_column_major(k, n, &b.data);
        Ok(Invocation {
            m,
            k,
            n,
            device,
            elem,
            a_col,
            b_col,
            state: Lifecycle::start(),
            error: None,
        })
    }
}

impl<T: Copy> Invocation<T> {
    /// The next native call, with its arguments.
    pub fn next_action(&self) -> (r: Action)
        requires
            self.inv(),
        ensures
            r == self.action_spec(),
    {
        let m = self.m;
        let k = self.k;
        let n = self.n;
        let elem = self.elem;
        match self.state.next_step() {
            Step::BindDevice => Action::BindDevice { device: self.device },
            Step::Allocate(slot) => Action::Allocate { slot, bytes: self.slot_bytes(slot) },
            Step::CopyToDevice(slot) => Action::CopyToDevice { slot, bytes: self.slot_bytes(slot) },
            Step::CreateHandle => Action::CreateHandle,
            Step::Gemm => Action::Gemm {
                op_a: Op::Plain,
                op_b: Op::Plain,
                m: m as i32,
                n: n as i32,
                k: k as i32,
                lda: m as i32,
                ldb: k as i32,
                ldc: m as i32,
            },
            Step::CopyToHost => Action::CopyToHost { slot: Slot::C, bytes: m * n * elem },
            Step::DestroyHandle => Action::DestroyHandle,
            Step::Release(slot) => Action::Release { slot },
            Step::Finished => Action::Finished,
        }
    }

    /// The byte length of buffer `slot`.
    fn slot_bytes(&self, slot: Slot) -> (r: usize)
        requires
            self.inv(),
        ensures
            r == slot_elems(slot, self.m(), self.k(), self.n()) * self.elem(),
    {
        match slot {
            Slot::A => self.m * self.k * self.elem,
            Slot::B => self.k * self.n * self.elem,
            Slot::C => self.m * self.n * self.elem,
        }
    }

    /// A in column-major order, the host data of the upload to buffer A.
    pub fn operand_a(&self) -> (r: &Vec<T>)
        requires
            self.inv(),
        ensures
            r@ == self.a_col(),
            r@.len() == self.m() * self.k(),
    {
        &self.a_col
    }

    /// B in column-major order, the host data of the upload to buffer B.
    pub fn operand_b(&self) -> (r: &Vec<T>)
        requires
            self.inv(),
        ensures
            r@ == self.b_col(),
            r@.len() == self.k() * self.n(),
    {
        &self.b_col
    }

    /// The number of elements of the result, the length of the download from buffer C.
    pub fn result_len(&self) -> (r: usize)
        requires
            self.inv(),
        ensures
            r == self.m() * self.n(),
    {
        self.m * self.n
    }

    /// Records the status that the native call asked for last returned, with a
    /// readable label for it. The first failure is kept as the error; after a
    /// failure the invocation only releases what it holds.
    pub fn record(&mut self, code: i32, label: String)
        requires
            old(self).inv(),
        ensures
            final(self).inv(),
            final(self).m() == old(self).m(),
            final(self).k() == old(self).k(),
            final(self).n() == old(self).n(),
            final(self).device() == old(self).device(),
            final(self).elem() == old(self).elem(),
            final(self).a_col() == old(self).a_col(),
            final(self).b_col() == old(self).b_col(),
            ({
                let step = old(self).lifecycle().next_step_spec();
                let ok = step == Step::Finished || step_ok(step, code);
                &&& final(self).lifecycle() == old(self).lifecycle().advance_spec(ok)
                &&& if old(self).error() is None && !ok {
                    final(self).error() matches Some(e) && error_is(
                        e,
                        step_kind(step),
                        step_subsystem(step),
                        code,
                        label@,
                    )
                } else {
                    final(self).error() == old(self).error()
                }
            }),
    {
        let step = self.state.next_step();
        if step == Step::Finished {
            return ;
        }
        let status = translate_step_status(step, code, label);
        let ok = status.is_none();
        self.state.advance(ok);
        if self.error.is_none() {
            self.error = status;
        }
    }

    /// Whether every native call has been made and everything acquired released.
    pub fn is_finished(&self) -> (r: bool)
        requires
            self.inv(),
        ensures
            r == self.lifecycle().finished(),
    {
        self.state.is_finished()
    }

    /// The result, from the elements downloaded from buffer C: the first error
    /// observed, else the product in row-major order. A download of a length other
    /// than `m * n` is a transfer failure.
    pub fn finish(self, c_col: Vec<T>) -> (r: Result<Matrix<T>, ComputeError>)
        requires
            self.inv(),
            self.lifecycle().finished(),
        ensures
            self.error() is None ==> self.lifecycle().stage == FORWARD_STEPS,
            self.error() matches Some(e) ==> (self.lifecycle().failure matches Some(step)
                && e.kind == step_kind(step)),
            self.error() matches Some(e) ==> r == Err::<Matrix<T>, ComputeError>(e),
            self.error() is None && c_col@.len() == self.m() * self.n() ==> (r matches Ok(c)
                && c.rows == self.m() && c.cols == self.n() && c.data@ == row_major_of(
                self.m() as nat,
                self.n() as nat,
                c_col@,
            )),
            self.error() is None && c_col@.len() != self.m() * self.n() ==> (r matches Err(e)
                && e.kind == ErrorKind::TransferFailure),
    {
        match self.error {
            Some(e) => Err(e),
            None => {
                if c_col.len() != self.m * self.n {
                    return Err(host_error(
                        ErrorKind::TransferFailure,
                        "downloaded result has the wrong length".to_string(),
                    ));
                }
                let data = to_row_major(self.m, self.n, &c_col);
                Ok(Matrix { rows: self.m, cols: self.n, data })
            },
        }
    }
}

} // verus!
