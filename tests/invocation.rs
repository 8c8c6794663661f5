use gpu_gemm::error::{ComputeError, ErrorKind, Subsystem};
use gpu_gemm::invoker::{Action, Invocation, Matrix, Op};
use gpu_gemm::lifecycle::Slot;

/// A host-memory stand-in for the device and the library, which counts what is
/// acquired and released and can fail one chosen call.
struct SimDevice {
    buffers: Vec<Option<Vec<f32>>>,
    handle_live: bool,
    handles_created: usize,
    handles_destroyed: usize,
    buffers_allocated: usize,
    buffers_released: usize,
    calls: usize,
    fail_call: Option<usize>,
    log: Vec<Action>,
    downloaded: Vec<f32>,
}

fn slot_index(slot: Slot) -> usize {
    match slot {
        Slot::A => 0,
        Slot::B => 1,
        Slot::C => 2,
    }
}

impl SimDevice {
    fn new(fail_call: Option<usize>) -> SimDevice {
        SimDevice {
            buffers: vec![None, None, None],
            handle_live: false,
            handles_created: 0,
            handles_destroyed: 0,
            buffers_allocated: 0,
            buffers_released: 0,
            calls: 0,
            fail_call,
            log: Vec::new(),
            downloaded: Vec::new(),
        }
    }

    fn perform(&mut self, action: Action, inv: &Invocation<f32>) -> i32 {
        self.log.push(action);
        let call = self.calls;
        self.calls += 1;
        let fail = self.fail_call == Some(call);
        match action {
            Action::BindDevice { .. } => {
                if fail {
                    return 101;
                }
            }
            Action::Allocate { slot, bytes } => {
                if fail {
                    return 2;
                }
                let i = slot_index(slot);
                assert!(self.buffers[i].is_none(), "buffer allocated twice");
                self.buffers[i] = Some(vec![0.0; bytes / 4]);
                self.buffers_allocated += 1;
            }
            Action::CopyToDevice { slot, bytes } => {
                if fail {
                    return 1;
                }
                let data = match slot {
                    Slot::A => inv.operand_a().clone(),
                    Slot::B => inv.operand_b().clone(),
                    Slot::C => panic!("no upload to the result buffer"),
                };
                assert_eq!(data.len() * 4, bytes);
                self.buffers[slot_index(slot)] = Some(data);
            }
            Action::CreateHandle => {
                if fail {
                    return 3;
                }
                assert!(!self.handle_live, "handle created twice");
                self.handle_live = true;
                self.handles_created += 1;
            }
            Action::Gemm { op_a, op_b, m, n, k, lda, ldb, ldc } => {
                assert!(self.handle_live, "gemm without a live handle");
                assert_eq!(op_a, Op::Plain);
                assert_eq!(op_b, Op::Plain);
                if fail {
                    return 13;
                }
                let (m, n, k) = (m as usize, n as usize, k as usize);
                let (lda, ldb, ldc) = (lda as usize, ldb as usize, ldc as usize);
                let a = self.buffers[0].clone().unwrap();
                let b = self.buffers[1].clone().unwrap();
                let c = self.buffers[2].as_mut().unwrap();
                for j in 0..n {
                    for i in 0..m {
                        let mut sum = 0.0f32;
                        for p in 0..k {
                            sum += a[p * lda + i] * b[j * ldb + p];
                        }
                        c[j * ldc + i] = sum;
                    }
                }
            }
            Action::CopyToHost { slot, bytes } => {
                if fail {
                    return 1;
                }
                let data = self.buffers[slot_index(slot)].clone().unwrap();
                assert_eq!(data.len() * 4, bytes);
                self.downloaded = data;
            }
            Action::DestroyHandle => {
                assert!(self.handle_live, "handle destroyed while not live");
                self.handle_live = false;
                self.handles_destroyed += 1;
                if fail {
                    return 14;
                }
            }
            Action::Release { slot } => {
                let i = slot_index(slot);
                assert!(self.buffers[i].is_some(), "buffer released twice");
                self.buffers[i] = None;
                self.buffers_released += 1;
                if fail {
                    return 1;
                }
            }
            Action::Finished => panic!("finished is no call"),
        }
        0
    }

    fn live_buffers(&self) -> usize {
        self.buffers.iter().filter(|b| b.is_some()).count()
    }
}

fn compute(
    a: &Matrix<f32>,
    b: &Matrix<f32>,
    fail_call: Option<usize>,
) -> (Result<Matrix<f32>, ComputeError>, SimDevice) {
    let mut sim = SimDevice::new(fail_call);
    let mut inv = match Invocation::new(a, b, 0) {
        Ok(inv) => inv,
        Err(e) => return (Err(e), sim),
    };
    loop {
        let action = inv.next_action();
        if action == Action::Finished {
            break;
        }
        let code = sim.perform(action, &inv);
        inv.record(code, format!("status {}", code));
    }
    assert!(inv.is_finished());
    let c = sim.downloaded.clone();
    (inv.finish(c), sim)
}

fn matrix(rows: usize, cols: usize, data: Vec<f32>) -> Matrix<f32> {
    Matrix::new(rows, cols, data).unwrap()
}

fn naive_product(a: &Matrix<f32>, b: &Matrix<f32>) -> Vec<f32> {
    let mut c = vec![0.0f32; a.rows * b.cols];
    for i in 0..a.rows {
        for j in 0..b.cols {
            let mut sum = 0.0f32;
            for p in 0..a.cols {
                sum += a.data[i * a.cols + p] * b.data[p * b.cols + j];
            }
            c[i * b.cols + j] = sum;
        }
    }
    c
}

#[test]
fn two_by_three_times_three_by_two() {
    let a = matrix(2, 3, vec![1.0, 2.0, 3.0, 4.0, 5.0, 6.0]);
    let b = matrix(3, 2, vec![7.0, 8.0, 9.0, 10.0, 11.0, 12.0]);
    let (r, sim) = compute(&a, &b, None);
    let c = r.unwrap();
    assert_eq!(c.rows, 2);
    assert_eq!(c.cols, 2);
    assert_eq!(c.data, vec![58.0, 64.0, 139.0, 154.0]);
    assert_eq!(sim.live_buffers(), 0);
    assert!(!sim.handle_live);
}

#[test]
fn one_by_one_product() {
    let a = matrix(1, 1, vec![5.0]);
    let b = matrix(1, 1, vec![3.0]);
    let (r, _) = compute(&a, &b, None);
    let c = r.unwrap();
    assert_eq!((c.rows, c.cols), (1, 1));
    assert_eq!(c.data, vec![15.0]);
}

#[test]
fn product_matches_naive_product() {
    let (m, k, n) = (4usize, 5usize, 3usize);
    let mut seed: u32 = 12345;
    let mut next = || {
        seed = seed.wrapping_mul(1103515245).wrapping_add(12345);
        ((seed >> 16) % 1000) as f32 / 100.0 - 5.0
    };
    let a = matrix(m, k, (0..m * k).map(|_| next()).collect());
    let b = matrix(k, n, (0..k * n).map(|_| next()).collect());
    let (r, _) = compute(&a, &b, None);
    let c = r.unwrap();
    let want = naive_product(&a, &b);
    assert_eq!(c.data.len(), want.len());
    for (x, y) in c.data.iter().zip(want.iter()) {
        assert!((x - y).abs() <= 1e-4 * y.abs().max(1.0), "{} != {}", x, y);
    }
}

#[test]
fn mismatched_inner_dimensions_are_rejected_before_any_call() {
    let a = matrix(2, 3, vec![1.0; 6]);
    let b = matrix(2, 2, vec![1.0; 4]);
    let (r, sim) = compute(&a, &b, None);
    let e = r.unwrap_err();
    assert_eq!(e.kind, ErrorKind::PreconditionViolation);
    assert_eq!(e.subsystem, Subsystem::Host);
    assert!(sim.log.is_empty());
}

#[test]
fn zero_dimension_is_rejected() {
    let a = matrix(0, 3, vec![]);
    let b = matrix(3, 2, vec![1.0; 6]);
    let (r, sim) = compute(&a, &b, None);
    assert_eq!(r.unwrap_err().kind, ErrorKind::PreconditionViolation);
    assert!(sim.log.is_empty());
}

#[test]
fn element_count_must_match_dimensions() {
    let e = Matrix::new(2, 2, vec![1.0f32; 3]).unwrap_err();
    assert_eq!(e.kind, ErrorKind::PreconditionViolation);
}

#[test]
fn second_allocation_failure_releases_the_first_buffer() {
    let a = matrix(2, 3, vec![1.0, 2.0, 3.0, 4.0, 5.0, 6.0]);
    let b = matrix(3, 2, vec![7.0, 8.0, 9.0, 10.0, 11.0, 12.0]);
    let (r, sim) = compute(&a, &b, Some(2));
    let e = r.unwrap_err();
    assert_eq!(e.kind, ErrorKind::AllocationFailure);
    assert_eq!(e.subsystem, Subsystem::Runtime);
    assert_eq!(e.code, 2);
    assert_eq!(e.label, "status 2");
    assert_eq!(sim.buffers_allocated, 1);
    assert_eq!(sim.buffers_released, 1);
    assert_eq!(sim.live_buffers(), 0);
    assert_eq!(
        sim.log,
        vec![
            Action::BindDevice { device: 0 },
            Action::Allocate { slot: Slot::A, bytes: 24 },
            Action::Allocate { slot: Slot::B, bytes: 24 },
            Action::Release { slot: Slot::A },
        ]
    );
}

#[test]
fn every_failure_point_releases_everything() {
    let a = matrix(2, 3, vec![1.0, 2.0, 3.0, 4.0, 5.0, 6.0]);
    let b = matrix(3, 2, vec![7.0, 8.0, 9.0, 10.0, 11.0, 12.0]);
    let kinds = [
        ErrorKind::DeviceError,
        ErrorKind::AllocationFailure,
        ErrorKind::AllocationFailure,
        ErrorKind::AllocationFailure,
        ErrorKind::TransferFailure,
        ErrorKind::TransferFailure,
        ErrorKind::HandleError,
        ErrorKind::ComputeFailure,
        ErrorKind::TransferFailure,
        ErrorKind::HandleError,
        ErrorKind::AllocationFailure,
        ErrorKind::AllocationFailure,
        ErrorKind::AllocationFailure,
    ];
    for (call, kind) in kinds.iter().enumerate() {
        let (r, sim) = compute(&a, &b, Some(call));
        assert_eq!(r.unwrap_err().kind, *kind, "failure at call {}", call);
        assert_eq!(sim.handles_created, sim.handles_destroyed);
        assert!(sim.handles_destroyed <= 1);
        assert_eq!(sim.buffers_allocated, sim.buffers_released);
        assert_eq!(sim.live_buffers(), 0);
        assert!(!sim.handle_live);
    }
}

#[test]
fn successful_run_asks_for_calls_in_order() {
    let a = matrix(2, 3, vec![1.0, 2.0, 3.0, 4.0, 5.0, 6.0]);
    let b = matrix(3, 2, vec![7.0, 8.0, 9.0, 10.0, 11.0, 12.0]);
    let (r, sim) = compute(&a, &b, None);
    assert!(r.is_ok());
    assert_eq!(
        sim.log,
        vec![
            Action::BindDevice { device: 0 },
            Action::Allocate { slot: Slot::A, bytes: 24 },
            Action::Allocate { slot: Slot::B, bytes: 24 },
            Action::Allocate { slot: Slot::C, bytes: 16 },
            Action::CopyToDevice { slot: Slot::A, bytes: 24 },
            Action::CopyToDevice { slot: Slot::B, bytes: 24 },
            Action::CreateHandle,
            Action::Gemm {
                op_a: Op::Plain,
                op_b: Op::Plain,
                m: 2,
                n: 2,
                k: 3,
                lda: 2,
                ldb: 3,
                ldc: 2,
            },
            Action::CopyToHost { slot: Slot::C, bytes: 16 },
            Action::DestroyHandle,
            Action::Release { slot: Slot::C },
            Action::Release { slot: Slot::B },
            Action::Release { slot: Slot::A },
        ]
    );
    assert_eq!(sim.handles_created, 1);
    assert_eq!(sim.handles_destroyed, 1);
}

#[test]
fn gemm_failure_destroys_the_handle() {
    let a = matrix(1, 1, vec![5.0]);
    let b = matrix(1, 1, vec![3.0]);
    let (r, sim) = compute(&a, &b, Some(7));
    let e = r.unwrap_err();
    assert_eq!(e.kind, ErrorKind::ComputeFailure);
    assert_eq!(e.subsystem, Subsystem::Blas);
    assert_eq!(e.code, 13);
    assert_eq!(sim.handles_destroyed, 1);
    assert_eq!(sim.live_buffers(), 0);
}

#[test]
fn release_failure_after_success_still_releases_the_rest() {
    let a = matrix(1, 1, vec![5.0]);
    let b = matrix(1, 1, vec![3.0]);
    let (r, sim) = compute(&a, &b, Some(10));
    let e = r.unwrap_err();
    assert_eq!(e.kind, ErrorKind::AllocationFailure);
    assert_eq!(e.subsystem, Subsystem::Runtime);
    assert_eq!(sim.buffers_released, 3);
    assert_eq!(sim.live_buffers(), 0);
}

#[test]
fn first_failure_wins() {
    let a = matrix(1, 1, vec![5.0]);
    let b = matrix(1, 1, vec![3.0]);
    let mut inv = Invocation::new(&a, &b, 0).unwrap();
    let mut codes = vec![0, 0, 0, 0, 0, 0, 0, 13, 14, 1, 1, 1];
    codes.reverse();
    while !inv.is_finished() {
        let code = codes.pop().unwrap();
        inv.record(code, format!("status {}", code));
    }
    let e = inv.finish(vec![]).unwrap_err();
    assert_eq!(e.kind, ErrorKind::ComputeFailure);
    assert_eq!(e.code, 13);
}

#[test]
fn short_download_is_a_transfer_failure() {
    let a = matrix(1, 2, vec![1.0, 2.0]);
    let b = matrix(2, 2, vec![1.0, 0.0, 0.0, 1.0]);
    let mut inv = Invocation::new(&a, &b, 0).unwrap();
    assert_eq!(inv.result_len(), 2);
    while !inv.is_finished() {
        inv.record(0, String::new());
    }
    let e = inv.finish(vec![1.0]).unwrap_err();
    assert_eq!(e.kind, ErrorKind::TransferFailure);
    assert_eq!(e.subsystem, Subsystem::Host);
}

#[test]
fn device_index_is_passed_on() {
    let a = matrix(1, 1, vec![5.0]);
    let b = matrix(1, 1, vec![3.0]);
    let inv = Invocation::new(&a, &b, 3).unwrap();
    assert_eq!(inv.next_action(), Action::BindDevice { device: 3 });
}
