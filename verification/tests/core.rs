use opencl_mm::error::Error;
use opencl_mm::gen;
use opencl_mm::matmul::mul_ref;
use opencl_mm::scope::elapsed;
use opencl_mm::scope::setup_cleanup;
use opencl_mm::scope::setup_error;
use opencl_mm::scope::teardown_outcome;
use opencl_mm::scope::ElemKind;
use opencl_mm::scope::Matrix;
use opencl_mm::scope::Resource;
use opencl_mm::scope::Scope;
use opencl_mm::scope::SetupStage;
use opencl_mm::scope::Step;

fn naive_mul(n: usize, m: usize, k: usize, a: &[i64], b: &[i64]) -> Vec<i64> {
    let mut c = vec![0i64; n * k];
    for i in 0..n {
        for j in 0..k {
            let mut acc = 0i64;
            for t in 0..m {
                acc += a[i * m + t] * b[t * k + j];
            }
            c[i * k + j] = acc;
        }
    }
    c
}

#[test]
fn get_set_inside_and_outside_bounds() {
    let mut s = Scope::new();
    let mut m: Matrix<i64> = s.create_with(2, 3, vec![1, 2, 3, 4, 5, 6]);
    assert_eq!(m.get(0, 0), Some(&1));
    assert_eq!(m.get(1, 2), Some(&6));
    assert_eq!(m.get(2, 0), None);
    assert_eq!(m.get(0, 3), None);
    assert_eq!(m.get(usize::MAX, usize::MAX), None);
    assert_eq!(m.set(1, 1, 42), Some(()));
    assert_eq!(m.get(1, 1), Some(&42));
    assert_eq!(m.set(2, 0, 7), None);
    assert_eq!(m.set(0, 3, 7), None);
    assert_eq!(m.host(), &vec![1, 2, 3, 4, 42, 6]);
}

#[test]
fn stage_then_retrieve_is_identity() {
    let mut s = Scope::new();
    let data = vec![9i64, 8, 7, 6];
    let mut m: Matrix<i64> = s.create_with(2, 2, data.clone());
    let staged = m.stage();
    assert_eq!(staged, data);
    m.retrieve(staged);
    assert_eq!(m.host(), &data);
}

#[test]
fn create_is_zero_initialized() {
    let mut s = Scope::new();
    let m: Matrix<u16> = s.create(3, 5);
    assert_eq!(m.rows(), 3);
    assert_eq!(m.cols(), 5);
    assert_eq!(m.host(), &vec![0u16; 15]);
}

#[test]
fn teardown_releases_every_buffer_once_in_order() {
    let mut s = Scope::new();
    let _a: Matrix<i32> = s.create(4, 4);
    let _b: Matrix<i32> = s.create(4, 4);
    let _c: Matrix<i32> = s.create(4, 4);
    assert_eq!(s.buffer_count(), 3);
    let ord = s.teardown_order();
    assert_eq!(
        ord,
        vec![
            Resource::Buffer(0),
            Resource::Buffer(1),
            Resource::Buffer(2),
            Resource::Program,
            Resource::Queue,
            Resource::Context,
            Resource::Device,
        ]
    );
    for id in 0..3 {
        let hits = ord.iter().filter(|r| **r == Resource::Buffer(id)).count();
        assert_eq!(hits, 1);
    }
}

#[test]
fn teardown_outcome_is_best_effort() {
    assert_eq!(teardown_outcome(&vec![true, true, true]), Ok(()));
    assert_eq!(teardown_outcome(&vec![]), Ok(()));
    assert_eq!(
        teardown_outcome(&vec![true, false, true]),
        Err(Error::TeardownFailed)
    );
    assert_eq!(
        teardown_outcome(&vec![false, false]),
        Err(Error::TeardownFailed)
    );
}

#[test]
fn setup_failure_maps_to_its_error_and_cleanup() {
    assert_eq!(setup_error(SetupStage::Platform), Error::PlatformUnavailable);
    assert_eq!(setup_error(SetupStage::Device), Error::DeviceUnavailable);
    assert_eq!(setup_error(SetupStage::Context), Error::ContextCreationFailed);
    assert_eq!(setup_error(SetupStage::Queue), Error::QueueCreationFailed);
    assert_eq!(setup_error(SetupStage::ProgramCreate), Error::ProgramBuildFailed);
    assert_eq!(setup_error(SetupStage::ProgramBuild), Error::ProgramBuildFailed);
    assert_eq!(setup_cleanup(SetupStage::Platform), vec![]);
    assert_eq!(setup_cleanup(SetupStage::Device), vec![]);
    assert_eq!(setup_cleanup(SetupStage::Context), vec![Resource::Device]);
    assert_eq!(
        setup_cleanup(SetupStage::Queue),
        vec![Resource::Context, Resource::Device]
    );
    assert_eq!(
        setup_cleanup(SetupStage::ProgramBuild),
        vec![
            Resource::Program,
            Resource::Queue,
            Resource::Context,
            Resource::Device,
        ]
    );
}

#[test]
fn kernel_names_follow_the_convention() {
    assert_eq!(ElemKind::I8.kernel_name(), "mul_i8");
    assert_eq!(ElemKind::I16.kernel_name(), "mul_i16");
    assert_eq!(ElemKind::I32.kernel_name(), "mul_i32");
    assert_eq!(ElemKind::I64.kernel_name(), "mul_i64");
    assert_eq!(ElemKind::U8.kernel_name(), "mul_u8");
    assert_eq!(ElemKind::U16.kernel_name(), "mul_u16");
    assert_eq!(ElemKind::U32.kernel_name(), "mul_u32");
    assert_eq!(ElemKind::U64.kernel_name(), "mul_u64");
    assert_eq!(ElemKind::I64.bytes(), 8);
    assert_eq!(ElemKind::U8.bytes(), 1);
}

#[test]
fn try_mul_emits_the_exact_dispatch_sequence() {
    let mut s = Scope::new();
    let a: Matrix<i32> = s.create_with(8, 4, (0..32).collect());
    let b: Matrix<i32> = s.create_with(4, 8, (0..32).collect());
    let (out, steps) = a.try_mul(&b, &mut s);
    assert_eq!(out.rows(), 8);
    assert_eq!(out.cols(), 8);
    assert_eq!(out.host(), &vec![0i32; 64]);
    assert_eq!(out.buf_id(), 2);
    assert_eq!(s.buffer_count(), 3);
    assert_eq!(
        steps,
        vec![
            Step::Stage { buf: 0, bytes: 32 * 4 },
            Step::Stage { buf: 1, bytes: 32 * 4 },
            Step::CreateKernel { kind: ElemKind::I32 },
            Step::SetArgInt { index: 0, value: 8 },
            Step::SetArgInt { index: 1, value: 4 },
            Step::SetArgInt { index: 2, value: 8 },
            Step::SetArgBuf { index: 3, buf: 0 },
            Step::SetArgBuf { index: 4, buf: 1 },
            Step::SetArgBuf { index: 5, buf: 2 },
            Step::Dispatch {
                global_rows: 8,
                global_cols: 8,
                local_rows: 4,
                local_cols: 4,
            },
            Step::Retrieve { buf: 2, bytes: 64 * 4 },
            Step::Finish,
            Step::ReadProfile,
            Step::ReleaseEvent,
            Step::ReleaseKernel,
        ]
    );
}

#[test]
fn gen_yields_elements_in_range() {
    let m = gen(10, 7, -5, 5);
    assert_eq!(m.len(), 70);
    assert!(m.iter().all(|&x| -5 <= x && x < 5));
    let one = gen(1, 1, 3, 4);
    assert_eq!(one, vec![3]);
}

#[test]
fn reference_multiply_is_exact() {
    let a = vec![1i64, 2, 3, 4, 5, 6];
    let b = vec![7i64, 8, 9, 10, 11, 12];
    let c = mul_ref(2, 3, 2, &a, &b);
    assert_eq!(c, vec![58, 64, 139, 154]);
}

#[test]
fn reference_multiply_covers_other_element_types() {
    let c = mul_ref(2, 2, 1, &vec![2u8, 3, 1, 4], &vec![5u8, 6]);
    assert_eq!(c, vec![28, 29]);
    let c = mul_ref(1, 1, 1, &vec![-3i8], &vec![5i8]);
    assert_eq!(c, vec![-15]);
    let c = mul_ref(1, 2, 2, &vec![7u64, 9], &vec![1u64, 2, 3, 4]);
    assert_eq!(c, vec![34, 50]);
}

#[test]
fn hundred_square_integer_multiply_matches_reference() {
    let a = gen(100, 100, 0, 100);
    let b = gen(100, 100, 0, 100);
    let c = mul_ref(100, 100, 100, &a, &b);
    assert_eq!(c, naive_mul(100, 100, 100, &a, &b));
}

#[test]
fn simulated_session_runs_a_multiply_scope() {
    // A session whose device is simulated: buffers live in a table, the
    // kernel is the multiply-accumulate formula. The run mirrors the
    // runner's obligations: perform each step in order, then tear down.
    let mut s = Scope::new();
    let n = 8usize;
    let m = 4usize;
    let k = 4usize;
    let a_data = gen(n, m, 0, 100);
    let b_data = gen(m, k, 0, 100);
    let a: Matrix<i64> = s.create_with(n, m, a_data.clone());
    let b: Matrix<i64> = s.create_with(m, k, b_data.clone());
    let (mut out, steps) = a.try_mul(&b, &mut s);

    let mut device: Vec<Option<Vec<i64>>> = vec![None; s.buffer_count()];
    let mut kernel: Option<ElemKind> = None;
    let mut retrieved: Option<Vec<i64>> = None;
    for step in steps {
        match step {
            Step::Stage { buf, bytes } => {
                let host = if buf == a.buf_id() { &a } else { &b };
                assert_eq!(bytes, host.rows() * host.cols() * 8);
                device[buf] = Some(host.host().clone());
            }
            Step::CreateKernel { kind } => {
                assert_eq!(kind, ElemKind::I64);
                kernel = Some(kind);
            }
            Step::SetArgInt { .. } | Step::SetArgBuf { .. } => {}
            Step::Dispatch {
                global_rows,
                global_cols,
                local_rows,
                local_cols,
            } => {
                assert!(kernel.is_some());
                assert_eq!((local_rows, local_cols), (4, 4));
                assert_eq!(global_rows % local_rows, 0);
                assert_eq!(global_cols % local_cols, 0);
                let left = device[a.buf_id()].clone().unwrap();
                let right = device[b.buf_id()].clone().unwrap();
                device[out.buf_id()] = Some(naive_mul(n, m, k, &left, &right));
            }
            Step::Retrieve { buf, bytes } => {
                assert_eq!(buf, out.buf_id());
                assert_eq!(bytes, n * k * 8);
                retrieved = device[buf].clone();
            }
            Step::Finish | Step::ReadProfile | Step::ReleaseEvent | Step::ReleaseKernel => {}
        }
    }
    out.retrieve(retrieved.unwrap());
    assert_eq!(out.host(), &mul_ref(n, m, k, &a_data, &b_data));

    let ord = s.teardown_order();
    assert_eq!(ord.len(), s.buffer_count() + 4);
    assert_eq!(teardown_outcome(&vec![true; ord.len()]), Ok(()));
}

#[test]
fn forced_failure_surfaces_its_error_and_still_tears_down() {
    // Device absence at construction: the scope reports the stage's
    // error and has nothing to release.
    assert_eq!(setup_error(SetupStage::Platform), Error::PlatformUnavailable);
    assert_eq!(setup_cleanup(SetupStage::Platform), vec![]);
    // A session with one matrix whose later allocation fails: every
    // tracked buffer is still in the release order, and a failed
    // release is reported after the full attempt.
    let mut s = Scope::new();
    let _m: Matrix<u8> = s.create(4, 4);
    let ord = s.teardown_order();
    assert_eq!(ord[0], Resource::Buffer(0));
    assert_eq!(ord.len(), 5);
    let oks: Vec<bool> = ord.iter().map(|r| *r != Resource::Buffer(0)).collect();
    assert_eq!(teardown_outcome(&oks), Err(Error::TeardownFailed));
    assert_eq!(s.buffer_size(0), Some(16));
    assert_eq!(s.buffer_size(1), None);
}

#[test]
fn elapsed_is_the_timestamp_difference() {
    assert_eq!(elapsed(5, 12), 7);
    assert_eq!(elapsed(100, 100), 0);
}
