use vstd::prelude::*;

use crate::error::Error;

verus! {

/// The closed set of element types the device kernels support.
/// Kernel selection is a tagged dispatch over this enum: each variant
/// corresponds to one compiled kernel entry point.
#[derive(Clone, Copy, Debug, PartialEq, Eq, Structural)]
pub enum ElemKind {
    I8,
    I16,
    I32,
    I64,
    U8,
    U16,
    U32,
    U64,
}

impl ElemKind {
    /// Bytes one element of this kind occupies, on the host and in the
    /// device buffer alike.
    pub open spec fn bytes_spec(self) -> nat {
        match self {
            ElemKind::I8 => 1,
            ElemKind::I16 => 2,
            ElemKind::I32 => 4,
            ElemKind::I64 => 8,
            ElemKind::U8 => 1,
            ElemKind::U16 => 2,
            ElemKind::U32 => 4,
            ElemKind::U64 => 8,
        }
    }

    pub fn bytes(self) -> (n: usize)
        ensures
            n == self.bytes_spec(),
    {
        match self {
            ElemKind::I8 => 1,
            ElemKind::I16 => 2,
            ElemKind::I32 => 4,
            ElemKind::I64 => 8,
            ElemKind::U8 => 1,
            ElemKind::U16 => 2,
            ElemKind::U32 => 4,
            ElemKind::U64 => 8,
        }
    }

    /// The kernel entry point for this element kind, following the
    /// fixed `mul_<type-name>` naming convention.
    pub open spec fn kernel_name_spec(self) -> Seq<char> {
        match self {
            ElemKind::I8 => "mul_i8"@,
            ElemKind::I16 => "mul_i16"@,
            ElemKind::I32 => "mul_i32"@,
            ElemKind::I64 => "mul_i64"@,
            ElemKind::U8 => "mul_u8"@,
            ElemKind::U16 => "mul_u16"@,
            ElemKind::U32 => "mul_u32"@,
            ElemKind::U64 => "mul_u64"@,
        }
    }

    pub fn kernel_name(self) -> (r: &'static str)
        ensures
            r@ == self.kernel_name_spec(),
    {
        match self {
            ElemKind::I8 => "mul_i8",
            ElemKind::I16 => "mul_i16",
            ElemKind::I32 => "mul_i32",
            ElemKind::I64 => "mul_i64",
            ElemKind::U8 => "mul_u8",
            ElemKind::U16 => "mul_u16",
            ElemKind::U32 => "mul_u32",
            ElemKind::U64 => "mul_u64",
        }
    }
}

/// An element type the multiply supports: it has a mathematical value,
/// a bounded range, exact (overflow-checked) addition and
/// multiplication, and a kernel-selection tag.
pub trait MMul: Sized + Copy {
    /// The mathematical value of this element.
    spec fn sval(self) -> int;

    /// Smallest value the element type can hold.
    spec fn min_val() -> int;

    /// Largest value the element type can hold.
    spec fn max_val() -> int;

    /// The kernel-selection tag of this element type.
    spec fn kind_spec() -> ElemKind;

    proof fn range_properties()
        ensures
            Self::min_val() <= 0 < Self::max_val(),
    ;

    fn kind() -> (k: ElemKind)
        ensures
            k == Self::kind_spec(),
    ;

    fn zero() -> (r: Self)
        ensures
            r.sval() == 0,
    ;

    fn add_el(self, o: Self) -> (r: Self)
        requires
            Self::min_val() <= self.sval() + o.sval() <= Self::max_val(),
        ensures
            r.sval() == self.sval() + o.sval(),
    ;

    fn mul_el(self, o: Self) -> (r: Self)
        requires
            Self::min_val() <= self.sval() * o.sval() <= Self::max_val(),
        ensures
            r.sval() == self.sval() * o.sval(),
    ;
}

impl MMul for i8 {
    open spec fn sval(self) -> int {
        self as int
    }

    open spec fn min_val() -> int {
        i8::MIN as int
    }

    open spec fn max_val() -> int {
        i8::MAX as int
    }

    open spec fn kind_spec() -> ElemKind {
        ElemKind::I8
    }

    proof fn range_properties() {
    }

    fn kind() -> ElemKind {
        ElemKind::I8
    }

    fn zero() -> i8 {
        0
    }

    fn add_el(self, o: i8) -> i8 {
        self + o
    }

    fn mul_el(self, o: i8) -> i8 {
        self * o
    }
}

impl MMul for i16 {
    open spec fn sval(self) -> int {
        self as int
    }

    open spec fn min_val() -> int {
        i16::MIN as int
    }

    open spec fn max_val() -> int {
        i16::MAX as int
    }

    open spec fn kind_spec() -> ElemKind {
        ElemKind::I16
    }

    proof fn range_properties() {
    }

    fn kind() -> ElemKind {
        ElemKind::I16
    }

    fn zero() -> i16 {
        0
    }

    fn add_el(self, o: i16) -> i16 {
        self + o
    }

    fn mul_el(self, o: i16) -> i16 {
        self * o
    }
}

impl MMul for i32 {
    open spec fn sval(self) -> int {
        self as int
    }

    open spec fn min_val() -> int {
        i32::MIN as int
    }

    open spec fn max_val() -> int {
        i32::MAX as int
    }

    open spec fn kind_spec() -> ElemKind {
        ElemKind::I32
    }

    proof fn range_properties() {
    }

    fn kind() -> ElemKind {
        ElemKind::I32
    }

    fn zero() -> i32 {
        0
    }

    fn add_el(self, o: i32) -> i32 {
        self + o
    }

    fn mul_el(self, o: i32) -> i32 {
        self * o
    }
}

impl MMul for i64 {
    open spec fn sval(self) -> int {
        self as int
    }

    open spec fn min_val() -> int {
        i64::MIN as int
    }

    open spec fn max_val() -> int {
        i64::MAX as int
    }

    open spec fn kind_spec() -> ElemKind {
        ElemKind::I64
    }

    proof fn range_properties() {
    }

    fn kind() -> ElemKind {
        ElemKind::I64
    }

    fn zero() -> i64 {
        0
    }

    fn add_el(self, o: i64) -> i64 {
        self + o
    }

    fn mul_el(self, o: i64) -> i64 {
        self * o
    }
}

impl MMul for u8 {
    open spec fn sval(self) -> int {
        self as int
    }

    open spec fn min_val() -> int {
        0
    }

    open spec fn max_val() -> int {
        u8::MAX as int
    }

    open spec fn kind_spec() -> ElemKind {
        ElemKind::U8
    }

    proof fn range_properties() {
    }

    fn kind() -> ElemKind {
        ElemKind::U8
    }

    fn zero() -> u8 {
        0
    }

    fn add_el(self, o: u8) -> u8 {
        self + o
    }

    fn mul_el(self, o: u8) -> u8 {
        self * o
    }
}

impl MMul for u16 {
    open spec fn sval(self) -> int {
        self as int
    }

    open spec fn min_val() -> int {
        0
    }

    open spec fn max_val() -> int {
        u16::MAX as int
    }

    open spec fn kind_spec() -> ElemKind {
        ElemKind::U16
    }

    proof fn range_properties() {
    }

    fn kind() -> ElemKind {
        ElemKind::U16
    }

    fn zero() -> u16 {
        0
    }

    fn add_el(self, o: u16) -> u16 {
        self + o
    }

    fn mul_el(self, o: u16) -> u16 {
        self * o
    }
}

impl MMul for u32 {
    open spec fn sval(self) -> int {
        self as int
    }

    open spec fn min_val() -> int {
        0
    }

    open spec fn max_val() -> int {
        u32::MAX as int
    }

    open spec fn kind_spec() -> ElemKind {
        ElemKind::U32
    }

    proof fn range_properties() {
    }

    fn kind() -> ElemKind {
        ElemKind::U32
    }

    fn zero() -> u32 {
        0
    }

    fn add_el(self, o: u32) -> u32 {
        self + o
    }

    fn mul_el(self, o: u32) -> u32 {
        self * o
    }
}

impl MMul for u64 {
    open spec fn sval(self) -> int {
        self as int
    }

    open spec fn min_val() -> int {
        0
    }

    open spec fn max_val() -> int {
        u64::MAX as int
    }

    open spec fn kind_spec() -> ElemKind {
        ElemKind::U64
    }

    proof fn range_properties() {
    }

    fn kind() -> ElemKind {
        ElemKind::U64
    }

    fn zero() -> u64 {
        0
    }

    fn add_el(self, o: u64) -> u64 {
        self + o
    }

    fn mul_el(self, o: u64) -> u64 {
        self * o
    }
}

/// A fixed-shape matrix pairing host-resident data (row-major) with a
/// device buffer tracked by the owning session. The device buffer is
/// referenced by its handle id in the session's table and is released
/// by the session, never by the matrix.
pub struct Matrix<T> {
    rows: usize,
    cols: usize,
    data: Vec<T>,
    buf: usize,
}

impl<T: MMul> Matrix<T> {
    pub closed spec fn rows_spec(self) -> int {
        self.rows as int
    }

    pub closed spec fn cols_spec(self) -> int {
        self.cols as int
    }

    /// The handle id of the device buffer in the owning session's table.
    pub closed spec fn buf_spec(self) -> int {
        self.buf as int
    }

    /// The mathematical values of the host-resident elements, row-major.
    pub closed spec fn view_data(self) -> Seq<int> {
        self.data@.map_values(|x: T| x.sval())
    }

    /// Well-formedness: the host array holds exactly `rows * cols`
    /// elements and the device buffer's byte size fits the machine.
    pub closed spec fn wf(self) -> bool {
        &&& self.data@.len() == self.rows_spec() * self.cols_spec()
        &&& self.rows_spec() * self.cols_spec() * T::kind_spec().bytes_spec() <= usize::MAX
    }

    /// The element at row `i`, column `j`.
    pub open spec fn at(self, i: int, j: int) -> int {
        self.view_data()[i * self.cols_spec() + j]
    }

    pub fn rows(&self) -> (r: usize)
        ensures
            r == self.rows_spec(),
    {
        self.rows
    }

    pub fn cols(&self) -> (r: usize)
        ensures
            r == self.cols_spec(),
    {
        self.cols
    }

    pub fn buf_id(&self) -> (r: usize)
        ensures
            r == self.buf_spec(),
    {
        self.buf
    }

    /// Bounds-checked host-side read: absent outside
    /// `[0, rows) x [0, cols)`, never a fault.
    pub fn get(&self, i: usize, j: usize) -> (r: Option<&T>)
        requires
            self.wf(),
        ensures
            i < self.rows_spec() && j < self.cols_spec() ==> r is Some && r->Some_0.sval()
                == self.at(i as int, j as int),
            !(i < self.rows_spec() && j < self.cols_spec()) ==> r is None,
    {
        if i < self.rows && j < self.cols {
            proof {
                lemma_row_major_index_in_range(self.rows as int, self.cols as int, i as int, j as int);
            }
            let idx: usize = i * self.cols + j;
            Some(&self.data[idx])
        } else {
            None
        }
    }

    /// Bounds-checked host-side write: absent outside
    /// `[0, rows) x [0, cols)`, in which case the matrix is unchanged.
    pub fn set(&mut self, i: usize, j: usize, v: T) -> (r: Option<()>)
        requires
            old(self).wf(),
        ensures
            final(self).wf(),
            final(self).rows_spec() == old(self).rows_spec(),
            final(self).cols_spec() == old(self).cols_spec(),
            final(self).buf_spec() == old(self).buf_spec(),
            i < old(self).rows_spec() && j < old(self).cols_spec() ==> {
                &&& r is Some
                &&& final(self).view_data() == old(self).view_data().update(
                    i * old(self).cols_spec() + j,
                    v.sval(),
                )
            },
            !(i < old(self).rows_spec() && j < old(self).cols_spec()) ==> {
                &&& r is None
                &&& final(self).view_data() == old(self).view_data()
            },
    {
        if i < self.rows && j < self.cols {
            proof {
                lemma_row_major_index_in_range(self.rows as int, self.cols as int, i as int, j as int);
            }
            let idx: usize = i * self.cols + j;
            self.data.set(idx, v);
            proof {
                assert(self.view_data() =~= old(self).view_data().update(
                    i * self.cols_spec() + j,
                    v.sval(),
                ));
            }
            Some(())
        } else {
            None
        }
    }

    /// Read-only view of the current host-resident array.
    pub fn host(&self) -> (r: &Vec<T>)
        ensures
            r@.len() == self.view_data().len(),
            forall|t: int| 0 <= t < r@.len() ==> #[trigger] r@[t].sval() == self.view_data()[t],
    {
        &self.data
    }

    /// The data a staging (host to device) transfer writes into the
    /// device buffer: a copy of the current host array.
    pub fn stage(&self) -> (r: Vec<T>)
        ensures
            r@.map_values(|x: T| x.sval()) == self.view_data(),
    {
        let mut r: Vec<T> = Vec::new();
        let n: usize = self.data.len();
        let mut i: usize = 0;
        while i < n
            invariant
                i <= n,
                n == self.data.len(),
                r@ =~= self.data@.take(i as int),
            decreases n - i,
        {
            r.push(self.data[i]);
            proof {
                assert(r@ =~= self.data@.take(i + 1 as int));
            }
            i = i + 1;
        }
        proof {
            assert(self.data@.take(n as int) =~= self.data@);
            assert(r@.map_values(|x: T| x.sval()) =~= self.view_data());
        }
        r
    }

    /// Install data read back from the device buffer (device to host)
    /// into the host array; the shape and the buffer binding are
    /// untouched.
    pub fn retrieve(&mut self, device_data: Vec<T>)
        requires
            old(self).wf(),
            device_data@.len() == old(self).rows_spec() * old(self).cols_spec(),
        ensures
            final(self).wf(),
            final(self).rows_spec() == old(self).rows_spec(),
            final(self).cols_spec() == old(self).cols_spec(),
            final(self).buf_spec() == old(self).buf_spec(),
            final(self).view_data() == device_data@.map_values(|x: T| x.sval()),
    {
        self.data = device_data;
    }
}

/// One step of the multiply dispatch, addressed to the device. The
/// session's runner performs them in order; buffers are named by their
/// handle id in the session's table.
#[derive(Clone, Copy, Debug, PartialEq, Eq, Structural)]
pub enum Step {
    /// Blocking host-to-device copy of a full buffer.
    Stage { buf: usize, bytes: usize },
    /// Create the kernel object for the entry point of this kind.
    CreateKernel { kind: ElemKind },
    /// Bind a 32-bit signed integer kernel parameter.
    SetArgInt { index: u32, value: i32 },
    /// Bind a buffer kernel parameter.
    SetArgBuf { index: u32, buf: usize },
    /// Enqueue the kernel over a 2-D index space with the fixed local
    /// work-group shape.
    Dispatch { global_rows: usize, global_cols: usize, local_rows: usize, local_cols: usize },
    /// Blocking device-to-host copy of a full buffer.
    Retrieve { buf: usize, bytes: usize },
    /// Block until the queue has finished all outstanding work.
    Finish,
    /// Read the dispatch's start and end timestamps from its profiling
    /// event and report the elapsed duration.
    ReadProfile,
    /// Release the profiling event.
    ReleaseEvent,
    /// Release the kernel object.
    ReleaseKernel,
}

/// The exact step sequence of one multiply of an `n x m` matrix by an
/// `m x k` matrix: stage both operands, resolve the kernel for the
/// element kind, bind `n`, `m`, `k` and the three buffers in fixed
/// order, dispatch an `n x k` grid in `4 x 4` work-groups, read the
/// output back, wait for the queue, report timing, then release the
/// event and the kernel.
pub open spec fn mul_steps_spec(
    n: int,
    m: int,
    k: int,
    left_buf: int,
    left_bytes: int,
    right_buf: int,
    right_bytes: int,
    out_buf: int,
    out_bytes: int,
    kind: ElemKind,
) -> Seq<Step> {
    seq![
        Step::Stage { buf: left_buf as usize, bytes: left_bytes as usize },
        Step::Stage { buf: right_buf as usize, bytes: right_bytes as usize },
        Step::CreateKernel { kind },
        Step::SetArgInt { index: 0, value: n as i32 },
        Step::SetArgInt { index: 1, value: m as i32 },
        Step::SetArgInt { index: 2, value: k as i32 },
        Step::SetArgBuf { index: 3, buf: left_buf as usize },
        Step::SetArgBuf { index: 4, buf: right_buf as usize },
        Step::SetArgBuf { index: 5, buf: out_buf as usize },
        Step::Dispatch {
            global_rows: n as usize,
            global_cols: k as usize,
            local_rows: 4,
            local_cols: 4,
        },
        Step::Retrieve { buf: out_buf as usize, bytes: out_bytes as usize },
        Step::Finish,
        Step::ReadProfile,
        Step::ReleaseEvent,
        Step::ReleaseKernel,
    ]
}

/// One session-owned native resource, named abstractly: a tracked
/// device buffer (by handle id), the compiled program, the command
/// queue, the context, or the device handle.
#[derive(Clone, Copy, Debug, PartialEq, Eq, Structural)]
pub enum Resource {
    Buffer(usize),
    Program,
    Queue,
    Context,
    Device,
}

/// The device session: it owns every device-level handle and tracks
/// each buffer it hands out, so that all of them are released together,
/// exactly once, at teardown. Here the session keeps the byte size of
/// every tracked buffer; handle ids are indices into this table.
pub struct Scope {
    buffers: Vec<usize>,
}

/// The order in which a session with `n` tracked buffers releases its
/// resources at teardown: every buffer first, then the program, the
/// queue, the context and the device.
pub open spec fn teardown_order_spec(n: int) -> Seq<Resource> {
    Seq::new(n as nat, |i: int| Resource::Buffer(i as usize)) + seq![
        Resource::Program,
        Resource::Queue,
        Resource::Context,
        Resource::Device,
    ]
}

impl Scope {
    /// Byte sizes of the tracked buffers; a buffer's handle id is its
    /// index here.
    pub closed spec fn buffers_spec(self) -> Seq<int> {
        self.buffers@.map_values(|s: usize| s as int)
    }

    pub open spec fn n_buffers(self) -> int {
        self.buffers_spec().len() as int
    }

    /// A fresh session tracking no buffers yet.
    pub fn new() -> (s: Scope)
        ensures
            s.n_buffers() == 0,
    {
        Scope { buffers: Vec::new() }
    }

    pub fn buffer_count(&self) -> (r: usize)
        ensures
            r == self.n_buffers(),
    {
        self.buffers.len()
    }

    /// Byte size of the tracked buffer with the given handle id;
    /// absent for an id the session never handed out.
    pub fn buffer_size(&self, id: usize) -> (r: Option<usize>)
        ensures
            id < self.n_buffers() ==> r is Some && r->Some_0 == self.buffers_spec()[id as int],
            id >= self.n_buffers() ==> r is None,
    {
        if id < self.buffers.len() {
            Some(self.buffers[id])
        } else {
            None
        }
    }

    /// Record a device buffer of `size` bytes in the session's table
    /// and hand out its id. The record is made before the id is
    /// returned, so a partially-failed caller still tears down
    /// correctly.
    pub fn get_mem(&mut self, size: usize) -> (id: usize)
        ensures
            final(self).buffers_spec() == old(self).buffers_spec().push(size as int),
            id == old(self).n_buffers(),
    {
        let id = self.buffers.len();
        self.buffers.push(size);
        proof {
            assert(self.buffers_spec() =~= old(self).buffers_spec().push(size as int));
        }
        id
    }

    /// A zero-initialized `rows x cols` matrix whose device buffer of
    /// exactly `rows * cols * size_of(element)` bytes is allocated via
    /// this session.
    pub fn create<T: MMul>(&mut self, rows: usize, cols: usize) -> (m: Matrix<T>)
        requires
            rows * cols * T::kind_spec().bytes_spec() <= usize::MAX,
        ensures
            m.wf(),
            m.rows_spec() == rows,
            m.cols_spec() == cols,
            m.view_data().len() == rows * cols,
            forall|t: int| 0 <= t < m.view_data().len() ==> #[trigger] m.view_data()[t] == 0,
            m.buf_spec() == old(self).n_buffers(),
            final(self).buffers_spec() == old(self).buffers_spec().push(
                rows * cols * T::kind_spec().bytes_spec() as int,
            ),
    {
        proof {
            lemma_elem_count_fits(rows as int, cols as int, T::kind_spec().bytes_spec() as int);
        }
        let n: usize = rows * cols;
        let mut data: Vec<T> = Vec::new();
        let mut i: usize = 0;
        while i < n
            invariant
                i <= n,
                data@.len() == i,
                forall|t: int| 0 <= t < data@.len() ==> #[trigger] data@[t].sval() == 0,
            decreases n - i,
        {
            data.push(T::zero());
            i = i + 1;
        }
        let m = self.create_with(rows, cols, data);
        proof {
            assert(forall|t: int|
                0 <= t < m.view_data().len() ==> #[trigger] m.view_data()[t] == data@[t].sval());
        }
        m
    }

    /// A `rows x cols` matrix holding the given host data, with a
    /// device buffer of exactly `rows * cols * size_of(element)` bytes
    /// allocated via this session.
    pub fn create_with<T: MMul>(&mut self, rows: usize, cols: usize, data: Vec<T>) -> (m: Matrix<
        T,
    >)
        requires
            data@.len() == rows * cols,
            rows * cols * T::kind_spec().bytes_spec() <= usize::MAX,
        ensures
            m.wf(),
            m.rows_spec() == rows,
            m.cols_spec() == cols,
            m.view_data() == data@.map_values(|x: T| x.sval()),
            m.buf_spec() == old(self).n_buffers(),
            final(self).buffers_spec() == old(self).buffers_spec().push(
                rows * cols * T::kind_spec().bytes_spec() as int,
            ),
    {
        proof {
            lemma_elem_count_fits(rows as int, cols as int, T::kind_spec().bytes_spec() as int);
        }
        let n: usize = rows * cols;
        let size: usize = n * T::kind().bytes();
        let buf = self.get_mem(size);
        Matrix { rows, cols, data, buf }
    }

    /// The exact release order for this session's teardown: every
    /// tracked buffer, then the program, the queue, the context, the
    /// device.
    pub fn teardown_order(&self) -> (r: Vec<Resource>)
        ensures
            r@ == teardown_order_spec(self.n_buffers()),
    {
        let mut r: Vec<Resource> = Vec::new();
        let n: usize = self.buffers.len();
        let mut i: usize = 0;
        while i < n
            invariant
                i <= n,
                r@ =~= Seq::new(i as nat, |t: int| Resource::Buffer(t as usize)),
            decreases n - i,
        {
            r.push(Resource::Buffer(i));
            proof {
                assert(r@ =~= Seq::new((i + 1) as nat, |t: int| Resource::Buffer(t as usize)));
            }
            i = i + 1;
        }
        r.push(Resource::Program);
        r.push(Resource::Queue);
        r.push(Resource::Context);
        r.push(Resource::Device);
        proof {
            assert(r@ =~= teardown_order_spec(self.n_buffers()));
        }
        r
    }
}

/// Best-effort teardown aggregation: given whether each release step
/// succeeded, in teardown order and with every step attempted, the
/// session's outcome is success exactly when every release succeeded,
/// and `TeardownFailed` otherwise.
pub fn teardown_outcome(oks: &Vec<bool>) -> (r: Result<(), Error>)
    ensures
        r is Ok <==> forall|i: int| 0 <= i < oks@.len() ==> oks@[i],
        r is Err ==> r->Err_0 == Error::TeardownFailed,
{
    let n: usize = oks.len();
    let mut i: usize = 0;
    while i < n
        invariant
            i <= n,
            n == oks@.len(),
            forall|t: int| 0 <= t < i ==> oks@[t],
        decreases n - i,
    {
        if !oks[i] {
            return Err(Error::TeardownFailed);
        }
        i = i + 1;
    }
    Ok(())
}

/// Law: a session's teardown releases every tracked buffer exactly
/// once — each tracked buffer stands at exactly one position of the
/// release order — and every buffer release comes before the program,
/// queue, context and device releases, which close the order.
pub proof fn lemma_teardown_releases_once(n: int, id: int)
    requires
        0 <= id < n,
        n <= usize::MAX,
    ensures
        teardown_order_spec(n).len() == n + 4,
        teardown_order_spec(n)[id] == Resource::Buffer(id as usize),
        forall|t: int|
            0 <= t < teardown_order_spec(n).len() && t != id ==> teardown_order_spec(n)[t]
                != Resource::Buffer(id as usize),
        teardown_order_spec(n)[n] == Resource::Program,
        teardown_order_spec(n)[n + 1] == Resource::Queue,
        teardown_order_spec(n)[n + 2] == Resource::Context,
        teardown_order_spec(n)[n + 3] == Resource::Device,
{
    assert forall|t: int|
        0 <= t < teardown_order_spec(n).len() && t != id implies teardown_order_spec(n)[t]
        != Resource::Buffer(id as usize) by {
        if t < n {
            assert(teardown_order_spec(n)[t] == Resource::Buffer(t as usize));
            assert(t as usize != id as usize);
        }
    }
}

/// The step of session construction that failed. Construction acquires
/// the platform, the device, the context, the queue, then creates and
/// builds the program, in that order.
#[derive(Clone, Copy, Debug, PartialEq, Eq, Structural)]
pub enum SetupStage {
    Platform,
    Device,
    Context,
    Queue,
    ProgramCreate,
    ProgramBuild,
}

pub open spec fn setup_error_spec(s: SetupStage) -> Error {
    match s {
        SetupStage::Platform => Error::PlatformUnavailable,
        SetupStage::Device => Error::DeviceUnavailable,
        SetupStage::Context => Error::ContextCreationFailed,
        SetupStage::Queue => Error::QueueCreationFailed,
        SetupStage::ProgramCreate => Error::ProgramBuildFailed,
        SetupStage::ProgramBuild => Error::ProgramBuildFailed,
    }
}

/// The error a failed session construction reports, by the step that
/// failed.
pub fn setup_error(s: SetupStage) -> (e: Error)
    ensures
        e == setup_error_spec(s),
{
    match s {
        SetupStage::Platform => Error::PlatformUnavailable,
        SetupStage::Device => Error::DeviceUnavailable,
        SetupStage::Context => Error::ContextCreationFailed,
        SetupStage::Queue => Error::QueueCreationFailed,
        SetupStage::ProgramCreate => Error::ProgramBuildFailed,
        SetupStage::ProgramBuild => Error::ProgramBuildFailed,
    }
}

pub open spec fn setup_cleanup_spec(s: SetupStage) -> Seq<Resource> {
    match s {
        SetupStage::Platform => seq![],
        SetupStage::Device => seq![],
        SetupStage::Context => seq![Resource::Device],
        SetupStage::Queue => seq![Resource::Context, Resource::Device],
        SetupStage::ProgramCreate => seq![Resource::Queue, Resource::Context, Resource::Device],
        SetupStage::ProgramBuild => seq![
            Resource::Program,
            Resource::Queue,
            Resource::Context,
            Resource::Device,
        ],
    }
}

/// What a construction that failed at the given step must release so
/// that nothing already created leaks: exactly the resources acquired
/// before the failure, in reverse acquisition order.
pub fn setup_cleanup(s: SetupStage) -> (r: Vec<Resource>)
    ensures
        r@ == setup_cleanup_spec(s),
{
    let mut r: Vec<Resource> = Vec::new();
    match s {
        SetupStage::Platform => {},
        SetupStage::Device => {},
        SetupStage::Context => {
            r.push(Resource::Device);
        },
        SetupStage::Queue => {
            r.push(Resource::Context);
            r.push(Resource::Device);
        },
        SetupStage::ProgramCreate => {
            r.push(Resource::Queue);
            r.push(Resource::Context);
            r.push(Resource::Device);
        },
        SetupStage::ProgramBuild => {
            r.push(Resource::Program);
            r.push(Resource::Queue);
            r.push(Resource::Context);
            r.push(Resource::Device);
        },
    }
    proof {
        assert(r@ =~= setup_cleanup_spec(s));
    }
    r
}

impl<T: MMul> Matrix<T> {
    /// The multiply operation: prepare the product of this `n x m`
    /// matrix with an `m x k` matrix of the same element type. The
    /// shared inner dimension must match — a construction-time
    /// constraint on the caller, never a runtime mismatch check.
    ///
    /// Allocates the fresh, zero-initialized `n x k` output matrix via
    /// the session and returns it together with the exact ordered
    /// device step sequence the session's runner must perform. Whether
    /// `n` and `k` suit the fixed `4 x 4` work-group shape (both
    /// divisible by 4) is the caller's documented responsibility; the
    /// device rejects the dispatch otherwise.
    pub fn try_mul(&self, rhs: &Matrix<T>, scope: &mut Scope) -> (r: (Matrix<T>, Vec<Step>))
        requires
            self.wf(),
            rhs.wf(),
            self.cols_spec() == rhs.rows_spec(),
            self.rows_spec() <= i32::MAX,
            self.cols_spec() <= i32::MAX,
            rhs.cols_spec() <= i32::MAX,
            self.rows_spec() * rhs.cols_spec() * T::kind_spec().bytes_spec() <= usize::MAX,
        ensures
            r.0.wf(),
            r.0.rows_spec() == self.rows_spec(),
            r.0.cols_spec() == rhs.cols_spec(),
            r.0.view_data().len() == self.rows_spec() * rhs.cols_spec(),
            forall|t: int| 0 <= t < r.0.view_data().len() ==> #[trigger] r.0.view_data()[t] == 0,
            r.0.buf_spec() == old(scope).n_buffers(),
            final(scope).buffers_spec() == old(scope).buffers_spec().push(
                self.rows_spec() * rhs.cols_spec() * T::kind_spec().bytes_spec() as int,
            ),
            r.1@ == mul_steps_spec(
                self.rows_spec(),
                self.cols_spec(),
                rhs.cols_spec(),
                self.buf_spec(),
                self.rows_spec() * self.cols_spec() * T::kind_spec().bytes_spec() as int,
                rhs.buf_spec(),
                rhs.rows_spec() * rhs.cols_spec() * T::kind_spec().bytes_spec() as int,
                r.0.buf_spec(),
                self.rows_spec() * rhs.cols_spec() * T::kind_spec().bytes_spec() as int,
                T::kind_spec(),
            ),
    {
        let eb: usize = T::kind().bytes();
        proof {
            lemma_elem_count_fits(
                self.rows_spec(),
                self.cols_spec(),
                T::kind_spec().bytes_spec() as int,
            );
            lemma_elem_count_fits(
                rhs.rows_spec(),
                rhs.cols_spec(),
                T::kind_spec().bytes_spec() as int,
            );
            lemma_elem_count_fits(
                self.rows_spec(),
                rhs.cols_spec(),
                T::kind_spec().bytes_spec() as int,
            );
        }
        let out: Matrix<T> = scope.create(self.rows, rhs.cols);
        let left_bytes: usize = self.data.len() * eb;
        let right_bytes: usize = rhs.data.len() * eb;
        let out_bytes: usize = out.data.len() * eb;
        let mut steps: Vec<Step> = Vec::new();
        steps.push(Step::Stage { buf: self.buf, bytes: left_bytes });
        steps.push(Step::Stage { buf: rhs.buf, bytes: right_bytes });
        steps.push(Step::CreateKernel { kind: T::kind() });
        steps.push(Step::SetArgInt { index: 0, value: self.rows as i32 });
        steps.push(Step::SetArgInt { index: 1, value: self.cols as i32 });
        steps.push(Step::SetArgInt { index: 2, value: rhs.cols as i32 });
        steps.push(Step::SetArgBuf { index: 3, buf: self.buf });
        steps.push(Step::SetArgBuf { index: 4, buf: rhs.buf });
        steps.push(Step::SetArgBuf { index: 5, buf: out.buf });
        steps.push(Step::Dispatch {
            global_rows: self.rows,
            global_cols: rhs.cols,
            local_rows: 4,
            local_cols: 4,
        });
        steps.push(Step::Retrieve { buf: out.buf, bytes: out_bytes });
        steps.push(Step::Finish);
        steps.push(Step::ReadProfile);
        steps.push(Step::ReleaseEvent);
        steps.push(Step::ReleaseKernel);
        proof {
            assert(steps@ =~= mul_steps_spec(
                self.rows_spec(),
                self.cols_spec(),
                rhs.cols_spec(),
                self.buf_spec(),
                self.rows_spec() * self.cols_spec() * T::kind_spec().bytes_spec() as int,
                rhs.buf_spec(),
                rhs.rows_spec() * rhs.cols_spec() * T::kind_spec().bytes_spec() as int,
                out.buf_spec(),
                self.rows_spec() * rhs.cols_spec() * T::kind_spec().bytes_spec() as int,
                T::kind_spec(),
            ));
        }
        (out, steps)
    }
}

/// Elapsed device time of a dispatch, from the start and end
/// timestamps of its profiling event (nanosecond device ticks; the
/// end stamp is taken after the start stamp).
pub fn elapsed(start: u64, end: u64) -> (r: u64)
    requires
        start <= end,
    ensures
        r == end - start,
{
    end - start
}

/// `rows * cols` elements of `bytes` bytes each fit in a machine word
/// as soon as the total byte size does.
pub proof fn lemma_elem_count_fits(rows: int, cols: int, bytes: int)
    by (nonlinear_arith)
    requires
        rows >= 0,
        cols >= 0,
        bytes >= 1,
        rows * cols * bytes <= usize::MAX,
    ensures
        rows * cols <= usize::MAX,
        rows * cols * bytes == (rows * cols) * bytes,
{
}

/// In a row-major `rows x cols` array, the position of `(i, j)` lies
/// inside the array.
pub proof fn lemma_row_major_index_in_range(rows: int, cols: int, i: int, j: int)
    by (nonlinear_arith)
    requires
        0 <= i < rows,
        0 <= j < cols,
    ensures
        0 <= i * cols + j < rows * cols,
{
}

} // verus!
