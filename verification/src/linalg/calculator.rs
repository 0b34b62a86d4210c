//! The calculator: the single entry point tying the device buffer table and
//! the program registry together.
//!
//! Every decision the engine makes — handle validation, shape compatibility,
//! output sizing, dispatch geometry — happens here, host-side and verified,
//! before any device work.  The device itself is outside this crate's trusted
//! boundary: an operation is planned as a [`Dispatch`] value naming the
//! kernel, the dispatch geometry, the scalar arguments and the operand
//! handles; an unverified shell runs the kernel on its queue, downloads the
//! raw element words, and hands them to [`Calculator::complete_dispatch`],
//! which stores the result under a fresh handle and returns it as a host
//! matrix.  Whatever words the device produced, the bookkeeping stays
//! consistent; shape errors are caught before the device ever sees an
//! invalid launch.

use vstd::prelude::*;
use vstd::string::StringExecFns;

use crate::linalg::err::LAError;
use crate::linalg::matrix::{Matrix, MatrixView};
use crate::linalg::memory::{
    mem_get, mem_slots_wf, mem_store, mem_store_handle, occupied_count, MemoryHandler,
    INIT_MEMORY_CAPACITY,
};

verus! {

/// A caller-supplied shape-inference rule for a custom kernel.
///
/// Given the operand shapes (each a `(rows, cols)` pair, in operand order),
/// `infer` validates operand compatibility and returns the output shape and
/// the dispatch sizes of a launch, or the error to surface.  It sees shape
/// metadata only, never buffer contents, and it is the single source of truth
/// for validating a custom kernel's operands.  Nothing is assumed about a
/// caller's rule; the calculator states only what it does with whatever the
/// rule returns.
pub trait ParameterFunction {
    /// Maps operand shapes to `(output_rows, output_cols, dispatch_sizes)`.
    fn infer(&self, shapes: &Vec<(usize, usize)>) -> Result<(usize, usize, Vec<usize>), LAError>;
}

/// The shape rule of the built-in dense multiply, usable as a
/// [`ParameterFunction`] and as the default kernel-parameter type of a
/// [`Calculator`] that only runs the built-in kernel.
pub struct MatMulParams;

/// Shape inference for a dense matrix multiply: exactly two operands, the
/// left operand's columns matching the right operand's rows; the output is
/// `left.rows` by `right.cols` with one work item per output element.
pub fn mat_mul_shape(shapes: &Vec<(usize, usize)>) -> (r: Result<
    (usize, usize, Vec<usize>),
    LAError,
>)
    ensures
        match r {
            Ok(inferred) => {
                &&& shapes@.len() == 2
                &&& shapes@[0].1 == shapes@[1].0
                &&& inferred.0 == shapes@[0].0
                &&& inferred.1 == shapes@[1].1
                &&& inferred.2@ =~= seq![shapes@[0].0, shapes@[1].1]
            },
            Err(e) => match e {
                LAError::ArgumentError => shapes@.len() != 2,
                LAError::SizeError => shapes@.len() == 2 && shapes@[0].1 != shapes@[1].0,
                _ => false,
            },
        },
{
    if shapes.len() != 2 {
        return Err(LAError::ArgumentError);
    }
    let (left_rows, left_cols) = (shapes[0].0, shapes[0].1);
    let (right_rows, right_cols) = (shapes[1].0, shapes[1].1);
    if left_cols != right_rows {
        return Err(LAError::SizeError);
    }
    let mut work_sizes: Vec<usize> = Vec::new();
    work_sizes.push(left_rows);
    work_sizes.push(right_cols);
    Ok((left_rows, right_cols, work_sizes))
}

impl ParameterFunction for MatMulParams {
    fn infer(&self, shapes: &Vec<(usize, usize)>) -> Result<(usize, usize, Vec<usize>), LAError> {
        mat_mul_shape(shapes)
    }
}

/// Which compiled kernel a dispatch launches: the built-in multiply or a
/// registered custom kernel, by its registration index.
#[derive(Clone, Copy, Debug, PartialEq, Eq)]
pub enum KernelRef {
    Builtin,
    Custom(usize),
}

/// A fully validated, ready-to-launch kernel dispatch.
///
/// The shell binds the operand buffers (in `operand_idcs` order) and the
/// output buffer of `out_rows * out_cols` elements, passes each scalar as a
/// 32-bit integer kernel argument, launches over `global_work_sizes`, blocks
/// until completion, downloads the output words and completes the operation
/// through [`Calculator::complete_dispatch`].
#[derive(Debug)]
pub struct Dispatch {
    /// The kernel to launch.
    pub kernel: KernelRef,
    /// Rows of the output matrix.
    pub out_rows: usize,
    /// Columns of the output matrix.
    pub out_cols: usize,
    /// Global work size of the launch, one entry per dimension.
    pub global_work_sizes: Vec<usize>,
    /// Scalar kernel arguments, bound after the output buffer and before the
    /// operand buffers.
    pub scalars: Vec<i32>,
    /// Handles of the operand buffers, in binding order.
    pub operand_idcs: Vec<usize>,
}

/// What a planned custom-kernel launch must look like, given the output
/// shape and dispatch sizes its shape-inference rule returned: the rule's
/// output shape governs the plan; explicitly supplied work sizes override
/// the inferred dispatch sizes; the scalar arguments and operand handles are
/// passed through in order.
pub open spec fn matches_custom_plan(
    d: Dispatch,
    custom_idx: usize,
    inferred_rows: usize,
    inferred_cols: usize,
    inferred_sizes: Seq<usize>,
    work_sizes: Option<Vec<usize>>,
    scalars: Option<Vec<i32>>,
    operand_idcs: Seq<usize>,
) -> bool {
    &&& d.kernel == KernelRef::Custom(custom_idx)
    &&& d.out_rows == inferred_rows
    &&& d.out_cols == inferred_cols
    &&& d.global_work_sizes@ == (match work_sizes {
        Some(ws) => ws@,
        None => inferred_sizes,
    })
    &&& d.scalars@ == (match scalars {
        Some(s) => s@,
        None => Seq::<i32>::empty(),
    })
    &&& d.operand_idcs@ == operand_idcs
}

/// Builds the dispatch for a custom kernel from whatever `(output_rows,
/// output_cols, dispatch_sizes)` triple its shape-inference rule returned:
/// the plan is pinned to that triple by [`matches_custom_plan`], and the
/// only rejection is an output too large to address.
pub fn plan_custom_dispatch(
    custom_idx: usize,
    inferred: (usize, usize, Vec<usize>),
    work_sizes: Option<Vec<usize>>,
    scalars: Option<Vec<i32>>,
    operand_idcs: Vec<usize>,
) -> (r: Result<Dispatch, LAError>)
    ensures
        match r {
            Ok(d) => {
                &&& inferred.0 * inferred.1 <= usize::MAX
                &&& matches_custom_plan(
                    d,
                    custom_idx,
                    inferred.0,
                    inferred.1,
                    inferred.2@,
                    work_sizes,
                    scalars,
                    operand_idcs@,
                )
            },
            Err(e) => {
                &&& e == LAError::SizeError
                &&& inferred.0 * inferred.1 > usize::MAX
            },
        },
{
    let (out_rows, out_cols, inferred_sizes) = inferred;
    if out_rows.checked_mul(out_cols).is_none() {
        return Err(LAError::SizeError);
    }
    let global_work_sizes = match work_sizes {
        Some(ws) => ws,
        None => inferred_sizes,
    };
    let scalar_args = match scalars {
        Some(s) => s,
        None => Vec::new(),
    };
    Ok(
        Dispatch {
            kernel: KernelRef::Custom(custom_idx),
            out_rows,
            out_cols,
            global_work_sizes,
            scalars: scalar_args,
            operand_idcs,
        },
    )
}

/// One registered custom kernel: its source text, its entry-point name and
/// its shape-inference rule.
struct CustomKernel<P: ParameterFunction> {
    kernel_name: String,
    program_source: String,
    param_function: P,
}

/// Holds the registered custom kernels; the built-in multiply is compiled
/// separately at initialization and needs no entry here.
struct ProgramRegistry<P: ParameterFunction> {
    customs: Vec<CustomKernel<P>>,
}

/// The orchestrator of the engine: owns the device buffer table and the
/// program registry, and is the only component that plans dispatches.
pub struct Calculator<P: ParameterFunction> {
    memory: MemoryHandler,
    programs: ProgramRegistry<P>,
}

impl<P: ParameterFunction> Calculator<P> {
    /// The model of the buffer table: one optional matrix per slot.
    pub closed spec fn mem(&self) -> Seq<Option<MatrixView>> {
        self.memory@
    }

    /// The entry-point names of the registered custom kernels, in
    /// registration order.
    pub closed spec fn kernel_names(&self) -> Seq<Seq<char>> {
        Seq::new(self.programs.customs@.len(), |i: int| self.programs.customs@[i].kernel_name@)
    }

    /// The source texts of the registered custom kernels, in registration
    /// order.
    pub closed spec fn kernel_sources(&self) -> Seq<Seq<char>> {
        Seq::new(self.programs.customs@.len(), |i: int| self.programs.customs@[i].program_source@)
    }

    /// Every buffer in the table is well-formed.
    pub open spec fn wf(&self) -> bool {
        mem_slots_wf(self.mem())
    }

    /// A fresh calculator: an empty buffer table at the default capacity and
    /// no custom kernels.  Acquiring the compute device, its queue and the
    /// compiled default program is the unverified shell's part; the
    /// bookkeeping itself cannot fail.
    pub fn init() -> (r: Result<Calculator<P>, LAError>)
        ensures
            match r {
                Ok(c) => {
                    &&& c.mem().len() == INIT_MEMORY_CAPACITY
                    &&& forall|i: int| 0 <= i < c.mem().len() ==> c.mem()[i] is None
                    &&& c.kernel_names().len() == 0
                    &&& c.kernel_sources().len() == 0
                    &&& c.wf()
                },
                Err(_) => false,
            },
    {
        let c = Calculator {
            memory: MemoryHandler::new(INIT_MEMORY_CAPACITY),
            programs: ProgramRegistry { customs: Vec::new() },
        };
        Ok(c)
    }

    /// The current slot capacity of the buffer table.
    pub fn capacity(&self) -> (c: usize)
        ensures
            c == self.mem().len(),
    {
        self.memory.capacity()
    }

    /// The number of slots currently holding a buffer.
    pub fn n_occupied(&self) -> (n: usize)
        ensures
            n == occupied_count(self.mem()),
    {
        self.memory.n_occupied()
    }

    /// Stores a host matrix in the least free slot of the buffer table
    /// (growing the table when full) and returns the slot index as the
    /// matrix's handle.
    pub fn store_matrix(&mut self, mat: Matrix) -> (r: Result<usize, LAError>)
        requires
            old(self).wf(),
            mat@.wf(),
        ensures
            final(self).wf(),
            final(self).kernel_names() == old(self).kernel_names(),
            final(self).kernel_sources() == old(self).kernel_sources(),
            match r {
                Ok(handle) => {
                    &&& handle == mem_store_handle(old(self).mem())
                    &&& final(self).mem() == mem_store(old(self).mem(), mat@)
                },
                Err(_) => false,
            },
    {
        let rows = mat.get_rows();
        let cols = mat.get_cols();
        let ghost pre = self.memory@;
        // A well-formed matrix always has an addressable element count, so
        // allocation cannot be refused.
        let handle = match self.memory.allocate(rows, cols) {
            Ok(h) => h,
            Err(_) => {
                return unreached();
            },
        };
        proof {
            assert forall|m: MatrixView|
                mem_get(mem_store(pre, m), mem_store_handle(pre)) == Some(m) by {
                crate::linalg::memory::lemma_store_then_retrieve(pre, m);
            };
        }
        let ghost mat_view = mat@;
        // The freshly allocated slot has exactly the matrix's shape, so the
        // upload cannot be refused.
        match self.memory.upload(handle, mat) {
            Ok(()) => {
                proof {
                    crate::linalg::memory::lemma_first_free_from(pre, 0);
                    assert(self.memory@ =~= mem_store(pre, mat_view));
                }
                Ok(handle)
            },
            Err(_) => unreached(),
        }
    }

    /// Retrieves the matrix stored under `idx` back to the host.  A freed,
    /// never-allocated or out-of-range handle is rejected before any device
    /// access, and never yields stale data.
    pub fn get_matrix(&self, idx: usize) -> (r: Result<Matrix, LAError>)
        ensures
            match r {
                Ok(m) => mem_get(self.mem(), idx as int) == Some(m@),
                Err(e) => {
                    &&& e == LAError::MemoryError
                    &&& mem_get(self.mem(), idx as int) is None
                },
            },
    {
        self.memory.download(idx)
    }

    /// Releases the buffer under `idx` and marks its slot empty; the handle
    /// is invalid from this call on, until a later store reuses the slot.
    pub fn free_matrix(&mut self, idx: usize) -> (r: Result<(), LAError>)
        requires
            old(self).wf(),
        ensures
            final(self).wf(),
            final(self).kernel_names() == old(self).kernel_names(),
            final(self).kernel_sources() == old(self).kernel_sources(),
            match r {
                Ok(()) => {
                    &&& mem_get(old(self).mem(), idx as int) is Some
                    &&& final(self).mem() == crate::linalg::memory::mem_free(
                        old(self).mem(),
                        idx as int,
                    )
                },
                Err(e) => {
                    &&& e == LAError::MemoryError
                    &&& mem_get(old(self).mem(), idx as int) is None
                    &&& final(self).mem() == old(self).mem()
                },
            },
    {
        self.memory.free(idx)
    }

    /// Registers a custom kernel: its source text, its entry-point name and
    /// its shape-inference rule, under the next kernel index.  Compiling the
    /// source belongs to the unverified shell; a shell that compiles first
    /// and registers only on success keeps registration all-or-nothing.
    pub fn load_custom_fn(
        &mut self,
        program_source: &str,
        kernel_name: &str,
        param_function: P,
    ) -> (r: Result<usize, LAError>)
        ensures
            final(self).mem() == old(self).mem(),
            final(self).kernel_names() == old(self).kernel_names().push(kernel_name@),
            final(self).kernel_sources() == old(self).kernel_sources().push(program_source@),
            match r {
                Ok(kernel_idx) => kernel_idx == old(self).kernel_names().len(),
                Err(_) => false,
            },
    {
        let kernel_idx = self.programs.customs.len();
        self.programs.customs.push(
            CustomKernel {
                kernel_name: String::from_str(kernel_name),
                program_source: String::from_str(program_source),
                param_function,
            },
        );
        proof {
            assert(self.kernel_names() =~= old(self).kernel_names().push(kernel_name@));
            assert(self.kernel_sources() =~= old(self).kernel_sources().push(program_source@));
        }
        Ok(kernel_idx)
    }

    /// The entry-point name of the custom kernel registered under
    /// `kernel_idx`.
    pub fn custom_kernel_name(&self, kernel_idx: usize) -> (r: Result<&String, LAError>)
        ensures
            match r {
                Ok(name) => {
                    &&& kernel_idx < self.kernel_names().len()
                    &&& name@ == self.kernel_names()[kernel_idx as int]
                },
                Err(e) => {
                    &&& e == LAError::ArgumentError
                    &&& kernel_idx >= self.kernel_names().len()
                },
            },
    {
        if kernel_idx >= self.programs.customs.len() {
            return Err(LAError::ArgumentError);
        }
        Ok(&self.programs.customs[kernel_idx].kernel_name)
    }

    /// The source text of the custom kernel registered under `kernel_idx`.
    pub fn custom_kernel_source(&self, kernel_idx: usize) -> (r: Result<&String, LAError>)
        ensures
            match r {
                Ok(source) => {
                    &&& kernel_idx < self.kernel_sources().len()
                    &&& source@ == self.kernel_sources()[kernel_idx as int]
                },
                Err(e) => {
                    &&& e == LAError::ArgumentError
                    &&& kernel_idx >= self.kernel_sources().len()
                },
            },
    {
        if kernel_idx >= self.programs.customs.len() {
            return Err(LAError::ArgumentError);
        }
        Ok(&self.programs.customs[kernel_idx].program_source)
    }

    /// Plans the built-in dense multiply of the matrices under `left_idx`
    /// and `right_idx`.
    ///
    /// Shape inference for the built-in kernel is fixed: the operands must
    /// satisfy `left.cols == right.rows`; the output is `left.rows` by
    /// `right.cols`, with a two-dimensional launch of one work item per
    /// output element and the kernel's two integer arguments set to
    /// `right.cols` and `left.cols`.  Validation happens entirely before any
    /// device work, and a rejected plan leaves the table untouched: no
    /// output slot is allocated.
    pub fn mat_mul(&self, left_idx: usize, right_idx: usize) -> (r: Result<Dispatch, LAError>)
        requires
            self.wf(),
        ensures
            match r {
                Ok(d) => {
                    &&& mem_get(self.mem(), left_idx as int) matches Some(a)
                    &&& mem_get(self.mem(), right_idx as int) matches Some(b)
                    &&& {
                        let a = mem_get(self.mem(), left_idx as int)->Some_0;
                        let b = mem_get(self.mem(), right_idx as int)->Some_0;
                        &&& a.cols == b.rows
                        &&& a.rows * b.cols <= usize::MAX
                        &&& a.cols <= i32::MAX
                        &&& b.cols <= i32::MAX
                        &&& d.kernel == KernelRef::Builtin
                        &&& d.out_rows == a.rows
                        &&& d.out_cols == b.cols
                        &&& d.global_work_sizes@ =~= seq![d.out_rows, d.out_cols]
                        &&& d.scalars@.len() == 2
                        &&& d.scalars@[0] == b.cols as i32
                        &&& d.scalars@[1] == a.cols as i32
                        &&& d.operand_idcs@ =~= seq![left_idx, right_idx]
                    }
                },
                Err(e) => match e {
                    LAError::MemoryError => mem_get(self.mem(), left_idx as int) is None
                        || mem_get(self.mem(), right_idx as int) is None,
                    LAError::SizeError => {
                        &&& mem_get(self.mem(), left_idx as int) matches Some(a)
                        &&& mem_get(self.mem(), right_idx as int) matches Some(b)
                        &&& {
                            let a = mem_get(self.mem(), left_idx as int)->Some_0;
                            let b = mem_get(self.mem(), right_idx as int)->Some_0;
                            ||| a.cols != b.rows
                            ||| a.rows * b.cols > usize::MAX
                            ||| a.cols > i32::MAX
                            ||| b.cols > i32::MAX
                        }
                    },
                    _ => false,
                },
            },
    {
        let (left_rows, left_cols) = match self.memory.shape_of(left_idx) {
            Ok(shape) => shape,
            Err(e) => {
                return Err(e);
            },
        };
        let (right_rows, right_cols) = match self.memory.shape_of(right_idx) {
            Ok(shape) => shape,
            Err(e) => {
                return Err(e);
            },
        };
        if left_cols != right_rows {
            return Err(LAError::SizeError);
        }
        if left_rows.checked_mul(right_cols).is_none() {
            return Err(LAError::SizeError);
        }
        if left_cols > i32::MAX as usize || right_cols > i32::MAX as usize {
            return Err(LAError::SizeError);
        }

        let mut global_work_sizes: Vec<usize> = Vec::new();
        global_work_sizes.push(left_rows);
        global_work_sizes.push(right_cols);

        let mut scalars: Vec<i32> = Vec::new();
        scalars.push(right_cols as i32);
        scalars.push(left_cols as i32);

        let mut operand_idcs: Vec<usize> = Vec::new();
        operand_idcs.push(left_idx);
        operand_idcs.push(right_idx);

        Ok(
            Dispatch {
                kernel: KernelRef::Builtin,
                out_rows: left_rows,
                out_cols: right_cols,
                global_work_sizes,
                scalars,
                operand_idcs,
            },
        )
    }

    /// Resolves each operand handle to its currently recorded shape, in
    /// operand order, copying no data.  This is exactly what a custom
    /// kernel's shape-inference rule is handed; any stale or out-of-range
    /// handle is rejected before the rule ever runs.
    pub fn resolve_shapes(&self, operand_idcs: &Vec<usize>) -> (r: Result<
        Vec<(usize, usize)>,
        LAError,
    >)
        ensures
            match r {
                Ok(shapes) => {
                    &&& shapes@.len() == operand_idcs@.len()
                    &&& forall|k: int|
                        0 <= k < operand_idcs@.len() ==> {
                            &&& #[trigger] mem_get(self.mem(), operand_idcs@[k] as int)
                                matches Some(m)
                            &&& shapes@[k].0 == m.rows
                            &&& shapes@[k].1 == m.cols
                        }
                },
                Err(e) => {
                    &&& e == LAError::MemoryError
                    &&& exists|k: int|
                        0 <= k < operand_idcs@.len() && mem_get(
                            self.mem(),
                            #[trigger] operand_idcs@[k] as int,
                        ) is None
                },
            },
    {
        let mut shapes: Vec<(usize, usize)> = Vec::new();
        let mut k: usize = 0;
        let n_operands = operand_idcs.len();
        while k < n_operands
            invariant
                k <= n_operands,
                n_operands == operand_idcs@.len(),
                shapes@.len() == k,
                forall|j: int|
                    0 <= j < k ==> {
                        &&& #[trigger] mem_get(self.mem(), operand_idcs@[j] as int)
                            matches Some(m)
                        &&& shapes@[j].0 == m.rows
                        &&& shapes@[j].1 == m.cols
                    },
            decreases n_operands - k,
        {
            let idx = operand_idcs[k];
            match self.memory.shape_of(idx) {
                Ok(shape) => {
                    shapes.push(shape);
                },
                Err(e) => {
                    proof {
                        assert(mem_get(self.mem(), operand_idcs@[k as int] as int) is None);
                    }
                    return Err(e);
                },
            }
            k += 1;
        }
        Ok(shapes)
    }

    /// Plans a launch of the custom kernel registered under `custom_idx`.
    ///
    /// The operand handles are resolved to their current shapes (no data is
    /// copied) by [`Calculator::resolve_shapes`] and handed, in order, to
    /// the kernel's shape-inference rule; [`plan_custom_dispatch`] then
    /// builds the plan from whatever that rule returned, so the rule's
    /// output shape governs the plan and explicitly supplied `work_sizes`
    /// override the inferred dispatch sizes (inference still governs the
    /// output shape and operand validation).  `scalars` are passed to the
    /// kernel as extra integer arguments, in order, after the output buffer
    /// and before the operands.  Success cannot be promised here: the rule
    /// is the caller's, and its error is surfaced unchanged.
    pub fn exec_custom_fn(
        &self,
        custom_idx: usize,
        work_sizes: Option<Vec<usize>>,
        scalars: Option<Vec<i32>>,
        operand_idcs: Vec<usize>,
    ) -> (r: Result<Dispatch, LAError>)
        requires
            self.wf(),
        ensures
            custom_idx >= self.kernel_names().len() ==> r == Err::<Dispatch, LAError>(
                LAError::ArgumentError,
            ),
            custom_idx < self.kernel_names().len() && (exists|k: int|
                0 <= k < operand_idcs@.len() && mem_get(
                    self.mem(),
                    #[trigger] operand_idcs@[k] as int,
                ) is None) ==> r == Err::<Dispatch, LAError>(LAError::MemoryError),
            match r {
                Ok(d) => {
                    &&& custom_idx < self.kernel_names().len()
                    &&& forall|k: int|
                        0 <= k < operand_idcs@.len() ==> mem_get(
                            self.mem(),
                            #[trigger] operand_idcs@[k] as int,
                        ) is Some
                    &&& d.out_rows * d.out_cols <= usize::MAX
                    &&& exists|inferred_rows: usize, inferred_cols: usize, inferred_sizes: Seq<
                        usize,
                    >|
                        #[trigger] matches_custom_plan(
                            d,
                            custom_idx,
                            inferred_rows,
                            inferred_cols,
                            inferred_sizes,
                            work_sizes,
                            scalars,
                            operand_idcs@,
                        )
                },
                Err(_) => true,
            },
    {
        if custom_idx >= self.programs.customs.len() {
            return Err(LAError::ArgumentError);
        }

        let shapes = match self.resolve_shapes(&operand_idcs) {
            Ok(shapes) => shapes,
            Err(e) => {
                return Err(e);
            },
        };

        // The registered rule is the single source of truth for operand
        // compatibility and output sizing; its error is surfaced unchanged.
        let inferred = match self.programs.customs[custom_idx].param_function.infer(&shapes) {
            Ok(inferred) => inferred,
            Err(e) => {
                return Err(e);
            },
        };

        plan_custom_dispatch(custom_idx, inferred, work_sizes, scalars, operand_idcs)
    }

    /// Completes a planned dispatch with the element words the device
    /// produced for the output buffer: the words are validated against the
    /// plan's output shape, stored under a fresh handle (so the result stays
    /// device-resident for chaining), and returned as a host matrix together
    /// with that handle.
    pub fn complete_dispatch(&mut self, dispatch: &Dispatch, result_data: Vec<u32>) -> (r: Result<
        (Matrix, usize),
        LAError,
    >)
        requires
            old(self).wf(),
        ensures
            final(self).wf(),
            final(self).kernel_names() == old(self).kernel_names(),
            final(self).kernel_sources() == old(self).kernel_sources(),
            match r {
                Ok(out) => {
                    &&& result_data@.len() == dispatch.out_rows * dispatch.out_cols
                    &&& out.0@ == (MatrixView {
                        data: result_data@,
                        rows: dispatch.out_rows as nat,
                        cols: dispatch.out_cols as nat,
                    })
                    &&& out.1 == mem_store_handle(old(self).mem())
                    &&& final(self).mem() == mem_store(old(self).mem(), out.0@)
                },
                Err(e) => {
                    &&& e == LAError::SizeError
                    &&& result_data@.len() != dispatch.out_rows * dispatch.out_cols
                    &&& final(self).mem() == old(self).mem()
                },
            },
    {
        let out_mat = match Matrix::new(result_data, dispatch.out_rows, dispatch.out_cols) {
            Ok(m) => m,
            Err(e) => {
                return Err(e);
            },
        };
        let returned = out_mat.clone();
        match self.store_matrix(out_mat) {
            Ok(handle) => Ok((returned, handle)),
            Err(_) => unreached(),
        }
    }
}

} // verus!
