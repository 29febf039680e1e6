//! Host-owned arrays: the memory manager's numeric type codes, the cached
//! dimension descriptor, and the resize logic that keeps the descriptor
//! consistent with the host's true allocation.
//!
//! The host owns the array buffer itself; native code resizes it only
//! through the host's resize primitive.  The primitive is reached through a
//! caller-supplied callback taking (type code, dimensionality, requested
//! element count) and returning a status code, zero meaning success.  The
//! cached dimensions commit only when the primitive reports success.

use vstd::prelude::*;

use crate::errors::{LVInteropError, LVStatusCode};

verus! {

/// The ten numeric kinds the host memory manager can store in an array,
/// in the host registry's fixed order.
#[derive(PartialEq, Eq, Structural, Clone, Copy, Debug)]
pub enum NumericKind {
    SignedInt8,
    SignedInt16,
    SignedInt32,
    SignedInt64,
    UnsignedInt8,
    UnsignedInt16,
    UnsignedInt32,
    UnsignedInt64,
    Float32,
    Float64,
}

/// The host registry's type code for each numeric kind: the codes 1 through
/// 10 in the fixed signed, unsigned, floating-point order.  These values are
/// the host's own constants; a wrong code is silently misread by the host,
/// so they must never be invented locally.
pub open spec fn spec_kind_code(kind: NumericKind) -> i32 {
    match kind {
        NumericKind::SignedInt8 => 1,
        NumericKind::SignedInt16 => 2,
        NumericKind::SignedInt32 => 3,
        NumericKind::SignedInt64 => 4,
        NumericKind::UnsignedInt8 => 5,
        NumericKind::UnsignedInt16 => 6,
        NumericKind::UnsignedInt32 => 7,
        NumericKind::UnsignedInt64 => 8,
        NumericKind::Float32 => 9,
        NumericKind::Float64 => 10,
    }
}

/// The host registry's type code for the given numeric kind.
pub fn kind_code(kind: NumericKind) -> (code: i32)
    ensures
        code == spec_kind_code(kind),
{
    match kind {
        NumericKind::SignedInt8 => 1,
        NumericKind::SignedInt16 => 2,
        NumericKind::SignedInt32 => 3,
        NumericKind::SignedInt64 => 4,
        NumericKind::UnsignedInt8 => 5,
        NumericKind::UnsignedInt16 => 6,
        NumericKind::UnsignedInt32 => 7,
        NumericKind::UnsignedInt64 => 8,
        NumericKind::Float32 => 9,
        NumericKind::Float64 => 10,
    }
}

/// The kinds an element type can declare so arrays of it can be resized
/// through the host memory manager.
pub trait NumericArrayResizable {
    /// The numeric kind of this element type in the host's registry.
    spec fn spec_kind() -> NumericKind;

    /// The code used by the host memory manager to represent the type.
    spec fn spec_type_code() -> i32;

    /// The code used by the host memory manager to represent the type.
    fn type_code() -> (code: i32)
        ensures
            code == Self::spec_type_code(),
            code == spec_kind_code(Self::spec_kind()),
    ;
}

impl NumericArrayResizable for i8 {
    open spec fn spec_kind() -> NumericKind {
        NumericKind::SignedInt8
    }

    open spec fn spec_type_code() -> i32 {
        1
    }

    fn type_code() -> (code: i32) {
        1
    }
}

impl NumericArrayResizable for i16 {
    open spec fn spec_kind() -> NumericKind {
        NumericKind::SignedInt16
    }

    open spec fn spec_type_code() -> i32 {
        2
    }

    fn type_code() -> (code: i32) {
        2
    }
}

impl NumericArrayResizable for i32 {
    open spec fn spec_kind() -> NumericKind {
        NumericKind::SignedInt32
    }

    open spec fn spec_type_code() -> i32 {
        3
    }

    fn type_code() -> (code: i32) {
        3
    }
}

impl NumericArrayResizable for i64 {
    open spec fn spec_kind() -> NumericKind {
        NumericKind::SignedInt64
    }

    open spec fn spec_type_code() -> i32 {
        4
    }

    fn type_code() -> (code: i32) {
        4
    }
}

impl NumericArrayResizable for u8 {
    open spec fn spec_kind() -> NumericKind {
        NumericKind::UnsignedInt8
    }

    open spec fn spec_type_code() -> i32 {
        5
    }

    fn type_code() -> (code: i32) {
        5
    }
}

impl NumericArrayResizable for u16 {
    open spec fn spec_kind() -> NumericKind {
        NumericKind::UnsignedInt16
    }

    open spec fn spec_type_code() -> i32 {
        6
    }

    fn type_code() -> (code: i32) {
        6
    }
}

impl NumericArrayResizable for u32 {
    open spec fn spec_kind() -> NumericKind {
        NumericKind::UnsignedInt32
    }

    open spec fn spec_type_code() -> i32 {
        7
    }

    fn type_code() -> (code: i32) {
        7
    }
}

impl NumericArrayResizable for u64 {
    open spec fn spec_kind() -> NumericKind {
        NumericKind::UnsignedInt64
    }

    open spec fn spec_type_code() -> i32 {
        8
    }

    fn type_code() -> (code: i32) {
        8
    }
}

/// The ten numeric kinds map to the codes 1 through 10, in the fixed
/// signed-int 8/16/32/64, unsigned-int 8/16/32/64, float 32/64 order, and
/// every element type that declares a kind carries that kind's code.
pub proof fn lemma_type_code_table_exact()
    ensures
        spec_kind_code(NumericKind::SignedInt8) == 1,
        spec_kind_code(NumericKind::SignedInt16) == 2,
        spec_kind_code(NumericKind::SignedInt32) == 3,
        spec_kind_code(NumericKind::SignedInt64) == 4,
        spec_kind_code(NumericKind::UnsignedInt8) == 5,
        spec_kind_code(NumericKind::UnsignedInt16) == 6,
        spec_kind_code(NumericKind::UnsignedInt32) == 7,
        spec_kind_code(NumericKind::UnsignedInt64) == 8,
        spec_kind_code(NumericKind::Float32) == 9,
        spec_kind_code(NumericKind::Float64) == 10,
        <i8 as NumericArrayResizable>::spec_type_code() == 1,
        <i16 as NumericArrayResizable>::spec_type_code() == 2,
        <i32 as NumericArrayResizable>::spec_type_code() == 3,
        <i64 as NumericArrayResizable>::spec_type_code() == 4,
        <u8 as NumericArrayResizable>::spec_type_code() == 5,
        <u16 as NumericArrayResizable>::spec_type_code() == 6,
        <u32 as NumericArrayResizable>::spec_type_code() == 7,
        <u64 as NumericArrayResizable>::spec_type_code() == 8,
{
}

/// The product of a sequence of sizes: the number of elements a buffer with
/// those dimensions holds.
pub open spec fn spec_element_count(sizes: Seq<usize>) -> int
    decreases sizes.len(),
{
    if sizes.len() == 0 {
        1
    } else {
        sizes[0] * spec_element_count(sizes.drop_first())
    }
}

/// Extending a sequence of sizes by one multiplies its element count by the
/// new size.
pub proof fn lemma_element_count_push(sizes: Seq<usize>, size: usize)
    ensures
        spec_element_count(sizes.push(size)) == spec_element_count(sizes) * size,
    decreases sizes.len(),
{
    if sizes.len() == 0 {
        assert(sizes.push(size).drop_first() =~= Seq::empty());
        assert(spec_element_count(sizes.push(size)) == size * spec_element_count(
            Seq::<usize>::empty(),
        ));
    } else {
        assert(sizes.push(size).drop_first() =~= sizes.drop_first().push(size));
        lemma_element_count_push(sizes.drop_first(), size);
        assert(spec_element_count(sizes.push(size)) == sizes[0] * (spec_element_count(
            sizes.drop_first(),
        ) * size));
        assert(sizes[0] * (spec_element_count(sizes.drop_first()) * size) == (sizes[0]
            * spec_element_count(sizes.drop_first())) * size) by (nonlinear_arith);
        assert(spec_element_count(sizes) == sizes[0] * spec_element_count(sizes.drop_first()));
    }
}

/// A sequence containing a zero size has element count zero.
pub proof fn lemma_element_count_zero(sizes: Seq<usize>, i: int)
    requires
        0 <= i < sizes.len(),
        sizes[i] == 0,
    ensures
        spec_element_count(sizes) == 0,
    decreases sizes.len(),
{
    if i == 0 {
    } else {
        lemma_element_count_zero(sizes.drop_first(), i - 1);
    }
}

/// A sequence of all-positive sizes has a positive element count.
pub proof fn lemma_element_count_positive(sizes: Seq<usize>)
    requires
        forall|i: int| 0 <= i < sizes.len() ==> sizes[i] > 0,
    ensures
        spec_element_count(sizes) >= 1,
    decreases sizes.len(),
{
    if sizes.len() > 0 {
        lemma_element_count_positive(sizes.drop_first());
        assert(sizes[0] * spec_element_count(sizes.drop_first()) >= 1) by (nonlinear_arith)
            requires
                sizes[0] >= 1,
                spec_element_count(sizes.drop_first()) >= 1,
        ;
    }
}

/// A prefix of an all-positive sequence of sizes counts no more elements
/// than the whole sequence.
pub proof fn lemma_element_count_prefix_bound(sizes: Seq<usize>, i: int)
    requires
        0 <= i <= sizes.len(),
        forall|j: int| 0 <= j < sizes.len() ==> sizes[j] > 0,
    ensures
        spec_element_count(sizes.take(i)) <= spec_element_count(sizes),
    decreases sizes.len() - i,
{
    if i == sizes.len() {
        assert(sizes.take(i) =~= sizes);
    } else {
        lemma_element_count_prefix_bound(sizes, i + 1);
        assert(sizes.take(i + 1) =~= sizes.take(i).push(sizes[i]));
        lemma_element_count_push(sizes.take(i), sizes[i]);
        lemma_element_count_positive(sizes.take(i));
        assert(spec_element_count(sizes.take(i)) <= spec_element_count(sizes.take(i)) * sizes[i])
            by (nonlinear_arith)
            requires
                spec_element_count(sizes.take(i)) >= 1,
                sizes[i] >= 1,
        ;
    }
}

/// An ordered, fixed-length sequence of unsigned dimension sizes, as the
/// leading words of a host-owned array buffer describe it.
pub struct LVArrayDims {
    sizes: Vec<usize>,
}

impl View for LVArrayDims {
    type V = Seq<usize>;

    closed spec fn view(&self) -> Seq<usize> {
        self.sizes@
    }
}

impl LVArrayDims {
    /// Dimensions from an explicit list of sizes.
    pub fn from_sizes(sizes: Vec<usize>) -> (dims: LVArrayDims)
        ensures
            dims@ == sizes@,
    {
        LVArrayDims { sizes }
    }

    /// The number of dimensions.
    pub fn rank(&self) -> (r: usize)
        ensures
            r == self@.len(),
    {
        self.sizes.len()
    }

    /// The size along one dimension.
    pub fn size(&self, i: usize) -> (s: usize)
        requires
            i < self@.len(),
        ensures
            s == self@[i as int],
    {
        self.sizes[i]
    }

    /// The number of elements a buffer with these dimensions holds: the
    /// product of all sizes.
    pub fn element_count(&self) -> (count: usize)
        requires
            spec_element_count(self@) <= usize::MAX,
        ensures
            count == spec_element_count(self@),
    {
        let rank = self.sizes.len();
        let mut i: usize = 0;
        while i < rank
            invariant
                rank == self@.len(),
                i <= rank,
                forall|j: int| 0 <= j < i ==> self@[j] > 0,
            decreases rank - i,
        {
            if self.sizes[i] == 0 {
                proof {
                    lemma_element_count_zero(self@, i as int);
                }
                return 0;
            }
            i = i + 1;
        }
        let mut count: usize = 1;
        let mut k: usize = 0;
        proof {
            assert(self@.take(0) =~= Seq::empty());
        }
        while k < rank
            invariant
                rank == self@.len(),
                k <= rank,
                forall|j: int| 0 <= j < rank ==> self@[j] > 0,
                spec_element_count(self@) <= usize::MAX,
                count == spec_element_count(self@.take(k as int)),
            decreases rank - k,
        {
            proof {
                lemma_element_count_push(self@.take(k as int), self@[k as int]);
                assert(self@.take(k as int + 1) =~= self@.take(k as int).push(self@[k as int]));
                lemma_element_count_prefix_bound(self@, k as int + 1);
            }
            count = count * self.sizes[k];
            k = k + 1;
        }
        proof {
            assert(self@.take(rank as int) =~= self@);
        }
        count
    }

    /// Structural equality of the size sequences.
    pub fn equals(&self, other: &LVArrayDims) -> (eq: bool)
        ensures
            eq == (self@ == other@),
    {
        let rank = self.sizes.len();
        if rank != other.sizes.len() {
            return false;
        }
        let mut i: usize = 0;
        while i < rank
            invariant
                rank == self@.len(),
                rank == other@.len(),
                i <= rank,
                forall|j: int| 0 <= j < i ==> self@[j] == other@[j],
            decreases rank - i,
        {
            if self.sizes[i] != other.sizes[i] {
                return false;
            }
            i = i + 1;
        }
        proof {
            assert(self@ =~= other@);
        }
        true
    }
}

impl PartialEq for LVArrayDims {
    fn eq(&self, other: &LVArrayDims) -> bool {
        self.equals(other)
    }
}

impl vstd::std_specs::cmp::PartialEqSpecImpl for LVArrayDims {
    open spec fn obeys_eq_spec() -> bool {
        true
    }

    open spec fn eq_spec(&self, other: &LVArrayDims) -> bool {
        self@ == other@
    }
}

/// Whether the platform's addressing width permits the resize equality
/// short-circuit: the comparison of the cached descriptor against the
/// requested one is only known safe on wide (eight-byte-word) addressing,
/// so on narrower platforms the dimensions are always re-sent to the host.
pub open spec fn spec_wide_addressing() -> bool {
    vstd::layout::size_of::<usize>() == 8
}

/// Runtime test of [`spec_wide_addressing`].
pub fn wide_addressing() -> (wide: bool)
    ensures
        wide == spec_wide_addressing(),
{
    core::mem::size_of::<usize>() == 8
}

/// Whether a resize call with the given requested dimensions skips the host
/// entirely: wide addressing and an unchanged descriptor.
pub open spec fn spec_resize_short_circuit(current: Seq<usize>, requested: Seq<usize>) -> bool {
    spec_wide_addressing() && current == requested
}

/// A wrapper around a host-owned array buffer of elements of type `T`: the
/// buffer itself stays with the host, and this side caches the dimension
/// descriptor that the buffer's leading words hold.
pub struct LVArrayHandle<T> {
    dim_sizes: LVArrayDims,
    element: core::marker::PhantomData<T>,
}

impl<T: NumericArrayResizable> LVArrayHandle<T> {
    /// The cached dimension descriptor, which matches the host's true
    /// allocation after every successful mutating operation.
    pub closed spec fn spec_dims(&self) -> Seq<usize> {
        self.dim_sizes@
    }

    /// A descriptor is well-formed when its rank fits the host's signed
    /// dimensionality argument and its element count fits an unsigned
    /// machine word.
    pub open spec fn spec_dims_wf(dims: Seq<usize>) -> bool {
        dims.len() <= i32::MAX && spec_element_count(dims) <= usize::MAX
    }

    /// Wrap a host allocation whose descriptor holds the given dimensions.
    pub fn from_dims(dim_sizes: LVArrayDims) -> (handle: LVArrayHandle<T>)
        requires
            Self::spec_dims_wf(dim_sizes@),
        ensures
            handle.spec_dims() == dim_sizes@,
    {
        LVArrayHandle { dim_sizes, element: core::marker::PhantomData }
    }

    /// The cached dimension descriptor.
    pub fn dim_sizes(&self) -> (dims: &LVArrayDims)
        ensures
            dims@ == self.spec_dims(),
    {
        &self.dim_sizes
    }

    /// Resize the host-owned array to the new dimensions through the host's
    /// resize primitive, reached by the `host_resize` callback with the
    /// element type's code, the dimensionality, and the requested element
    /// count.  On wide addressing an unchanged descriptor skips the host
    /// call outright.  A zero status commits the new dimensions; any nonzero
    /// status leaves the cached descriptor exactly as it was, so the cache
    /// never disagrees with the host's true allocation.
    pub fn resize_array<H: FnOnce(i32, i32, usize) -> LVStatusCode>(
        &mut self,
        new_dims: LVArrayDims,
        host_resize: H,
    ) -> (r: Result<(), LVInteropError>)
        requires
            Self::spec_dims_wf(old(self).spec_dims()),
            Self::spec_dims_wf(new_dims@),
            new_dims@.len() == old(self).spec_dims().len(),
            !spec_resize_short_circuit(old(self).spec_dims(), new_dims@) ==> call_requires(
                host_resize,
                (
                    T::spec_type_code(),
                    new_dims@.len() as i32,
                    spec_element_count(new_dims@) as usize,
                ),
            ),
        ensures
            r is Ok ==> final(self).spec_dims() == new_dims@,
            r is Err ==> final(self).spec_dims() == old(self).spec_dims(),
            Self::spec_dims_wf(final(self).spec_dims()),
            spec_resize_short_circuit(old(self).spec_dims(), new_dims@) ==> (r is Ok
                && final(self).spec_dims() == old(self).spec_dims()),
            !spec_resize_short_circuit(old(self).spec_dims(), new_dims@) ==> exists|
                status: LVStatusCode,
            |
                {
                    &&& #[trigger] call_ensures(
                        host_resize,
                        (
                            T::spec_type_code(),
                            new_dims@.len() as i32,
                            spec_element_count(new_dims@) as usize,
                        ),
                        status,
                    )
                    &&& if status == 0 {
                        r is Ok
                    } else {
                        r == Result::<(), LVInteropError>::Err(
                            LVInteropError::MemoryManager { status },
                        )
                    }
                },
    {
        if wide_addressing() && self.dim_sizes == new_dims {
            return Ok(());
        }
        let new_size = new_dims.element_count();
        let type_code = T::type_code();
        let rank = new_dims.rank() as i32;
        let status = host_resize(type_code, rank, new_size);
        if status == 0 {
            self.dim_sizes = new_dims;
            Ok(())
        } else {
            Err(LVInteropError::MemoryManager { status })
        }
    }
}

} // verus!
