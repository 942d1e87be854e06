use vstd::prelude::*;
use crate::types::{NonNegativeI32, PositiveI32, Scalar};

verus! {

/// Codes of the kernel's `ManifoldOpType` enumeration, in the order of its C header.
pub const MANIFOLD_ADD: u32 = 0;
pub const MANIFOLD_SUBTRACT: u32 = 1;
pub const MANIFOLD_INTERSECT: u32 = 2;

/// The Boolean operation to apply to two or more solids.
#[derive(Debug, Clone, Copy, PartialEq, Eq, Structural)]
pub enum BooleanOperation {
    Add,
    Subtract,
    Intersect,
}

/// The kernel code of a Boolean operation.
pub open spec fn code_of_operation(op: BooleanOperation) -> u32 {
    match op {
        BooleanOperation::Add => MANIFOLD_ADD,
        BooleanOperation::Subtract => MANIFOLD_SUBTRACT,
        BooleanOperation::Intersect => MANIFOLD_INTERSECT,
    }
}

impl From<BooleanOperation> for u32 {
    fn from(val: BooleanOperation) -> (r: u32) {
        match val {
            BooleanOperation::Add => MANIFOLD_ADD,
            BooleanOperation::Subtract => MANIFOLD_SUBTRACT,
            BooleanOperation::Intersect => MANIFOLD_INTERSECT,
        }
    }
}

impl vstd::std_specs::convert::FromSpecImpl<BooleanOperation> for u32 {
    open spec fn obeys_from_spec() -> bool {
        true
    }

    open spec fn from_spec(v: BooleanOperation) -> u32 {
        code_of_operation(v)
    }
}

/// Why a value was refused as an edge split count.
#[derive(Debug, Clone, Copy, PartialEq, Eq, Structural)]
pub enum EdgeSplitCountError {
    TooSmall { minimum: i32, actual: i32 },
}

/// The number of pieces each edge is split into when refining a mesh: at least two.
#[derive(Debug, Clone, Copy, PartialEq, Eq)]
pub struct EdgeSplitCount(PositiveI32);

/// The smallest edge split count the kernel accepts.
pub const EDGE_SPLIT_COUNT_MINIMUM: i32 = 2;

impl EdgeSplitCount {
    pub const MINIMUM: i32 = EDGE_SPLIT_COUNT_MINIMUM;

    #[verifier::type_invariant]
    spec fn is_large_enough(self) -> bool {
        self.0.value() >= EDGE_SPLIT_COUNT_MINIMUM
    }

    /// The count as a plain integer.
    pub closed spec fn count(self) -> i32 {
        self.0.value()
    }

    pub fn new(num: PositiveI32) -> (r: Result<Self, EdgeSplitCountError>)
        ensures
            num.value() >= EDGE_SPLIT_COUNT_MINIMUM <==> r is Ok,
            r matches Ok(c) ==> c.count() == num.value(),
            r matches Err(e) ==> e == (EdgeSplitCountError::TooSmall {
                minimum: EDGE_SPLIT_COUNT_MINIMUM,
                actual: num.value(),
            }),
    {
        let actual = num.get();
        if actual < EDGE_SPLIT_COUNT_MINIMUM {
            return Err(EdgeSplitCountError::TooSmall { minimum: EDGE_SPLIT_COUNT_MINIMUM, actual });
        }
        Ok(EdgeSplitCount(num))
    }

    pub fn get(&self) -> (r: PositiveI32)
        ensures
            r.value() == self.count(),
            r.value() >= EDGE_SPLIT_COUNT_MINIMUM,
    {
        proof { use_type_invariant(self); }
        self.0
    }
}

impl From<EdgeSplitCount> for i32 {
    fn from(val: EdgeSplitCount) -> (r: i32) {
        val.get().get()
    }
}

impl vstd::std_specs::convert::FromSpecImpl<EdgeSplitCount> for i32 {
    open spec fn obeys_from_spec() -> bool {
        true
    }

    open spec fn from_spec(v: EdgeSplitCount) -> i32 {
        v.count()
    }
}

/// The segment count handed to the kernel when building a round solid: the
/// chosen count, or zero, which tells the kernel to use its global quality settings.
pub open spec fn spec_circular_segments_arg(circular_segments: Option<PositiveI32>) -> i32 {
    match circular_segments {
        Some(c) => c.value(),
        None => 0,
    }
}

pub fn circular_segments_arg(circular_segments: Option<PositiveI32>) -> (r: i32)
    ensures
        r == spec_circular_segments_arg(circular_segments),
        r >= 0,
{
    match circular_segments {
        Some(c) => c.get(),
        None => 0,
    }
}

/// The property channel handed to the kernel for an optional output: the chosen
/// index, or -1 when that output is not wanted.
pub open spec fn spec_property_index_arg(index: Option<NonNegativeI32>) -> i32 {
    match index {
        Some(i) => i.value(),
        None => -1i32,
    }
}

pub fn property_index_arg(index: Option<NonNegativeI32>) -> (r: i32)
    ensures
        r == spec_property_index_arg(index),
        r >= -1,
        (r == -1) == (index is None),
{
    match index {
        Some(i) => i.get(),
        None => -1,
    }
}

/// Reads the kernel's original-id answer, where -1 means that the solid has no
/// original id.
pub fn original_id_from_raw(raw: i32) -> (r: Option<i32>)
    ensures
        raw == -1 ==> r is None,
        raw != -1 ==> r == Some(raw),
{
    if raw == -1 {
        None
    } else {
        Some(raw)
    }
}

/// The operands of a batched Boolean operation, in the order the kernel takes
/// them: the head first, then the others. With no others there is nothing to
/// batch and the result is `None`: the operation is the head itself.
pub fn batch_operands<H: Copy>(head: H, others: &[H]) -> (r: Option<Vec<H>>)
    requires
        others@.len() < usize::MAX,
    ensures
        others@.len() == 0 <==> r is None,
        r matches Some(v) ==> v@ == seq![head] + others@,
{
    if others.len() == 0 {
        return None;
    }
    let mut operands: Vec<H> = Vec::with_capacity(others.len() + 1);
    operands.push(head);
    let mut i: usize = 0;
    while i < others.len()
        invariant
            0 <= i <= others@.len(),
            operands@ == seq![head] + others@.subrange(0, i as int),
        decreases others@.len() - i,
    {
        operands.push(others[i]);
        proof {
            assert(others@.subrange(0, i + 1) == others@.subrange(0, i as int).push(others@[i as int]));
        }
        i = i + 1;
    }
    proof {
        assert(others@.subrange(0, others@.len() as int) == others@);
    }
    Some(operands)
}

} // verus!
