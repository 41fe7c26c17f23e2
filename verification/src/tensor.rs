//! The column-resource and value-tensor models that the circuit logic works
//! on. A column resource is a handle to a fixed-width, fixed-height region
//! of circuit storage; a value tensor carries the concrete cell values of
//! one operand on the integer value model, and remembers whether they were
//! supplied externally (as a public instance) or are ordinary witness
//! values.

use vstd::prelude::*;

use crate::backend::advice_col_dup;
use crate::backend::cs_advice_column;
use crate::backend::cs_fixed_column;
use crate::backend::fixed_col_dup;
use crate::backend::AdviceColumn;
use crate::backend::BuilderModel;
use crate::backend::FixedColumn;
use crate::backend::GateInput;
use crate::backend::SysBuilder;

verus! {

/// A 2-D region of circuit storage: witness-backed, constant-backed, a
/// placeholder of fixed height with no allocated columns, or unbound.
pub enum VarTensor {
    Advice { cols: Vec<AdviceColumn>, col_size: usize },
    Fixed { cols: Vec<FixedColumn>, col_size: usize },
    Dummy { col_size: usize },
    Empty,
}

impl VarTensor {
    /// How many columns the resource spans. A placeholder counts as one
    /// logical column; an unbound resource has none.
    pub open spec fn spec_num_cols(&self) -> nat {
        match self {
            VarTensor::Advice { cols, .. } => cols@.len(),
            VarTensor::Fixed { cols, .. } => cols@.len(),
            VarTensor::Dummy { .. } => 1,
            VarTensor::Empty => 0,
        }
    }

    /// How many rows each column holds.
    pub open spec fn spec_col_size(&self) -> nat {
        match self {
            VarTensor::Advice { col_size, .. } => *col_size as nat,
            VarTensor::Fixed { col_size, .. } => *col_size as nat,
            VarTensor::Dummy { col_size } => *col_size as nat,
            VarTensor::Empty => 0,
        }
    }

    pub open spec fn is_advice(&self) -> bool {
        self is Advice
    }

    pub open spec fn is_fixed(&self) -> bool {
        self is Fixed
    }

    /// Whether the resource is backed by circuit columns at all.
    pub open spec fn is_columns(&self) -> bool {
        self.is_advice() || self.is_fixed()
    }

    /// Whether every witness column of the resource may be queried on the
    /// builder with the given identity and advice-column count; resources
    /// without witness columns carry no such obligation.
    pub open spec fn owned_by(&self, id: nat, advice_count: nat) -> bool {
        match self {
            VarTensor::Advice { cols, .. } => forall|i: int|
                0 <= i < cols@.len() ==> (#[trigger] cols@[i]).owner() == id && cols@[i].index()
                    < advice_count,
            _ => true,
        }
    }

    pub open spec fn is_empty(&self) -> bool {
        self is Empty
    }

    pub fn is_empty_kind(&self) -> (r: bool)
        ensures
            r == self.is_empty(),
    {
        match self {
            VarTensor::Empty => true,
            _ => false,
        }
    }

    pub fn num_cols(&self) -> (r: usize)
        ensures
            r as nat == self.spec_num_cols(),
    {
        match self {
            VarTensor::Advice { cols, .. } => cols.len(),
            VarTensor::Fixed { cols, .. } => cols.len(),
            VarTensor::Dummy { .. } => 1,
            VarTensor::Empty => 0,
        }
    }

    pub fn col_size(&self) -> (r: usize)
        ensures
            r as nat == self.spec_col_size(),
    {
        match self {
            VarTensor::Advice { col_size, .. } => *col_size,
            VarTensor::Fixed { col_size, .. } => *col_size,
            VarTensor::Dummy { col_size } => *col_size,
            VarTensor::Empty => 0,
        }
    }

    /// A handle on the `i`-th advice column of a witness-backed resource.
    pub fn advice_col(&self, i: usize) -> (r: AdviceColumn)
        requires
            self.is_advice(),
            i < self.spec_num_cols(),
        ensures
            self matches VarTensor::Advice { cols, .. } && r == cols@[i as int],
    {
        match self {
            VarTensor::Advice { cols, .. } => advice_col_dup(&cols[i]),
            _ => unreached(),
        }
    }

    /// The `i`-th column of a columns-backed resource as a gate input.
    pub fn input_col(&self, i: usize) -> (r: GateInput)
        requires
            self.is_columns(),
            i < self.spec_num_cols(),
        ensures
            self matches VarTensor::Advice { cols, .. } ==> (r matches GateInput::Witness(c) && c
                == cols@[i as int]),
            self matches VarTensor::Fixed { cols, .. } ==> (r matches GateInput::Constant(c) && c
                == cols@[i as int]),
    {
        match self {
            VarTensor::Advice { cols, .. } => GateInput::Witness(advice_col_dup(&cols[i])),
            VarTensor::Fixed { cols, .. } => GateInput::Constant(fixed_col_dup(&cols[i])),
            _ => unreached(),
        }
    }

    /// A fresh witness-backed resource of `num_cols` columns, each of
    /// `col_size` rows.
    pub fn new_advice(cs: &mut SysBuilder, num_cols: usize, col_size: usize) -> (r: VarTensor)
        ensures
            r.is_advice(),
            r.spec_num_cols() == num_cols as nat,
            r.spec_col_size() == col_size as nat,
            final(cs).model() == (BuilderModel {
                advice_columns: old(cs).model().advice_columns + num_cols as nat,
                ..old(cs).model()
            }),
            final(cs).id() == old(cs).id(),
            r.owned_by(old(cs).id(), final(cs).model().advice_columns),
    {
        let mut cols: Vec<AdviceColumn> = Vec::new();
        let mut i: usize = 0;
        while i < num_cols
            invariant
                cols@.len() == i as nat,
                i <= num_cols,
                cs.id() == old(cs).id(),
                cs.model() == (BuilderModel {
                    advice_columns: old(cs).model().advice_columns + i as nat,
                    ..old(cs).model()
                }),
                forall|m: int|
                    0 <= m < i as int ==> (#[trigger] cols@[m]).owner() == old(cs).id()
                        && cols@[m].index() < cs.model().advice_columns,
            decreases num_cols - i,
        {
            cols.push(cs_advice_column(cs));
            i = i + 1;
        }
        VarTensor::Advice { cols, col_size }
    }

    /// A fresh constant-backed resource of `num_cols` columns, each of
    /// `col_size` rows.
    pub fn new_fixed(cs: &mut SysBuilder, num_cols: usize, col_size: usize) -> (r: VarTensor)
        ensures
            r.is_fixed(),
            r.spec_num_cols() == num_cols as nat,
            r.spec_col_size() == col_size as nat,
            final(cs).id() == old(cs).id(),
            final(cs).model() == (BuilderModel {
                fixed_columns: old(cs).model().fixed_columns + num_cols as nat,
                ..old(cs).model()
            }),
    {
        let mut cols: Vec<FixedColumn> = Vec::new();
        let mut i: usize = 0;
        while i < num_cols
            invariant
                cols@.len() == i as nat,
                i <= num_cols,
                cs.id() == old(cs).id(),
                cs.model() == (BuilderModel {
                    fixed_columns: old(cs).model().fixed_columns + i as nat,
                    ..old(cs).model()
                }),
            decreases num_cols - i,
        {
            cols.push(cs_fixed_column(cs));
            i = i + 1;
        }
        VarTensor::Fixed { cols, col_size }
    }

    /// An exact copy of the resource: same kind, same column handles, same
    /// height.
    pub fn duplicate(&self) -> (r: VarTensor)
        ensures
            tensor_eq(r, *self),
    {
        match self {
            VarTensor::Advice { cols, col_size } => {
                let mut c2: Vec<AdviceColumn> = Vec::new();
                let mut i: usize = 0;
                while i < cols.len()
                    invariant
                        i <= cols@.len(),
                        c2@ =~= cols@.subrange(0, i as int),
                    decreases cols@.len() - i,
                {
                    c2.push(advice_col_dup(&cols[i]));
                    i = i + 1;
                }
                proof {
                    assert(c2@ =~= cols@);
                }
                VarTensor::Advice { cols: c2, col_size: *col_size }
            },
            VarTensor::Fixed { cols, col_size } => {
                let mut c2: Vec<FixedColumn> = Vec::new();
                let mut i: usize = 0;
                while i < cols.len()
                    invariant
                        i <= cols@.len(),
                        c2@ =~= cols@.subrange(0, i as int),
                    decreases cols@.len() - i,
                {
                    c2.push(fixed_col_dup(&cols[i]));
                    i = i + 1;
                }
                proof {
                    assert(c2@ =~= cols@);
                }
                VarTensor::Fixed { cols: c2, col_size: *col_size }
            },
            VarTensor::Dummy { col_size } => VarTensor::Dummy { col_size: *col_size },
            VarTensor::Empty => VarTensor::Empty,
        }
    }

    /// A placeholder resource of fixed height with no allocated columns,
    /// for configurations that are never handed to the builder.
    pub fn dummy(col_size: usize) -> (r: VarTensor)
        ensures
            r matches VarTensor::Dummy { col_size: c } && c == col_size,
    {
        VarTensor::Dummy { col_size }
    }
}

/// The cell-value vectors of a list of operands, in order, blind to
/// whether each was externally supplied: what an operation's layout may
/// depend on.
pub open spec fn vals_of(vs: Seq<ValTensor>) -> Seq<Seq<i64>> {
    vs.map_values(|t: ValTensor| t.vals())
}

/// Whether two column resources are the same resource: same kind, same
/// column handles, same height.
pub open spec fn tensor_eq(a: VarTensor, b: VarTensor) -> bool {
    match (a, b) {
        (
            VarTensor::Advice { cols: c1, col_size: s1 },
            VarTensor::Advice { cols: c2, col_size: s2 },
        ) => c1@ == c2@ && s1 == s2,
        (
            VarTensor::Fixed { cols: c1, col_size: s1 },
            VarTensor::Fixed { cols: c2, col_size: s2 },
        ) => c1@ == c2@ && s1 == s2,
        (VarTensor::Dummy { col_size: s1 }, VarTensor::Dummy { col_size: s2 }) => s1 == s2,
        (VarTensor::Empty, VarTensor::Empty) => true,
        _ => false,
    }
}

/// The concrete cell values of one operand, on the integer value model.
/// An `Instance` tensor carries externally supplied (public) values, which
/// gates and lookups cannot read directly; a `Value` tensor carries
/// ordinary witness values.
#[derive(Clone, Debug, PartialEq, Eq)]
pub enum ValTensor {
    Value { inner: Vec<i64> },
    Instance { inner: Vec<i64> },
}

impl ValTensor {
    /// The cell values, regardless of kind.
    pub open spec fn vals(&self) -> Seq<i64> {
        match self {
            ValTensor::Value { inner } => inner@,
            ValTensor::Instance { inner } => inner@,
        }
    }

    pub open spec fn is_instance(&self) -> bool {
        self is Instance
    }

    pub fn len(&self) -> (r: usize)
        ensures
            r as nat == self.vals().len(),
    {
        match self {
            ValTensor::Value { inner } => inner.len(),
            ValTensor::Instance { inner } => inner.len(),
        }
    }

    /// The `i`-th cell value.
    pub fn get(&self, i: usize) -> (r: i64)
        requires
            i < self.vals().len(),
        ensures
            r == self.vals()[i as int],
    {
        match self {
            ValTensor::Value { inner } => inner[i],
            ValTensor::Instance { inner } => inner[i],
        }
    }

    pub fn is_instance_kind(&self) -> (r: bool)
        ensures
            r == self.is_instance(),
    {
        match self {
            ValTensor::Instance { .. } => true,
            _ => false,
        }
    }

    /// The same values as an owned witness tensor, whatever the kind; used
    /// where a pass-through must stay non-instance.
    pub fn duplicate_as_value(&self) -> (r: ValTensor)
        ensures
            !r.is_instance(),
            r.vals() == self.vals(),
    {
        self.to_witness()
    }

    /// The same values as an owned witness tensor.
    pub fn to_witness(&self) -> (r: ValTensor)
        ensures
            !r.is_instance(),
            r.vals() == self.vals(),
    {
        match self {
            ValTensor::Value { inner } => ValTensor::Value { inner: copy_vals(inner) },
            ValTensor::Instance { inner } => ValTensor::Value { inner: copy_vals(inner) },
        }
    }

    /// An exact copy, same kind and same values.
    pub fn duplicate(&self) -> (r: ValTensor)
        ensures
            r.vals() == self.vals(),
            r.is_instance() == self.is_instance(),
    {
        match self {
            ValTensor::Value { inner } => ValTensor::Value { inner: copy_vals(inner) },
            ValTensor::Instance { inner } => ValTensor::Instance { inner: copy_vals(inner) },
        }
    }
}

/// An element-wise copy of a value vector.
pub(crate) fn copy_vals(v: &Vec<i64>) -> (r: Vec<i64>)
    ensures
        r@ == v@,
{
    let mut r: Vec<i64> = Vec::new();
    let mut i: usize = 0;
    while i < v.len()
        invariant
            i <= v@.len(),
            r@ == v@.subrange(0, i as int),
        decreases v@.len() - i,
    {
        r.push(v[i]);
        i = i + 1;
    }
    proof {
        assert(r@ == v@.subrange(0, v@.len() as int));
        assert(v@.subrange(0, v@.len() as int) == v@);
    }
    r
}

} // verus!
