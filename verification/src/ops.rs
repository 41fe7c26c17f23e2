//! The operation dispatch interface and the primitive layout routines that
//! concrete operations build on. Every higher-level tensor operation
//! implements `Op`; its layout routine may only use the configuration's
//! primitives, reads the substituted operand values, and advances the
//! shared row cursor by however many rows it consumes.

use vstd::prelude::*;

use crate::base::lemma_range_identity_vanishes;
use crate::base::range_identity;
use crate::base::BaseOp;
use crate::config::BaseConfig;
use crate::tensor::vals_of;
use crate::tensor::ValTensor;
use crate::CircuitError;

verus! {

/// The polymorphic contract of one tensor operation: lay itself out given
/// the configuration, the operand values and the row cursor. Each
/// operation defines, at the specification level, which operand value
/// vectors it accepts at a given cursor position, the cell values of its
/// output (none for a pure side-effecting assertion), and how many rows it
/// consumes; its layout routine succeeds exactly on accepted operands,
/// produces exactly that output, advances the cursor by exactly that
/// many rows, never mutates the configuration's structure, and changes nothing
/// on failure.
pub trait Op {
    /// Whether the operation succeeds on these operand value vectors with
    /// the row cursor at `offset`.
    spec fn accepts(&self, operands: Seq<Seq<i64>>, offset: nat) -> bool;

    /// The cell values of the operation's output on accepted operands;
    /// `None` for an operation that produces no output.
    spec fn spec_output_vals(&self, operands: Seq<Seq<i64>>) -> Option<Seq<i64>>;

    /// How many rows the operation consumes on accepted operands.
    spec fn spec_rows(&self, operands: Seq<Seq<i64>>) -> nat;

    fn layout(
        &self,
        config: &mut BaseConfig,
        values: &Vec<ValTensor>,
        offset: &mut usize,
    ) -> (r: Result<Option<ValTensor>, CircuitError>)
        requires
            old(config).wf(),
        ensures
            final(config).wf(),
            final(config).same_structure(old(config)),
            *final(offset) >= *old(offset),
            r is Ok <==> self.accepts(vals_of(values@), *old(offset) as nat),
            r matches Ok(out) ==> {
                &&& (out is Some <==> self.spec_output_vals(vals_of(values@)) is Some)
                &&& (out matches Some(t) ==> !t.is_instance() && Some(t.vals())
                    == self.spec_output_vals(vals_of(values@)))
                &&& *final(offset) == *old(offset) + self.spec_rows(vals_of(values@))
            },
            r is Err ==> (*final(offset) == *old(offset) && *final(config) == *old(config)),
    ;
}

/// The window of cell values the integer value model supports for
/// arithmetic layout; products of two window values always fit the model.
pub open spec fn val_in_window(x: int) -> bool {
    -0x8000_0000 <= x <= 0x8000_0000
}

/// The pairwise arithmetic kinds: two inputs, no accumulation across rows.
pub open spec fn is_pairwise(base: BaseOp) -> bool {
    base is Add || base is Sub || base is Mult
}

/// Lays out one pairwise arithmetic operation: cell by cell, the output
/// holds the operation's function of the two input cells, and the cursor
/// advances by one row per cell. Operands must be exactly two tensors of
/// equal length, the operation must be a pairwise kind, every cell value
/// must lie in the supported window, and the advanced cursor must still
/// fit; otherwise nothing changes and the specific error says why.
#[verifier::rlimit(40)]
pub fn pairwise_layout(
    config: &mut BaseConfig,
    base: &BaseOp,
    values: &Vec<ValTensor>,
    offset: &mut usize,
) -> (r: Result<Option<ValTensor>, CircuitError>)
    requires
        old(config).wf(),
    ensures
        final(config).wf(),
        *final(config) == *old(config),
        *final(offset) >= *old(offset),
        r is Ok <==> {
            &&& values@.len() == 2
            &&& values@[0].vals().len() == values@[1].vals().len()
            &&& is_pairwise(*base)
            &&& (forall|i: int|
                0 <= i < values@[0].vals().len() ==> val_in_window(
                    #[trigger] values@[0].vals()[i] as int,
                ) && val_in_window(values@[1].vals()[i] as int))
            &&& *old(offset) + values@[0].vals().len() <= usize::MAX
        },
        r matches Ok(out) ==> {
            &&& out matches Some(t)
            &&& !t.is_instance()
            &&& t.vals().len() == values@[0].vals().len()
            &&& forall|i: int|
                0 <= i < t.vals().len() ==> #[trigger] t.vals()[i] as int == base.spec_f(
                    values@[0].vals()[i] as int,
                    values@[1].vals()[i] as int,
                    0,
                )
            &&& *final(offset) == *old(offset) + t.vals().len()
        },
        r is Err ==> *final(offset) == *old(offset),
        r matches Err(e) ==> {
            &&& (values@.len() != 2 || (values@.len() == 2 && values@[0].vals().len()
                != values@[1].vals().len())) <==> e is DimMismatch
            &&& (values@.len() == 2 && values@[0].vals().len() == values@[1].vals().len()
                && !is_pairwise(*base)) ==> e is UnsupportedOp
        },
{
    if values.len() != 2 {
        return Err(CircuitError::DimMismatch("pairwise arity"));
    }
    let n = values[0].len();
    if values[1].len() != n {
        return Err(CircuitError::DimMismatch("pairwise operand length"));
    }
    let two_input = match base {
        BaseOp::Add | BaseOp::Sub | BaseOp::Mult => true,
        _ => false,
    };
    if !two_input {
        return Err(CircuitError::UnsupportedOp);
    }
    let mut i: usize = 0;
    while i < n
        invariant
            old(config).wf(),
            *config == *old(config),
            *offset == *old(offset),
            n as nat == values@[0].vals().len(),
            n as nat == values@[1].vals().len(),
            values@.len() == 2,
            i <= n,
            forall|m: int|
                0 <= m < i as int ==> val_in_window(#[trigger] values@[0].vals()[m] as int)
                    && val_in_window(values@[1].vals()[m] as int),
        decreases n - i,
    {
        let a = values[0].get(i);
        let b = values[1].get(i);
        if a < -0x8000_0000i64 || a > 0x8000_0000i64 || b < -0x8000_0000i64
            || b > 0x8000_0000i64 {
            return Err(CircuitError::UnsupportedOp);
        }
        proof {
            assert(a == values@[0].vals()[i as int]);
            assert(b == values@[1].vals()[i as int]);
            assert forall|m: int|
                0 <= m < i as int + 1 implies val_in_window(
                #[trigger] values@[0].vals()[m] as int,
            ) && val_in_window(values@[1].vals()[m] as int) by {
                if m == i as int {
                    assert(val_in_window(a as int));
                    assert(val_in_window(b as int));
                }
            }
        }
        i = i + 1;
    }
    if usize::MAX - n < *offset {
        return Err(CircuitError::UnsupportedOp);
    }
    let mut out: Vec<i64> = Vec::new();
    let mut j: usize = 0;
    while j < n
        invariant
            old(config).wf(),
            *config == *old(config),
            *offset == *old(offset),
            n as nat == values@[0].vals().len(),
            n as nat == values@[1].vals().len(),
            values@.len() == 2,
            is_pairwise(*base),
            j <= n,
            out@.len() == j as nat,
            forall|m: int|
                0 <= m < n as int ==> val_in_window(#[trigger] values@[0].vals()[m] as int)
                    && val_in_window(values@[1].vals()[m] as int),
            forall|m: int|
                0 <= m < j as int ==> #[trigger] out@[m] as int == base.spec_f(
                    values@[0].vals()[m] as int,
                    values@[1].vals()[m] as int,
                    0,
                ),
        decreases n - j,
    {
        let a = values[0].get(j);
        let b = values[1].get(j);
        proof {
            assert(val_in_window(a as int) && val_in_window(b as int));
            assert(a as int * b as int <= 0x4000_0000_0000_0000) by (nonlinear_arith)
                requires
                    val_in_window(a as int),
                    val_in_window(b as int),
            ;
            assert(a as int * b as int >= -0x4000_0000_0000_0000) by (nonlinear_arith)
                requires
                    val_in_window(a as int),
                    val_in_window(b as int),
            ;
        }
        let c = base.f(a, b, 0);
        out.push(c);
        j = j + 1;
    }
    *offset = *offset + n;
    Ok(Some(ValTensor::Value { inner: out }))
}

/// Lays out the identity operation: the single operand is copied into an
/// owned witness tensor of the same values, and the cursor advances by one
/// row per cell. The operand count must be one and the advanced cursor
/// must fit; otherwise nothing changes.
pub fn identity_layout(
    config: &mut BaseConfig,
    values: &Vec<ValTensor>,
    offset: &mut usize,
) -> (r: Result<Option<ValTensor>, CircuitError>)
    requires
        old(config).wf(),
    ensures
        final(config).wf(),
        *final(config) == *old(config),
        *final(offset) >= *old(offset),
        r is Ok <==> (values@.len() == 1 && *old(offset) + values@[0].vals().len()
            <= usize::MAX),
        r matches Ok(out) ==> {
            &&& out matches Some(t)
            &&& !t.is_instance()
            &&& t.vals() == values@[0].vals()
            &&& *final(offset) == *old(offset) + t.vals().len()
        },
        r is Err ==> *final(offset) == *old(offset),
        values@.len() != 1 ==> (r matches Err(e) && e is DimMismatch),
{
    if values.len() != 1 {
        return Err(CircuitError::DimMismatch("identity arity"));
    }
    let n = values[0].len();
    if usize::MAX - n < *offset {
        return Err(CircuitError::UnsupportedOp);
    }
    let out = values[0].to_witness();
    *offset = *offset + n;
    Ok(Some(out))
}

/// The pairwise arithmetic operation, dispatched through the operation
/// interface.
pub struct PairwiseOp {
    pub base: BaseOp,
}

impl Op for PairwiseOp {
    open spec fn accepts(&self, operands: Seq<Seq<i64>>, offset: nat) -> bool {
        &&& operands.len() == 2
        &&& operands[0].len() == operands[1].len()
        &&& is_pairwise(self.base)
        &&& (forall|i: int|
            0 <= i < operands[0].len() ==> val_in_window(#[trigger] operands[0][i] as int)
                && val_in_window(operands[1][i] as int))
        &&& offset + operands[0].len() <= usize::MAX
    }

    open spec fn spec_output_vals(&self, operands: Seq<Seq<i64>>) -> Option<Seq<i64>> {
        Some(
            Seq::new(
                operands[0].len(),
                |i: int|
                    (self.base.spec_f(operands[0][i] as int, operands[1][i] as int, 0)) as i64,
            ),
        )
    }

    open spec fn spec_rows(&self, operands: Seq<Seq<i64>>) -> nat {
        operands[0].len()
    }

    fn layout(
        &self,
        config: &mut BaseConfig,
        values: &Vec<ValTensor>,
        offset: &mut usize,
    ) -> (r: Result<Option<ValTensor>, CircuitError>) {
        let r = pairwise_layout(config, &self.base, values, offset);
        proof {
            let ops_ = vals_of(values@);
            assert forall|j: int| 0 <= j < ops_.len() implies #[trigger] ops_[j]
                == values@[j].vals() by {}
            if r is Ok {
                let out = r->Ok_0;
                if out is Some {
                    let t = out->Some_0;
                    let expect = self.spec_output_vals(ops_)->Some_0;
                    assert forall|i: int| 0 <= i < t.vals().len() implies #[trigger] t.vals()[i]
                        == expect[i] by {
                        assert(t.vals()[i] as int == self.base.spec_f(
                            values@[0].vals()[i] as int,
                            values@[1].vals()[i] as int,
                            0,
                        ));
                    }
                    assert(t.vals() =~= expect);
                }
            }
        }
        r
    }
}

/// The identity operation, dispatched through the operation interface.
pub struct IdentityOp;

impl Op for IdentityOp {
    open spec fn accepts(&self, operands: Seq<Seq<i64>>, offset: nat) -> bool {
        &&& operands.len() == 1
        &&& offset + operands[0].len() <= usize::MAX
    }

    open spec fn spec_output_vals(&self, operands: Seq<Seq<i64>>) -> Option<Seq<i64>> {
        Some(operands[0])
    }

    open spec fn spec_rows(&self, operands: Seq<Seq<i64>>) -> nat {
        operands[0].len()
    }

    fn layout(
        &self,
        config: &mut BaseConfig,
        values: &Vec<ValTensor>,
        offset: &mut usize,
    ) -> (r: Result<Option<ValTensor>, CircuitError>) {
        let r = identity_layout(config, values, offset);
        proof {
            let ops_ = vals_of(values@);
            assert forall|j: int| 0 <= j < ops_.len() implies #[trigger] ops_[j]
                == values@[j].vals() by {}
        }
        r
    }
}

/// The running accumulation of the dot product: the value the `i`-th
/// output row holds, the sum of the products of the first `i + 1` cell
/// pairs.
pub open spec fn spec_dot_prefix(a: Seq<i64>, b: Seq<i64>, i: int) -> int
    decreases i + 1,
{
    if i < 0 {
        0
    } else {
        spec_dot_prefix(a, b, i - 1) + a[i] * b[i]
    }
}

/// The running accumulation of the sum: the value the `i`-th output row
/// holds, the sum of the first `i + 1` cells.
pub open spec fn spec_sum_prefix(b: Seq<i64>, i: int) -> int
    decreases i + 1,
{
    if i < 0 {
        0
    } else {
        spec_sum_prefix(b, i - 1) + b[i]
    }
}

/// Lays out the dot-product accumulation: the output holds one running
/// partial sum per cell pair, the polynomial identity constrains each row
/// against the previous one, and the cursor advances by one row per pair.
/// Operands must be exactly two tensors of equal length, every cell must
/// lie in the supported window, every partial sum must fit the value
/// model, and the advanced cursor must still fit; otherwise nothing
/// changes.
#[verifier::rlimit(40)]
pub fn dot_layout(
    config: &mut BaseConfig,
    values: &Vec<ValTensor>,
    offset: &mut usize,
) -> (r: Result<Option<ValTensor>, CircuitError>)
    requires
        old(config).wf(),
    ensures
        final(config).wf(),
        *final(config) == *old(config),
        *final(offset) >= *old(offset),
        r is Ok <==> {
            &&& values@.len() == 2
            &&& values@[0].vals().len() == values@[1].vals().len()
            &&& (forall|i: int|
                0 <= i < values@[0].vals().len() ==> val_in_window(
                    #[trigger] values@[0].vals()[i] as int,
                ) && val_in_window(values@[1].vals()[i] as int))
            &&& (forall|i: int|
                0 <= i < values@[0].vals().len() ==> i64::MIN <= #[trigger] spec_dot_prefix(
                    values@[0].vals(),
                    values@[1].vals(),
                    i,
                ) <= i64::MAX)
            &&& *old(offset) + values@[0].vals().len() <= usize::MAX
        },
        r matches Ok(out) ==> {
            &&& out matches Some(t)
            &&& !t.is_instance()
            &&& t.vals().len() == values@[0].vals().len()
            &&& forall|i: int|
                0 <= i < t.vals().len() ==> #[trigger] t.vals()[i] as int == spec_dot_prefix(
                    values@[0].vals(),
                    values@[1].vals(),
                    i,
                )
            &&& *final(offset) == *old(offset) + t.vals().len()
        },
        r is Err ==> *final(offset) == *old(offset),
        values@.len() != 2 ==> (r matches Err(e) && e is DimMismatch),
{
    if values.len() != 2 {
        return Err(CircuitError::DimMismatch("dot arity"));
    }
    let n = values[0].len();
    if values[1].len() != n {
        return Err(CircuitError::DimMismatch("dot operand length"));
    }
    let mut i: usize = 0;
    while i < n
        invariant
            old(config).wf(),
            *config == *old(config),
            *offset == *old(offset),
            n as nat == values@[0].vals().len(),
            n as nat == values@[1].vals().len(),
            values@.len() == 2,
            i <= n,
            forall|m: int|
                0 <= m < i as int ==> val_in_window(#[trigger] values@[0].vals()[m] as int)
                    && val_in_window(values@[1].vals()[m] as int),
        decreases n - i,
    {
        let a = values[0].get(i);
        let b = values[1].get(i);
        if a < -0x8000_0000i64 || a > 0x8000_0000i64 || b < -0x8000_0000i64
            || b > 0x8000_0000i64 {
            return Err(CircuitError::UnsupportedOp);
        }
        proof {
            assert(a == values@[0].vals()[i as int]);
            assert(b == values@[1].vals()[i as int]);
            assert forall|m: int|
                0 <= m < i as int + 1 implies val_in_window(
                #[trigger] values@[0].vals()[m] as int,
            ) && val_in_window(values@[1].vals()[m] as int) by {
                if m == i as int {
                    assert(val_in_window(a as int));
                    assert(val_in_window(b as int));
                }
            }
        }
        i = i + 1;
    }
    if usize::MAX - n < *offset {
        return Err(CircuitError::UnsupportedOp);
    }
    let mut out: Vec<i64> = Vec::new();
    let mut acc: i64 = 0;
    let mut j: usize = 0;
    while j < n
        invariant
            old(config).wf(),
            *config == *old(config),
            *offset == *old(offset),
            n as nat == values@[0].vals().len(),
            n as nat == values@[1].vals().len(),
            values@.len() == 2,
            j <= n,
            out@.len() == j as nat,
            acc as int == spec_dot_prefix(values@[0].vals(), values@[1].vals(), j as int - 1),
            forall|m: int|
                0 <= m < n as int ==> val_in_window(#[trigger] values@[0].vals()[m] as int)
                    && val_in_window(values@[1].vals()[m] as int),
            forall|m: int|
                0 <= m < j as int ==> #[trigger] out@[m] as int == spec_dot_prefix(
                    values@[0].vals(),
                    values@[1].vals(),
                    m,
                ),
            forall|m: int|
                0 <= m < j as int ==> i64::MIN <= #[trigger] spec_dot_prefix(
                    values@[0].vals(),
                    values@[1].vals(),
                    m,
                ) <= i64::MAX,
        decreases n - j,
    {
        let a = values[0].get(j);
        let b = values[1].get(j);
        proof {
            assert(val_in_window(a as int) && val_in_window(b as int));
            assert(-0x4000_0000_0000_0000 <= a as int * b as int <= 0x4000_0000_0000_0000)
                by (nonlinear_arith)
                requires
                    val_in_window(a as int),
                    val_in_window(b as int),
            ;
        }
        let term: i64 = a * b;
        let wide: i128 = acc as i128 + term as i128;
        if wide < i64::MIN as i128 || wide > i64::MAX as i128 {
            proof {
                assert(wide == spec_dot_prefix(values@[0].vals(), values@[1].vals(), j as int));
                assert(!(i64::MIN <= spec_dot_prefix(
                    values@[0].vals(),
                    values@[1].vals(),
                    j as int,
                ) <= i64::MAX));
            }
            return Err(CircuitError::UnsupportedOp);
        }
        acc = wide as i64;
        out.push(acc);
        j = j + 1;
    }
    *offset = *offset + n;
    Ok(Some(ValTensor::Value { inner: out }))
}

/// Lays out the sum accumulation: the output holds one running partial sum
/// per cell, and the cursor advances by one row per cell. The operand
/// count must be one, every partial sum must fit the value model, and the
/// advanced cursor must still fit; otherwise nothing changes.
pub fn sum_layout(
    config: &mut BaseConfig,
    values: &Vec<ValTensor>,
    offset: &mut usize,
) -> (r: Result<Option<ValTensor>, CircuitError>)
    requires
        old(config).wf(),
    ensures
        final(config).wf(),
        *final(config) == *old(config),
        *final(offset) >= *old(offset),
        r is Ok <==> {
            &&& values@.len() == 1
            &&& (forall|i: int|
                0 <= i < values@[0].vals().len() ==> i64::MIN <= #[trigger] spec_sum_prefix(
                    values@[0].vals(),
                    i,
                ) <= i64::MAX)
            &&& *old(offset) + values@[0].vals().len() <= usize::MAX
        },
        r matches Ok(out) ==> {
            &&& out matches Some(t)
            &&& !t.is_instance()
            &&& t.vals().len() == values@[0].vals().len()
            &&& forall|i: int|
                0 <= i < t.vals().len() ==> #[trigger] t.vals()[i] as int == spec_sum_prefix(
                    values@[0].vals(),
                    i,
                )
            &&& *final(offset) == *old(offset) + t.vals().len()
        },
        r is Err ==> *final(offset) == *old(offset),
        values@.len() != 1 ==> (r matches Err(e) && e is DimMismatch),
{
    if values.len() != 1 {
        return Err(CircuitError::DimMismatch("sum arity"));
    }
    let n = values[0].len();
    if usize::MAX - n < *offset {
        return Err(CircuitError::UnsupportedOp);
    }
    let mut out: Vec<i64> = Vec::new();
    let mut acc: i64 = 0;
    let mut j: usize = 0;
    while j < n
        invariant
            old(config).wf(),
            *config == *old(config),
            *offset == *old(offset),
            n as nat == values@[0].vals().len(),
            values@.len() == 1,
            j <= n,
            out@.len() == j as nat,
            acc as int == spec_sum_prefix(values@[0].vals(), j as int - 1),
            forall|m: int|
                0 <= m < j as int ==> #[trigger] out@[m] as int == spec_sum_prefix(
                    values@[0].vals(),
                    m,
                ),
            forall|m: int|
                0 <= m < j as int ==> i64::MIN <= #[trigger] spec_sum_prefix(
                    values@[0].vals(),
                    m,
                ) <= i64::MAX,
        decreases n - j,
    {
        let b = values[0].get(j);
        let wide: i128 = acc as i128 + b as i128;
        if wide < i64::MIN as i128 || wide > i64::MAX as i128 {
            proof {
                assert(wide == spec_sum_prefix(values@[0].vals(), j as int));
                assert(!(i64::MIN <= spec_sum_prefix(values@[0].vals(), j as int) <= i64::MAX));
            }
            return Err(CircuitError::UnsupportedOp);
        }
        acc = wide as i64;
        out.push(acc);
        j = j + 1;
    }
    *offset = *offset + n;
    Ok(Some(ValTensor::Value { inner: out }))
}

/// The dot-product accumulation, dispatched through the operation
/// interface.
pub struct DotOp;

impl Op for DotOp {
    open spec fn accepts(&self, operands: Seq<Seq<i64>>, offset: nat) -> bool {
        &&& operands.len() == 2
        &&& operands[0].len() == operands[1].len()
        &&& (forall|i: int|
            0 <= i < operands[0].len() ==> val_in_window(#[trigger] operands[0][i] as int)
                && val_in_window(operands[1][i] as int))
        &&& (forall|i: int|
            0 <= i < operands[0].len() ==> i64::MIN <= #[trigger] spec_dot_prefix(
                operands[0],
                operands[1],
                i,
            ) <= i64::MAX)
        &&& offset + operands[0].len() <= usize::MAX
    }

    open spec fn spec_output_vals(&self, operands: Seq<Seq<i64>>) -> Option<Seq<i64>> {
        Some(
            Seq::new(
                operands[0].len(),
                |i: int| spec_dot_prefix(operands[0], operands[1], i) as i64,
            ),
        )
    }

    open spec fn spec_rows(&self, operands: Seq<Seq<i64>>) -> nat {
        operands[0].len()
    }

    fn layout(
        &self,
        config: &mut BaseConfig,
        values: &Vec<ValTensor>,
        offset: &mut usize,
    ) -> (r: Result<Option<ValTensor>, CircuitError>) {
        let r = dot_layout(config, values, offset);
        proof {
            let ops_ = vals_of(values@);
            assert forall|j: int| 0 <= j < ops_.len() implies #[trigger] ops_[j]
                == values@[j].vals() by {}
            if r is Ok {
                let out = r->Ok_0;
                if out is Some {
                    let t = out->Some_0;
                    let expect = self.spec_output_vals(ops_)->Some_0;
                    assert forall|i: int| 0 <= i < t.vals().len() implies #[trigger] t.vals()[i]
                        == expect[i] by {
                        assert(t.vals()[i] as int == spec_dot_prefix(
                            values@[0].vals(),
                            values@[1].vals(),
                            i,
                        ));
                    }
                    assert(t.vals() =~= expect);
                }
            }
        }
        r
    }
}

/// The sum accumulation, dispatched through the operation interface.
pub struct SumOp;

impl Op for SumOp {
    open spec fn accepts(&self, operands: Seq<Seq<i64>>, offset: nat) -> bool {
        &&& operands.len() == 1
        &&& (forall|i: int|
            0 <= i < operands[0].len() ==> i64::MIN <= #[trigger] spec_sum_prefix(operands[0], i)
                <= i64::MAX)
        &&& offset + operands[0].len() <= usize::MAX
    }

    open spec fn spec_output_vals(&self, operands: Seq<Seq<i64>>) -> Option<Seq<i64>> {
        Some(Seq::new(operands[0].len(), |i: int| spec_sum_prefix(operands[0], i) as i64))
    }

    open spec fn spec_rows(&self, operands: Seq<Seq<i64>>) -> nat {
        operands[0].len()
    }

    fn layout(
        &self,
        config: &mut BaseConfig,
        values: &Vec<ValTensor>,
        offset: &mut usize,
    ) -> (r: Result<Option<ValTensor>, CircuitError>) {
        let r = sum_layout(config, values, offset);
        proof {
            let ops_ = vals_of(values@);
            assert forall|j: int| 0 <= j < ops_.len() implies #[trigger] ops_[j]
                == values@[j].vals() by {}
            if r is Ok {
                let out = r->Ok_0;
                if out is Some {
                    let t = out->Some_0;
                    let expect = self.spec_output_vals(ops_)->Some_0;
                    assert forall|i: int| 0 <= i < t.vals().len() implies #[trigger] t.vals()[i]
                        == expect[i] by {
                        assert(t.vals()[i] as int == spec_sum_prefix(values@[0].vals(), i));
                    }
                    assert(t.vals() =~= expect);
                }
            }
        }
        r
    }
}

/// Lays out the rounding-tolerance check: cell by cell, the range-check
/// identity at the given tolerance must vanish on the difference between
/// the raw first operand and the expected second one. The check produces
/// no output and the cursor advances by one row per checked cell. The
/// operands must be exactly two tensors of equal length and the tolerance
/// positive; a difference on which the identity does not vanish means the
/// witness cannot satisfy the registered range gate, so it is refused.
pub fn range_layout(
    config: &mut BaseConfig,
    tol: i32,
    values: &Vec<ValTensor>,
    offset: &mut usize,
) -> (r: Result<Option<ValTensor>, CircuitError>)
    requires
        old(config).wf(),
    ensures
        final(config).wf(),
        *final(config) == *old(config),
        *final(offset) >= *old(offset),
        r is Ok <==> {
            &&& values@.len() == 2
            &&& values@[0].vals().len() == values@[1].vals().len()
            &&& tol > 0
            &&& (forall|i: int|
                0 <= i < values@[0].vals().len() ==> #[trigger] range_identity(
                    values@[0].vals()[i] - values@[1].vals()[i],
                    tol as int,
                ) == 0)
            &&& *old(offset) + values@[0].vals().len() <= usize::MAX
        },
        r matches Ok(out) ==> out is None && *final(offset) == *old(offset)
            + values@[0].vals().len(),
        r is Err ==> *final(offset) == *old(offset),
        values@.len() != 2 ==> (r matches Err(e) && e is DimMismatch),
{
    if values.len() != 2 {
        return Err(CircuitError::DimMismatch("range check arity"));
    }
    let n = values[0].len();
    if values[1].len() != n {
        return Err(CircuitError::DimMismatch("range check operand length"));
    }
    if tol <= 0 {
        return Err(CircuitError::UnsupportedOp);
    }
    let mut i: usize = 0;
    while i < n
        invariant
            old(config).wf(),
            *config == *old(config),
            *offset == *old(offset),
            tol > 0,
            n as nat == values@[0].vals().len(),
            n as nat == values@[1].vals().len(),
            values@.len() == 2,
            i <= n,
            forall|m: int|
                0 <= m < i as int ==> #[trigger] range_identity(
                    values@[0].vals()[m] - values@[1].vals()[m],
                    tol as int,
                ) == 0,
        decreases n - i,
    {
        let a = values[0].get(i);
        let b = values[1].get(i);
        let d: i128 = a as i128 - b as i128;
        let t: i128 = tol as i128;
        proof {
            lemma_range_identity_vanishes(
                values@[0].vals()[i as int] - values@[1].vals()[i as int],
                tol as int,
            );
        }
        if !(-t <= d && d < t) {
            return Err(CircuitError::UnsupportedOp);
        }
        i = i + 1;
    }
    if usize::MAX - n < *offset {
        return Err(CircuitError::UnsupportedOp);
    }
    *offset = *offset + n;
    Ok(None)
}

/// The rounding-tolerance check, dispatched through the operation
/// interface: a pure side-effecting assertion with no output.
pub struct RangeCheckOp {
    pub tol: i32,
}

impl Op for RangeCheckOp {
    open spec fn accepts(&self, operands: Seq<Seq<i64>>, offset: nat) -> bool {
        &&& operands.len() == 2
        &&& operands[0].len() == operands[1].len()
        &&& self.tol > 0
        &&& (forall|i: int|
            0 <= i < operands[0].len() ==> #[trigger] range_identity(
                operands[0][i] - operands[1][i],
                self.tol as int,
            ) == 0)
        &&& offset + operands[0].len() <= usize::MAX
    }

    open spec fn spec_output_vals(&self, operands: Seq<Seq<i64>>) -> Option<Seq<i64>> {
        None
    }

    open spec fn spec_rows(&self, operands: Seq<Seq<i64>>) -> nat {
        operands[0].len()
    }

    fn layout(
        &self,
        config: &mut BaseConfig,
        values: &Vec<ValTensor>,
        offset: &mut usize,
    ) -> (r: Result<Option<ValTensor>, CircuitError>) {
        let r = range_layout(config, self.tol, values, offset);
        proof {
            let ops_ = vals_of(values@);
            assert forall|j: int| 0 <= j < ops_.len() implies #[trigger] ops_[j]
                == values@[j].vals() by {}
        }
        r
    }
}

/// Decides, cell by cell, whether the range-check identity of tolerance
/// `tol` vanishes on every pair of a raw and an expected value: exactly
/// when each integer difference lies in `[-tol, tol)`. This is the local
/// validation performed in checked mode for rounding-tolerant equality.
pub fn range_check_ok(raw: &Vec<i64>, expected: &Vec<i64>, tol: i32) -> (r: bool)
    requires
        tol > 0,
        raw@.len() == expected@.len(),
    ensures
        r == forall|i: int|
            0 <= i < raw@.len() ==> #[trigger] range_identity(
                raw@[i] as int - expected@[i] as int,
                tol as int,
            ) == 0,
{
    let n = raw.len();
    let mut i: usize = 0;
    while i < n
        invariant
            tol > 0,
            n as nat == raw@.len(),
            n as nat == expected@.len(),
            i <= n,
            forall|m: int|
                0 <= m < i as int ==> #[trigger] range_identity(
                    raw@[m] as int - expected@[m] as int,
                    tol as int,
                ) == 0,
        decreases n - i,
    {
        let d: i128 = raw[i] as i128 - expected[i] as i128;
        let t: i128 = tol as i128;
        proof {
            lemma_range_identity_vanishes(raw@[i as int] as int - expected@[i as int] as int,
                tol as int);
        }
        if !(-t <= d && d < t) {
            return false;
        }
        i = i + 1;
    }
    true
}

} // verus!
