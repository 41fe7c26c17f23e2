//! Handles on the proof-system builder's types, and the trusted wrappers
//! through which the library talks to it. Everything the circuit logic
//! decides (which gates exist, what their identities look like, which rows
//! they query) is verified code; only the calls that hand the result to the
//! builder are taken on trust.
//!
//! The builder's generic types carry a bound on an outside `Field` trait
//! that a declaration here cannot carry, so each of those is held instead
//! inside an opaque handle struct of the library, instantiated at the
//! `pasta` base field; the non-generic ones are declared directly. Each
//! handle that the builder hands out carries ghost provenance — the
//! identity of the builder it came from and its allocation rank there — so
//! that contracts can demand that a handle is only ever used with its own
//! builder (the builder panics when an advice column of another builder is
//! queried) and can tell two handles apart.

use vstd::prelude::*;

use halo2_proofs::pasta::Fp;
use halo2_proofs::plonk::Advice;
use halo2_proofs::plonk::Column;
use halo2_proofs::plonk::ConstraintSystem;
use halo2_proofs::plonk::Constraints;
use halo2_proofs::plonk::Expression;
use halo2_proofs::plonk::Fixed;
use halo2_proofs::plonk::Selector;
use halo2_proofs::plonk::TableColumn;
use halo2_proofs::plonk::VirtualCells;
use halo2_proofs::poly::Rotation;

use crate::base::is_boolean_identity;
use crate::base::is_zero_identity;
use crate::base::range_factors;
use crate::base::range_identity;
use crate::base::BaseOp;

verus! {

/// Holds a `ConstraintSystem` over the pasta base field.
#[verifier::external_body]
struct CsInner {
    inner: ConstraintSystem<Fp>,
}

/// Ghost tally of everything the library has asked of the builder:
/// allocations and registrations, updated by the trusted wrappers alone.
pub ghost struct BuilderModel {
    pub simple_selectors: nat,
    pub complex_selectors: nat,
    pub fixed_columns: nat,
    pub advice_columns: nat,
    pub table_columns: nat,
    pub constants_enabled: nat,
    pub gates: nat,
    pub lookups: nat,
}

impl BuilderModel {
    /// How many selectors of either kind have been allocated: the builder
    /// numbers simple and complex selectors from one shared counter.
    pub open spec fn selectors_allocated(self) -> nat {
        self.simple_selectors + self.complex_selectors
    }
}

/// The tally of a builder nothing has been asked of.
pub open spec fn empty_model() -> BuilderModel {
    BuilderModel {
        simple_selectors: 0,
        complex_selectors: 0,
        fixed_columns: 0,
        advice_columns: 0,
        table_columns: 0,
        constants_enabled: 0,
        gates: 0,
        lookups: 0,
    }
}

/// The builder that allocates selectors and columns and registers gates
/// and lookup arguments, together with a ghost identity and the ghost tally
/// of what has been asked of it. The builder itself is opaque; the tally is
/// readable but only the trusted wrappers move it.
pub struct SysBuilder {
    cs: CsInner,
    ident: Ghost<nat>,
    model: Ghost<BuilderModel>,
}

impl SysBuilder {
    /// The ghost identity of this builder; handles remember it.
    pub closed spec fn id(&self) -> nat {
        self.ident@
    }

    /// The tally of allocations and registrations so far.
    pub closed spec fn model(&self) -> BuilderModel {
        self.model@
    }
}

/// Declares `TableColumn`: a fixed column usable in a lookup table.
#[verifier::external_type_specification]
#[verifier::external_body]
pub struct ExTableColumn(TableColumn);

/// Holds a `Selector`.
#[verifier::external_body]
struct SelInner {
    inner: Selector,
}

/// A selector handle with ghost provenance: the builder that allocated it
/// and its rank in that builder's shared selector numbering, so two
/// selectors of one builder with different ranks are different selectors.
pub struct SelectorHandle {
    sel: SelInner,
    owner: Ghost<nat>,
    rank: Ghost<nat>,
}

impl SelectorHandle {
    pub closed spec fn owner(&self) -> nat {
        self.owner@
    }

    pub closed spec fn rank(&self) -> nat {
        self.rank@
    }
}

/// Holds a `Column<Advice>`.
#[verifier::external_body]
struct AdvColInner {
    inner: Column<Advice>,
}

/// A witness-column handle with ghost provenance: the builder that
/// allocated it and its index there. Querying an advice column on a builder
/// that did not allocate it panics inside the builder, so the contracts
/// demand matching provenance.
pub struct AdviceColumn {
    col: AdvColInner,
    owner: Ghost<nat>,
    index: Ghost<nat>,
}

impl AdviceColumn {
    pub closed spec fn owner(&self) -> nat {
        self.owner@
    }

    pub closed spec fn index(&self) -> nat {
        self.index@
    }
}

/// Holds a `Column<Fixed>`.
#[verifier::external_body]
struct FixColInner {
    inner: Column<Fixed>,
}

/// A constant-column handle with its ghost index. Fixed columns are
/// queried at the current row only and the builder accepts any such query,
/// so no owner is needed.
pub struct FixedColumn {
    col: FixColInner,
    index: Ghost<nat>,
}

impl FixedColumn {
    pub closed spec fn index(&self) -> nat {
        self.index@
    }
}

/// Holds an `Fp`.
#[verifier::external_body]
struct FpInner {
    inner: Fp,
}

/// A field element together with the ghost signed integer it was built
/// from: elements enter the library only through the integer embedding and
/// its additive inverse, so the tracked value composes exactly.
pub struct FieldElem {
    f: FpInner,
    val: Ghost<int>,
}

impl FieldElem {
    /// The signed integer this element was built from.
    pub closed spec fn val(&self) -> int {
        self.val@
    }
}

/// Holds an `Expression` over the pasta base field.
#[verifier::external_body]
struct ExprInner {
    inner: Expression<Fp>,
}

/// One polynomial expression of a gate or lookup argument under
/// construction, together with the ghost term it was built as.
pub struct Expr {
    e: ExprInner,
    term: Ghost<PolyTerm>,
}

impl Expr {
    /// The polynomial term this expression was built as.
    pub closed spec fn term(&self) -> PolyTerm {
        self.term@
    }
}

/// Holds the `VirtualCells` handle that the builder passes to a gate's or
/// lookup's closure.
#[verifier::external_body]
struct VcInner<'a, 'b>
where
    'a: 'b,
{
    inner: &'b mut VirtualCells<'a, Fp>,
}

/// The query handle of one gate or lookup closure, with the ghost identity
/// of the builder it belongs to and that builder's advice-column count;
/// queries go through it, and advice queries must stay within its builder's
/// columns.
pub struct Cells<'a, 'b>
where
    'a: 'b,
{
    vc: VcInner<'a, 'b>,
    owner: Ghost<nat>,
    advice_count: Ghost<nat>,
}

impl<'a, 'b> Cells<'a, 'b> {
    pub closed spec fn owner(&self) -> nat {
        self.owner@
    }

    pub closed spec fn advice_count(&self) -> nat {
        self.advice_count@
    }
}

/// A polynomial term over the circuit's cells, on the integer value
/// model: what one built expression stands for. Constants carry the signed
/// integer they were built from; cells carry their column's index and (for
/// witness cells) the queried row offset; a gating term carries the
/// selector's rank.
pub ghost enum PolyTerm {
    Lit(int),
    WitnessCell { index: nat, rot: int },
    ConstantCell { index: nat },
    Gating { rank: nat },
    Add(Box<PolyTerm>, Box<PolyTerm>),
    Sub(Box<PolyTerm>, Box<PolyTerm>),
    Mul(Box<PolyTerm>, Box<PolyTerm>),
}

/// One input cell of a gate or lookup argument: witness-backed or
/// constant-backed.
pub enum GateInput {
    Witness(AdviceColumn),
    Constant(FixedColumn),
}

/// Whether a gate input's column may be queried on the builder with the
/// given identity and advice-column count: a witness column must belong to
/// that builder; a constant column may always be queried.
pub open spec fn gate_input_owned(gi: GateInput, id: nat, advice_count: nat) -> bool {
    match gi {
        GateInput::Witness(c) => c.owner() == id && c.index() < advice_count,
        GateInput::Constant(_) => true,
    }
}

/// The columns one base-operation gate reads: one cell of each input column
/// resource and a short row range of the output column resource, all at the
/// same column index of their tensors.
pub struct GateCols {
    pub op: BaseOp,
    pub in0: GateInput,
    pub in1: GateInput,
    pub out: AdviceColumn,
}

/// Ownership of all of a gate's columns at once, per `gate_input_owned`.
pub open spec fn gate_cols_owned(g: &GateCols, id: nat, advice_count: nat) -> bool {
    &&& gate_input_owned(g.in0, id, advice_count)
    &&& gate_input_owned(g.in1, id, advice_count)
    &&& g.out.owner() == id && g.out.index() < advice_count
}

/// Relies on ConstraintSystem's Default: a builder with no columns, gates or
/// lookup arguments yet, and an empty tally.
#[verifier::external_body]
pub fn sys_builder_new() -> (r: SysBuilder)
    ensures
        r.model() == empty_model(),
{
    SysBuilder {
        cs: CsInner { inner: ConstraintSystem::default() },
        ident: Ghost(0),
        model: Ghost(empty_model()),
    }
}

/// Relies on ConstraintSystem::selector: allocates a fresh simple selector
/// under the builder's shared selector numbering, and nothing else.
#[verifier::external_body]
pub(crate) fn cs_selector(cs: &mut SysBuilder) -> (r: SelectorHandle)
    ensures
        final(cs).id() == old(cs).id(),
        final(cs).model() == (BuilderModel {
            simple_selectors: old(cs).model().simple_selectors + 1,
            ..old(cs).model()
        }),
        r.owner() == old(cs).id(),
        r.rank() == old(cs).model().selectors_allocated(),
{
    SelectorHandle {
        sel: SelInner { inner: cs.cs.inner.selector() },
        owner: cs.ident,
        rank: Ghost(cs.model@.selectors_allocated()),
    }
}

/// Relies on SelectorHandle being a copyable handle (Selector is Copy):
/// hands out another handle equal to the given one.
#[verifier::external_body]
pub(crate) fn selector_dup(h: &SelectorHandle) -> (r: SelectorHandle)
    ensures
        r == *h,
{
    SelectorHandle { sel: SelInner { inner: h.sel.inner }, owner: h.owner, rank: h.rank }
}

/// Relies on ConstraintSystem::fixed_column: allocates a fresh fixed column,
/// and nothing else.
#[verifier::external_body]
pub(crate) fn cs_fixed_column(cs: &mut SysBuilder) -> (r: FixedColumn)
    ensures
        final(cs).id() == old(cs).id(),
        final(cs).model() == (BuilderModel {
            fixed_columns: old(cs).model().fixed_columns + 1,
            ..old(cs).model()
        }),
        r.index() == old(cs).model().fixed_columns,
{
    FixedColumn {
        col: FixColInner { inner: cs.cs.inner.fixed_column() },
        index: Ghost(cs.model@.fixed_columns),
    }
}

/// Relies on ConstraintSystem::advice_column: allocates a fresh advice
/// column of this builder, whose index is the count so far, and nothing
/// else.
#[verifier::external_body]
pub(crate) fn cs_advice_column(cs: &mut SysBuilder) -> (r: AdviceColumn)
    ensures
        final(cs).id() == old(cs).id(),
        final(cs).model() == (BuilderModel {
            advice_columns: old(cs).model().advice_columns + 1,
            ..old(cs).model()
        }),
        r.owner() == old(cs).id(),
        r.index() == old(cs).model().advice_columns,
{
    AdviceColumn {
        col: AdvColInner { inner: cs.cs.inner.advice_column() },
        owner: cs.ident,
        index: Ghost(cs.model@.advice_columns),
    }
}

/// Relies on Column's Copy: hands out another handle equal to the given
/// one.
#[verifier::external_body]
pub(crate) fn advice_col_dup(c: &AdviceColumn) -> (r: AdviceColumn)
    ensures
        r == *c,
{
    AdviceColumn { col: AdvColInner { inner: c.col.inner }, owner: c.owner, index: c.index }
}

/// Relies on Column's Copy: hands out another handle equal to the given
/// one.
#[verifier::external_body]
pub(crate) fn fixed_col_dup(c: &FixedColumn) -> (r: FixedColumn)
    ensures
        r == *c,
{
    FixedColumn { col: FixColInner { inner: c.col.inner }, index: c.index }
}

/// Relies on ConstraintSystem::enable_constant: allows inline constants to
/// be assigned into the given fixed column, and changes nothing else; the
/// builder accepts any fixed column here without panicking.
#[verifier::external_body]
pub(crate) fn cs_enable_constant(cs: &mut SysBuilder, col: FixedColumn)
    ensures
        final(cs).id() == old(cs).id(),
        final(cs).model() == (BuilderModel {
            constants_enabled: old(cs).model().constants_enabled + 1,
            ..old(cs).model()
        }),
{
    cs.cs.inner.enable_constant(col.col.inner)
}

/// Relies on ConstraintSystem::lookup_table_column: allocates a fresh fixed
/// column usable in a lookup table, and nothing else.
#[verifier::external_body]
pub(crate) fn cs_lookup_table_column(cs: &mut SysBuilder) -> (r: TableColumn)
    ensures
        final(cs).id() == old(cs).id(),
        final(cs).model() == (BuilderModel {
            table_columns: old(cs).model().table_columns + 1,
            ..old(cs).model()
        }),
{
    cs.cs.inner.lookup_table_column()
}

/// Relies on Fp's From<u64>: the field element standing for that integer.
#[verifier::external_body]
pub(crate) fn fp_from_u64(x: u64) -> (r: FieldElem)
    ensures
        r.val() == x as int,
{
    FieldElem { f: FpInner { inner: Fp::from(x) }, val: Ghost(x as int) }
}

/// Relies on Fp's Neg: the field element's additive inverse, standing for
/// the negated integer.
#[verifier::external_body]
pub(crate) fn fp_negate(x: FieldElem) -> (r: FieldElem)
    ensures
        r.val() == -x.val(),
{
    FieldElem { f: FpInner { inner: -x.f.inner }, val: Ghost(-x.val@) }
}

/// Relies on Expression::Constant: wraps a field element as a constant
/// expression.
#[verifier::external_body]
pub(crate) fn expr_constant(f: &FieldElem) -> (r: Expr)
    ensures
        r.term() == PolyTerm::Lit(f.val()),
{
    Expr { e: ExprInner { inner: Expression::Constant(f.f.inner) }, term: Ghost(
        PolyTerm::Lit(f.val@),
    ) }
}

/// Relies on Expression's Clone.
#[verifier::external_body]
pub(crate) fn expr_clone(e: &Expr) -> (r: Expr)
    ensures
        r.term() == e.term(),
{
    Expr { e: ExprInner { inner: e.e.inner.clone() }, term: e.term }
}

/// Relies on Expression's Add: panics only when an operand holds a simple
/// selector, which no expression reachable here does (selectors enter
/// expressions only through `vc_query_selector`, always the complex one of
/// a lookup argument).
#[verifier::external_body]
pub(crate) fn expr_sum(a: Expr, b: Expr) -> (r: Expr)
    ensures
        r.term() == PolyTerm::Add(Box::new(a.term()), Box::new(b.term())),
{
    Expr { e: ExprInner { inner: a.e.inner + b.e.inner }, term: Ghost(
        PolyTerm::Add(Box::new(a.term@), Box::new(b.term@)),
    ) }
}

/// Relies on Expression's Sub; same panic reasoning as the sum.
#[verifier::external_body]
pub(crate) fn expr_diff(a: Expr, b: Expr) -> (r: Expr)
    ensures
        r.term() == PolyTerm::Sub(Box::new(a.term()), Box::new(b.term())),
{
    Expr { e: ExprInner { inner: a.e.inner - b.e.inner }, term: Ghost(
        PolyTerm::Sub(Box::new(a.term@), Box::new(b.term@)),
    ) }
}

/// Relies on Expression's Mul; same panic reasoning as the sum.
#[verifier::external_body]
pub(crate) fn expr_prod(a: Expr, b: Expr) -> (r: Expr)
    ensures
        r.term() == PolyTerm::Mul(Box::new(a.term()), Box::new(b.term())),
{
    Expr { e: ExprInner { inner: a.e.inner * b.e.inner }, term: Ghost(
        PolyTerm::Mul(Box::new(a.term@), Box::new(b.term@)),
    ) }
}

/// Relies on VirtualCells::query_selector: the expression standing for the
/// given selector. No panic path.
#[verifier::external_body]
pub(crate) fn vc_query_selector<'a, 'b>(vc: &mut Cells<'a, 'b>, s: &SelectorHandle) -> (r:
    Expr) where 'a: 'b
    ensures
        final(vc).owner() == old(vc).owner(),
        final(vc).advice_count() == old(vc).advice_count(),
        r.term() == (PolyTerm::Gating { rank: s.rank() }),
{
    Expr { e: ExprInner { inner: vc.vc.inner.query_selector(s.sel.inner) }, term: Ghost(
        PolyTerm::Gating { rank: s.rank@ },
    ) }
}

/// Relies on VirtualCells::query_advice and Rotation: the expression
/// standing for the given advice cell at the given row offset. The builder
/// panics when the column was not allocated by it, so the column's
/// provenance must match the handle's.
#[verifier::external_body]
pub(crate) fn vc_query_advice<'a, 'b>(vc: &mut Cells<'a, 'b>, col: &AdviceColumn, rot: i32) -> (r:
    Expr) where 'a: 'b
    requires
        col.owner() == old(vc).owner(),
        col.index() < old(vc).advice_count(),
    ensures
        final(vc).owner() == old(vc).owner(),
        final(vc).advice_count() == old(vc).advice_count(),
        r.term() == (PolyTerm::WitnessCell { index: col.index(), rot: rot as int }),
{
    Expr { e: ExprInner { inner: vc.vc.inner.query_advice(col.col.inner, Rotation(rot)) }, term:
        Ghost(PolyTerm::WitnessCell { index: col.index@, rot: rot as int }) }
}

/// Relies on VirtualCells::query_fixed: the expression standing for the
/// given fixed cell at the current row. The builder accepts any fixed
/// column here without panicking (the fixed-query registry only grows).
#[verifier::external_body]
pub(crate) fn vc_query_fixed<'a, 'b>(vc: &mut Cells<'a, 'b>, col: &FixedColumn) -> (r:
    Expr) where 'a: 'b
    ensures
        final(vc).owner() == old(vc).owner(),
        final(vc).advice_count() == old(vc).advice_count(),
        r.term() == (PolyTerm::ConstantCell { index: col.index() }),
{
    Expr { e: ExprInner { inner: vc.vc.inner.query_fixed(col.col.inner) }, term: Ghost(
        PolyTerm::ConstantCell { index: col.index@ },
    ) }
}

/// The field element standing for a signed integer: nonnegative integers
/// map through the canonical embedding, negative ones through its additive
/// inverse.
pub(crate) fn fp_from_i64(x: i64) -> (r: FieldElem)
    ensures
        r.val() == x as int,
{
    if x >= 0 {
        fp_from_u64(x as u64)
    } else {
        let wide: i128 = x as i128;
        fp_negate(fp_from_u64((-wide) as u64))
    }
}

/// The term of one gate input queried at the current row.
pub open spec fn input_term(gi: GateInput) -> PolyTerm {
    match gi {
        GateInput::Witness(c) => PolyTerm::WitnessCell { index: c.index(), rot: 0 },
        GateInput::Constant(c) => PolyTerm::ConstantCell { index: c.index() },
    }
}

/// The witness-cell term of a gate's targeted output at offset `rot`.
pub open spec fn out_cell_term(g: &GateCols, rot: int) -> PolyTerm {
    PolyTerm::WitnessCell { index: g.out.index(), rot }
}

/// The blended cell of one lookup argument column: the queried cell where
/// the gating selector is on, the operation's default where it is off.
pub open spec fn lookup_blend_term(rank: nat, cell: PolyTerm, dflt: int) -> PolyTerm {
    PolyTerm::Add(
        Box::new(PolyTerm::Mul(Box::new(PolyTerm::Gating { rank }), Box::new(cell))),
        Box::new(
            PolyTerm::Mul(
                Box::new(
                    PolyTerm::Sub(
                        Box::new(PolyTerm::Lit(1)),
                        Box::new(PolyTerm::Gating { rank }),
                    ),
                ),
                Box::new(PolyTerm::Lit(dflt)),
            ),
        ),
    )
}

/// The range-check product after folding in one factor per integer of
/// `[-tol, j)`: the fold starts from the difference term itself.
pub open spec fn range_fold_term(d: PolyTerm, j: int, tol: int) -> PolyTerm
    decreases j + tol,
{
    if j <= -tol {
        d
    } else {
        PolyTerm::Mul(
            Box::new(range_fold_term(d, j - 1, tol)),
            Box::new(PolyTerm::Sub(Box::new(PolyTerm::Lit(j - 1)), Box::new(d))),
        )
    }
}

/// The polynomial term of one base-operation gate's constraint, on the
/// gate's own columns: exactly the integer-model identities of
/// `crate::base`, with the arithmetic kinds constraining the targeted
/// output cell against the operation's function of the queried cells.
pub open spec fn gate_constraint_term(g: &GateCols) -> PolyTerm {
    let q0 = input_term(g.in0);
    let q1 = input_term(g.in1);
    let rot = g.op.spec_query_offset_rng().0;
    let out0 = out_cell_term(g, rot);
    let cur = out_cell_term(g, rot + 1);
    match g.op {
        BaseOp::Range { tol } => range_fold_term(
            PolyTerm::Sub(Box::new(q1), Box::new(out0)),
            tol as int,
            tol as int,
        ),
        BaseOp::IsBoolean => PolyTerm::Mul(
            Box::new(q1),
            Box::new(PolyTerm::Sub(Box::new(q1), Box::new(PolyTerm::Lit(1)))),
        ),
        BaseOp::IsZero => q1,
        BaseOp::Neg => PolyTerm::Add(Box::new(out0), Box::new(q1)),
        BaseOp::Identity => PolyTerm::Sub(Box::new(out0), Box::new(q1)),
        BaseOp::Add => PolyTerm::Sub(
            Box::new(out0),
            Box::new(PolyTerm::Add(Box::new(q0), Box::new(q1))),
        ),
        BaseOp::Sub => PolyTerm::Sub(
            Box::new(out0),
            Box::new(PolyTerm::Sub(Box::new(q0), Box::new(q1))),
        ),
        BaseOp::Mult => PolyTerm::Sub(
            Box::new(out0),
            Box::new(PolyTerm::Mul(Box::new(q0), Box::new(q1))),
        ),
        BaseOp::Dot => PolyTerm::Sub(
            Box::new(cur),
            Box::new(
                PolyTerm::Add(
                    Box::new(PolyTerm::Mul(Box::new(q0), Box::new(q1))),
                    Box::new(out0),
                ),
            ),
        ),
        BaseOp::Sum => PolyTerm::Sub(
            Box::new(cur),
            Box::new(PolyTerm::Add(Box::new(q1), Box::new(out0))),
        ),
    }
}

/// Queries one gate input at the current row: the witness or constant cell
/// at its column.
pub(crate) fn query_gate_input<'a, 'b>(vc: &mut Cells<'a, 'b>, gi: &GateInput) -> (r:
    Expr) where 'a: 'b
    requires
        gate_input_owned(*gi, old(vc).owner(), old(vc).advice_count()),
    ensures
        final(vc).owner() == old(vc).owner(),
        final(vc).advice_count() == old(vc).advice_count(),
        r.term() == input_term(*gi),
{
    match gi {
        GateInput::Witness(c) => vc_query_advice(vc, c, 0),
        GateInput::Constant(c) => vc_query_fixed(vc, c),
    }
}

/// Builds the polynomial constraint of one base-operation gate. The shape
/// mirrors the integer-model identities of `crate::base`: the arithmetic
/// kinds constrain the targeted output cell to equal the operation's
/// function of the queried cells, `Range` builds the product of one factor
/// per integer of `[-tol, tol)` starting from the difference itself, and
/// the assertion kinds constrain the input cell alone.
pub(crate) fn build_gate_constraints<'a, 'b>(vc: &mut Cells<'a, 'b>, gate: &GateCols) -> (r: Vec<
    Expr,
>) where 'a: 'b
    requires
        gate_cols_owned(gate, old(vc).owner(), old(vc).advice_count()),
    ensures
        r@.len() == 1,
        r@[0].term() == gate_constraint_term(gate),
{
    let rot = gate.op.query_offset_rng().0;
    let q1 = query_gate_input(vc, &gate.in1);
    let constraint: Expr = match gate.op {
        BaseOp::Range { tol } => {
            let out0 = vc_query_advice(vc, &gate.out, rot);
            let diff = expr_diff(q1, out0);
            let ghost dterm = diff.term();
            let mut acc = expr_clone(&diff);
            let lo: i64 = -(tol as i64);
            let hi: i64 = tol as i64;
            let mut i: i64 = lo;
            proof {
                assert(acc.term() == range_fold_term(dterm, lo as int, tol as int));
            }
            while i < hi
                invariant
                    lo == -(tol as i64),
                    hi == tol as i64,
                    lo <= i <= hi || (hi < lo && i == lo),
                    dterm == diff.term(),
                    acc.term() == range_fold_term(dterm, i as int, tol as int),
                decreases hi - i,
            {
                let factor = expr_diff(expr_constant(&fp_from_i64(i)), expr_clone(&diff));
                acc = expr_prod(acc, factor);
                proof {
                    assert(i as int + 1 > -(tol as int));
                    assert(range_fold_term(dterm, i as int + 1, tol as int) == PolyTerm::Mul(
                        Box::new(range_fold_term(dterm, i as int, tol as int)),
                        Box::new(
                            PolyTerm::Sub(Box::new(PolyTerm::Lit(i as int)), Box::new(dterm)),
                        ),
                    ));
                }
                i = i + 1;
            }
            acc
        },
        BaseOp::IsBoolean => {
            let one = expr_constant(&fp_from_u64(1));
            expr_prod(expr_clone(&q1), expr_diff(q1, one))
        },
        BaseOp::IsZero => q1,
        BaseOp::Neg => {
            let out0 = vc_query_advice(vc, &gate.out, rot);
            expr_sum(out0, q1)
        },
        BaseOp::Identity => {
            let out0 = vc_query_advice(vc, &gate.out, rot);
            expr_diff(out0, q1)
        },
        BaseOp::Add => {
            let q0 = query_gate_input(vc, &gate.in0);
            let out0 = vc_query_advice(vc, &gate.out, rot);
            expr_diff(out0, expr_sum(q0, q1))
        },
        BaseOp::Sub => {
            let q0 = query_gate_input(vc, &gate.in0);
            let out0 = vc_query_advice(vc, &gate.out, rot);
            expr_diff(out0, expr_diff(q0, q1))
        },
        BaseOp::Mult => {
            let q0 = query_gate_input(vc, &gate.in0);
            let out0 = vc_query_advice(vc, &gate.out, rot);
            expr_diff(out0, expr_prod(q0, q1))
        },
        BaseOp::Dot => {
            let q0 = query_gate_input(vc, &gate.in0);
            let prev = vc_query_advice(vc, &gate.out, rot);
            let cur = vc_query_advice(vc, &gate.out, rot + 1);
            expr_diff(cur, expr_sum(expr_prod(q0, q1), prev))
        },
        BaseOp::Sum => {
            let prev = vc_query_advice(vc, &gate.out, rot);
            let cur = vc_query_advice(vc, &gate.out, rot + 1);
            expr_diff(cur, expr_sum(q1, prev))
        },
    };
    let mut r: Vec<Expr> = Vec::new();
    r.push(constraint);
    r
}

/// The two expressions of one lookup argument column: the input one blends
/// the queried input cell with the operation's default input
/// (`sel * cell + (1 - sel) * default`), the output one does the same with
/// the output cell and default output, so that rows on which the selector
/// is off satisfy the lookup through the default pair.
pub(crate) fn build_lookup_exprs<'a, 'b>(
    vc: &mut Cells<'a, 'b>,
    sel: &SelectorHandle,
    in_col: &GateInput,
    out_col: &GateInput,
    dx: &FieldElem,
    dy: &FieldElem,
) -> (r: (Expr, Expr)) where 'a: 'b
    requires
        gate_input_owned(*in_col, old(vc).owner(), old(vc).advice_count()),
        gate_input_owned(*out_col, old(vc).owner(), old(vc).advice_count()),
    ensures
        r.0.term() == lookup_blend_term(sel.rank(), input_term(*in_col), dx.val()),
        r.1.term() == lookup_blend_term(sel.rank(), input_term(*out_col), dy.val()),
{
    let q = vc_query_selector(vc, sel);
    let one = expr_constant(&fp_from_u64(1));
    let not_q = expr_diff(one, expr_clone(&q));
    let x = query_gate_input(vc, in_col);
    let y = query_gate_input(vc, out_col);
    let in_expr = expr_sum(
        expr_prod(expr_clone(&q), x),
        expr_prod(expr_clone(&not_q), expr_constant(dx)),
    );
    let out_expr = expr_sum(expr_prod(q, y), expr_prod(not_q, expr_constant(dy)));
    (in_expr, out_expr)
}

/// Relies on ConstraintSystem::create_gate and VirtualCells::query_selector:
/// registers the polynomial identity of one base-operation gate under the
/// given label, gated by the given selector, and nothing else. The
/// constraint itself is built by the verified `build_gate_constraints`,
/// which always returns one constraint, so the builder's panic on an empty
/// constraint list is unreachable; every queried column must belong to this
/// builder, so the builder's panic on foreign advice columns is unreachable
/// too.
#[verifier::external_body]
pub(crate) fn create_base_gate(
    cs: &mut SysBuilder,
    name: &'static str,
    sel: SelectorHandle,
    gate: GateCols,
)
    requires
        sel.owner() == old(cs).id(),
        gate_cols_owned(&gate, old(cs).id(), old(cs).model().advice_columns),
    ensures
        final(cs).id() == old(cs).id(),
        final(cs).model() == (BuilderModel {
            gates: old(cs).model().gates + 1,
            ..old(cs).model()
        }),
{
    let owner = cs.ident;
    let count = Ghost(cs.model@.advice_columns);
    cs.cs.inner.create_gate(name, |vc| {
        let s = vc.query_selector(sel.sel.inner);
        let mut cells = Cells { vc: VcInner { inner: vc }, owner, advice_count: count };
        let constraints: Vec<Expression<Fp>> =
            build_gate_constraints(&mut cells, &gate).into_iter().map(|e| e.e.inner).collect();
        Constraints::with_selector(s, constraints)
    });
}

/// Relies on ConstraintSystem::complex_selector and
/// ConstraintSystem::lookup: allocates a complex selector and registers one
/// lookup argument pairing the blended input and output cells of one column
/// with the table's input and output columns, and nothing else. The blend
/// is built by the verified `build_lookup_exprs`; only a complex selector
/// enters the expressions, so the builder's panic on simple selectors in
/// lookups is unreachable, and every queried column must belong to this
/// builder, so the panic on foreign advice columns is unreachable too.
#[verifier::external_body]
pub(crate) fn lookup_argument(
    cs: &mut SysBuilder,
    in_col: GateInput,
    out_col: GateInput,
    dx: &FieldElem,
    dy: &FieldElem,
    tin: TableColumn,
    tout: TableColumn,
) -> (r: SelectorHandle)
    requires
        gate_input_owned(in_col, old(cs).id(), old(cs).model().advice_columns),
        gate_input_owned(out_col, old(cs).id(), old(cs).model().advice_columns),
    ensures
        final(cs).id() == old(cs).id(),
        final(cs).model() == (BuilderModel {
            complex_selectors: old(cs).model().complex_selectors + 1,
            lookups: old(cs).model().lookups + 1,
            ..old(cs).model()
        }),
        r.owner() == old(cs).id(),
        r.rank() == old(cs).model().selectors_allocated(),
{
    let owner = cs.ident;
    let count = Ghost(cs.model@.advice_columns);
    let rank = Ghost(cs.model@.selectors_allocated());
    let sel = cs.cs.inner.complex_selector();
    cs.cs.inner.lookup(|vc| {
        let mut cells = Cells { vc: VcInner { inner: vc }, owner, advice_count: count };
        let sh = SelectorHandle { sel: SelInner { inner: sel }, owner, rank };
        let (ie, oe) = build_lookup_exprs(&mut cells, &sh, &in_col, &out_col, dx, dy);
        vec![(ie.e.inner, tin), (oe.e.inner, tout)]
    });
    SelectorHandle { sel: SelInner { inner: sel }, owner, rank }
}

/// The value of a polynomial term on one row, given the witness cells (by
/// column index and row offset), the constant cells (by column index) and
/// the gating selectors (by rank), on the integer value model.
pub open spec fn eval_term(
    t: PolyTerm,
    wit: Map<(nat, int), int>,
    fix: Map<nat, int>,
    gating: Map<nat, bool>,
) -> int
    decreases t,
{
    match t {
        PolyTerm::Lit(v) => v,
        PolyTerm::WitnessCell { index, rot } => wit[(index, rot)],
        PolyTerm::ConstantCell { index } => fix[index],
        PolyTerm::Gating { rank } => if gating[rank] {
            1
        } else {
            0
        },
        PolyTerm::Add(a, b) => eval_term(*a, wit, fix, gating) + eval_term(*b, wit, fix, gating),
        PolyTerm::Sub(a, b) => eval_term(*a, wit, fix, gating) - eval_term(*b, wit, fix, gating),
        PolyTerm::Mul(a, b) => eval_term(*a, wit, fix, gating) * eval_term(*b, wit, fix, gating),
    }
}

/// Appending one factor on the right of the range product equals peeling
/// it off the recursion.
proof fn lemma_range_factors_snoc(d: int, lo: int, hi: int)
    requires
        lo < hi,
    ensures
        range_factors(d, lo, hi) == range_factors(d, lo, hi - 1) * ((hi - 1) - d),
    decreases hi - lo,
{
    if lo == hi - 1 {
        assert(range_factors(d, lo + 1, hi) == 1);
        assert(range_factors(d, lo, hi - 1) == 1);
        assert(range_factors(d, lo, hi) == (lo - d) * 1);
    } else {
        lemma_range_factors_snoc(d, lo + 1, hi);
        let tail = range_factors(d, lo + 1, hi - 1);
        assert(range_factors(d, lo, hi) == (lo - d) * range_factors(d, lo + 1, hi));
        assert(range_factors(d, lo, hi - 1) == (lo - d) * tail);
        assert((lo - d) * (tail * ((hi - 1) - d)) == ((lo - d) * tail) * ((hi - 1) - d))
            by (nonlinear_arith);
    }
}

/// The folded range product evaluates to the range-check identity's
/// partial product: the difference times one factor per integer of
/// `[-tol, j)`.
proof fn lemma_eval_range_fold(
    d: PolyTerm,
    j: int,
    tol: int,
    wit: Map<(nat, int), int>,
    fix: Map<nat, int>,
    gating: Map<nat, bool>,
)
    requires
        j >= -tol,
    ensures
        eval_term(range_fold_term(d, j, tol), wit, fix, gating) == eval_term(d, wit, fix, gating)
            * range_factors(eval_term(d, wit, fix, gating), -tol, j),
    decreases j + tol,
{
    reveal_with_fuel(eval_term, 4);
    let dv = eval_term(d, wit, fix, gating);
    if j <= -tol {
        assert(range_fold_term(d, j, tol) == d);
        assert(range_factors(dv, -tol, j) == 1);
        assert(dv * 1 == dv);
    } else {
        lemma_eval_range_fold(d, j - 1, tol, wit, fix, gating);
        lemma_range_factors_snoc(dv, -tol, j);
        let factor = PolyTerm::Sub(Box::new(PolyTerm::Lit(j - 1)), Box::new(d));
        assert(range_fold_term(d, j, tol) == PolyTerm::Mul(
            Box::new(range_fold_term(d, j - 1, tol)),
            Box::new(factor),
        ));
        assert(eval_term(factor, wit, fix, gating) == (j - 1) - dv);
        assert(eval_term(range_fold_term(d, j, tol), wit, fix, gating) == eval_term(
            range_fold_term(d, j - 1, tol),
            wit,
            fix,
            gating,
        ) * ((j - 1) - dv));
        assert((dv * range_factors(dv, -tol, j - 1)) * ((j - 1) - dv) == dv * (range_factors(
            dv,
            -tol,
            j - 1,
        ) * ((j - 1) - dv))) by (nonlinear_arith);
    }
}

/// The registered gate of `Range { tol }` evaluates to the range-check
/// identity at the integer difference between the queried input cell and
/// the targeted output cell: it vanishes exactly when
/// `lemma_range_identity_vanishes` says so.
pub proof fn lemma_range_gate_eval(
    g: &GateCols,
    tol: i32,
    wit: Map<(nat, int), int>,
    fix: Map<nat, int>,
    gating: Map<nat, bool>,
)
    requires
        g.op == (BaseOp::Range { tol }),
    ensures
        eval_term(gate_constraint_term(g), wit, fix, gating) == range_identity(
            eval_term(input_term(g.in1), wit, fix, gating) - eval_term(
                out_cell_term(g, 0),
                wit,
                fix,
                gating,
            ),
            tol as int,
        ),
{
    reveal_with_fuel(eval_term, 4);
    let d = PolyTerm::Sub(Box::new(input_term(g.in1)), Box::new(out_cell_term(g, 0)));
    let dv = eval_term(d, wit, fix, gating);
    if tol >= 0 {
        lemma_eval_range_fold(d, tol as int, tol as int, wit, fix, gating);
    } else {
        assert(range_fold_term(d, tol as int, tol as int) == d);
        assert(range_factors(dv, -(tol as int), tol as int) == 1);
        assert(dv * 1 == dv);
    }
}

/// The registered gate of `IsBoolean` evaluates to the boolean-check
/// identity at the queried input cell, and the `IsZero` gate to the
/// zero-check identity.
pub proof fn lemma_assertion_gate_eval(
    g: &GateCols,
    wit: Map<(nat, int), int>,
    fix: Map<nat, int>,
    gating: Map<nat, bool>,
)
    ensures
        g.op is IsBoolean ==> eval_term(gate_constraint_term(g), wit, fix, gating)
            == is_boolean_identity(eval_term(input_term(g.in1), wit, fix, gating)),
        g.op is IsZero ==> eval_term(gate_constraint_term(g), wit, fix, gating)
            == is_zero_identity(eval_term(input_term(g.in1), wit, fix, gating)),
{
    reveal_with_fuel(eval_term, 5);
    let q1 = input_term(g.in1);
    let q1v = eval_term(q1, wit, fix, gating);
    if g.op is IsBoolean {
        assert(gate_constraint_term(g) == PolyTerm::Mul(
            Box::new(q1),
            Box::new(PolyTerm::Sub(Box::new(q1), Box::new(PolyTerm::Lit(1)))),
        ));
        assert(eval_term(gate_constraint_term(g), wit, fix, gating) == q1v * (q1v - 1));
    }
    if g.op is IsZero {
        assert(gate_constraint_term(g) == q1);
    }
}

/// The registered gate of each arithmetic operation evaluates to the
/// targeted output cell minus the operation's function of the queried
/// cells: the simple kinds target the current row, the accumulation kinds
/// the last row of their range with the previous row as the running value.
pub proof fn lemma_arith_gate_eval(
    g: &GateCols,
    wit: Map<(nat, int), int>,
    fix: Map<nat, int>,
    gating: Map<nat, bool>,
)
    ensures
        (g.op is Add || g.op is Sub || g.op is Mult || g.op is Neg || g.op is Identity)
            ==> eval_term(gate_constraint_term(g), wit, fix, gating) == eval_term(
            out_cell_term(g, 0),
            wit,
            fix,
            gating,
        ) - g.op.spec_f(
            eval_term(input_term(g.in0), wit, fix, gating),
            eval_term(input_term(g.in1), wit, fix, gating),
            0,
        ),
        (g.op is Dot || g.op is Sum) ==> eval_term(gate_constraint_term(g), wit, fix, gating)
            == eval_term(out_cell_term(g, 0), wit, fix, gating) - g.op.spec_f(
            eval_term(input_term(g.in0), wit, fix, gating),
            eval_term(input_term(g.in1), wit, fix, gating),
            eval_term(out_cell_term(g, -1), wit, fix, gating),
        ),
{
    reveal_with_fuel(eval_term, 6);
    let q0v = eval_term(input_term(g.in0), wit, fix, gating);
    let q1v = eval_term(input_term(g.in1), wit, fix, gating);
    let out0v = eval_term(out_cell_term(g, 0), wit, fix, gating);
    let prevv = eval_term(out_cell_term(g, -1), wit, fix, gating);
    match g.op {
        BaseOp::Add => {
            assert(eval_term(gate_constraint_term(g), wit, fix, gating) == out0v - (q0v + q1v));
        },
        BaseOp::Sub => {
            assert(eval_term(gate_constraint_term(g), wit, fix, gating) == out0v - (q0v - q1v));
        },
        BaseOp::Mult => {
            assert(eval_term(gate_constraint_term(g), wit, fix, gating) == out0v - (q0v * q1v));
        },
        BaseOp::Neg => {
            assert(eval_term(gate_constraint_term(g), wit, fix, gating) == out0v + q1v);
        },
        BaseOp::Identity => {
            assert(eval_term(gate_constraint_term(g), wit, fix, gating) == out0v - q1v);
        },
        BaseOp::Dot => {
            assert(eval_term(gate_constraint_term(g), wit, fix, gating) == out0v - (q0v * q1v
                + prevv));
        },
        BaseOp::Sum => {
            assert(eval_term(gate_constraint_term(g), wit, fix, gating) == out0v - (q1v + prevv));
        },
        _ => {},
    }
}

/// The registered lookup expression evaluates to the blended cell: the
/// queried cell where the gating selector is on, the operation's default
/// where it is off — the tie between the registered argument and the
/// inactive-row satisfiability law.
pub proof fn lemma_lookup_blend_eval(
    rank: nat,
    cell: PolyTerm,
    dflt: int,
    wit: Map<(nat, int), int>,
    fix: Map<nat, int>,
    gating: Map<nat, bool>,
)
    ensures
        eval_term(lookup_blend_term(rank, cell, dflt), wit, fix, gating)
            == crate::table::spec_lookup_blend(
            gating[rank],
            eval_term(cell, wit, fix, gating),
            dflt,
        ),
{
    reveal_with_fuel(eval_term, 6);
    let cv = eval_term(cell, wit, fix, gating);
    if gating[rank] {
        assert(1 * cv == cv) by (nonlinear_arith);
        assert((1 - 1) * dflt == 0) by (nonlinear_arith);
    } else {
        assert(0 * cv == 0) by (nonlinear_arith);
        assert((1 - 0) * dflt == dflt) by (nonlinear_arith);
    }
}

} // verus!
