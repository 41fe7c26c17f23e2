//! The orchestrator: owns the column resources, the selector registries for
//! base and lookup operations and the table registry, and exposes the
//! lifecycle phases of circuit construction: gate configuration, lookup
//! configuration, table layout and row-by-row value layout.

use vstd::arithmetic::div_mod::lemma_fundamental_div_mod;
use vstd::arithmetic::div_mod::lemma_fundamental_div_mod_converse;
use vstd::prelude::*;

use crate::backend::create_base_gate;
use crate::backend::cs_enable_constant;
use crate::backend::cs_fixed_column;
use crate::backend::cs_selector;
use crate::backend::fp_from_i64;
use crate::backend::gate_cols_owned;
use crate::backend::gate_input_owned;
use crate::backend::lookup_argument;
use crate::backend::selector_dup;
use crate::backend::BuilderModel;
use crate::backend::GateCols;
use crate::backend::SelectorHandle;
use crate::backend::SysBuilder;
use crate::base::BaseOp;
use crate::lookup::LookupOp;
use crate::ops::Op;
use crate::table::Table;
use crate::table::MAX_TABLE_BITS;
use crate::tensor::vals_of;
use crate::tensor::ValTensor;
use crate::tensor::VarTensor;
use crate::CheckMode;
use crate::CircuitError;

verus! {

/// How many base operation kinds each column's block of selectors holds.
pub const BASE_OP_KINDS: usize = 10;

/// The base operation registered at position `j` of each column's block of
/// selectors.
pub open spec fn base_op_at(j: int, tol: i32) -> BaseOp {
    if j == 0 {
        BaseOp::Add
    } else if j == 1 {
        BaseOp::Sub
    } else if j == 2 {
        BaseOp::Dot
    } else if j == 3 {
        BaseOp::Sum
    } else if j == 4 {
        BaseOp::Neg
    } else if j == 5 {
        BaseOp::Mult
    } else if j == 6 {
        BaseOp::Range { tol }
    } else if j == 7 {
        BaseOp::IsZero
    } else if j == 8 {
        BaseOp::Identity
    } else {
        BaseOp::IsBoolean
    }
}

/// One selector of the base-operation registry, keyed by operation and
/// column index.
pub struct SelectorEntry {
    pub op: BaseOp,
    pub col: usize,
    pub sel: SelectorHandle,
}

/// One selector of the lookup registry, keyed by lookup operation and
/// column index.
pub struct LookupSelectorEntry {
    pub op: LookupOp,
    pub col: usize,
    pub sel: SelectorHandle,
}

/// The shape of the base-operation registry that gate configuration
/// produces for `w` columns: one block of the operation kinds, in a fixed
/// order, per column.
pub open spec fn selectors_indexed(s: Seq<SelectorEntry>, w: nat, tol: i32) -> bool {
    &&& s.len() == w * (BASE_OP_KINDS as nat)
    &&& forall|k: int|
        0 <= k < s.len() ==> (#[trigger] s[k]).op == base_op_at(k % (BASE_OP_KINDS as int), tol)
            && s[k].col as int == k / (BASE_OP_KINDS as int)
}

/// Whether the registry holds a selector keyed by the `j`-th base
/// operation kind and column `c`.
pub open spec fn registry_covers(s: Seq<SelectorEntry>, j: int, c: int, tol: i32) -> bool {
    exists|k: int|
        0 <= k < s.len() && (#[trigger] s[k]).op == base_op_at(j, tol) && s[k].col as int == c
}

/// In a registry of that shape there are no duplicate keys, and every
/// (base operation, column) pair of the configured block is present:
/// exactly `w` selectors per base operation.
pub proof fn lemma_selector_registry_exact(s: Seq<SelectorEntry>, w: nat, tol: i32)
    requires
        selectors_indexed(s, w, tol),
    ensures
        forall|k1: int, k2: int|
            0 <= k1 < k2 < s.len() ==> !(s[k1].op == s[k2].op && s[k1].col == s[k2].col),
        forall|j: int, c: int|
            0 <= j < BASE_OP_KINDS as int && 0 <= c < w ==> #[trigger] registry_covers(
                s,
                j,
                c,
                tol,
            ),
{
    let b = BASE_OP_KINDS as int;
    assert forall|k1: int, k2: int| 0 <= k1 < k2 < s.len() implies !(s[k1].op == s[k2].op
        && s[k1].col == s[k2].col) by {
        if s[k1].op == s[k2].op && s[k1].col == s[k2].col {
            lemma_fundamental_div_mod(k1, b);
            lemma_fundamental_div_mod(k2, b);
            assert(base_op_at(k1 % b, tol) == base_op_at(k2 % b, tol));
            assert(k1 % b == k2 % b);
        }
    }
    assert forall|j: int, c: int| 0 <= j < b && 0 <= c < w implies #[trigger] registry_covers(
        s,
        j,
        c,
        tol,
    ) by {
        let k = c * b + j;
        lemma_fundamental_div_mod_converse(k, b, c, j);
        assert(k < w * b) by (nonlinear_arith)
            requires
                0 <= c < w,
                0 <= j < b,
                k == c * b + j,
        ;
        assert(0 <= k < s.len() && s[k].op == base_op_at(j, tol) && s[k].col as int == c);
    }
}

/// Whether the table registry already holds a table for the operation.
pub open spec fn tables_have(tables: Seq<Table>, nl: LookupOp) -> bool {
    exists|i: int| 0 <= i < tables.len() && (#[trigger] tables[i]).nonlinearity == nl
}

/// In a well-formed configuration whose registry holds a table for an
/// operation, that table is the only one: a repeated lookup configuration
/// leaves exactly one table for the operation.
pub proof fn lemma_one_table_per_operation(c: &BaseConfig, nl: LookupOp)
    requires
        c.wf(),
        tables_have(c.tables@, nl),
    ensures
        exists|i: int| 0 <= i < c.tables@.len() && (#[trigger] c.tables@[i]).nonlinearity == nl,
        forall|i: int, j: int|
            0 <= i < c.tables@.len() && 0 <= j < c.tables@.len() && (
            #[trigger] c.tables@[i]).nonlinearity == nl && (#[trigger] c.tables@[j]).nonlinearity
                == nl ==> i == j,
{
}

/// Well-formedness carries over between configurations that share their
/// table and lookup-selector registries.
pub proof fn lemma_wf_transfer(a: &BaseConfig, b: &BaseConfig)
    requires
        a.wf(),
        b.tables@ == a.tables@,
        b.lookup_selectors@ == a.lookup_selectors@,
    ensures
        b.wf(),
{
    let ts = b.tables@;
    let ls = b.lookup_selectors@;
    assert forall|i2: int| 0 <= i2 < ts.len() implies (#[trigger] ts[i2]).wf() by {
        assert(a.tables@[i2].wf());
    }
    assert forall|i2: int, j2: int| 0 <= i2 < j2 < ts.len() implies (
    #[trigger] ts[i2]).nonlinearity != (#[trigger] ts[j2]).nonlinearity by {
        assert(a.tables@[i2].nonlinearity != a.tables@[j2].nonlinearity);
    }
    assert forall|i2: int, j2: int| 0 <= i2 < j2 < ls.len() implies !((#[trigger] ls[i2]).op == (
    #[trigger] ls[j2]).op && ls[i2].col == ls[j2].col) by {
        assert(!(a.lookup_selectors@[i2].op == a.lookup_selectors@[j2].op
            && a.lookup_selectors@[i2].col == a.lookup_selectors@[j2].col));
    }
    assert forall|i2: int| 0 <= i2 < ls.len() implies tables_have(ts, (#[trigger] ls[i2]).op) by {
        assert(tables_have(a.tables@, a.lookup_selectors@[i2].op));
    }
}

/// How many tables of the registry are not yet populated.
pub open spec fn count_unassigned(tables: Seq<Table>) -> nat
    decreases tables.len(),
{
    if tables.len() == 0 {
        0
    } else {
        count_unassigned(tables.drop_last()) + if !tables.last().is_assigned {
            1nat
        } else {
            0nat
        }
    }
}

/// The one-time population plan of one table: the operation it serves and
/// the full domain/codomain contents, in domain order.
pub struct TablePlan {
    pub nonlinearity: LookupOp,
    pub rows: Vec<(i64, i64)>,
}

/// Configuration of the accumulated operations: the column resources, the
/// selector registries, the table registry and the check mode.
pub struct BaseConfig {
    /// The explicit inputs of the operations.
    pub inputs: Vec<VarTensor>,
    /// The column resource reserved for lookup inputs (bound by the first
    /// lookup configuration).
    pub lookup_input: VarTensor,
    /// The single output of the operations.
    pub output: VarTensor,
    /// The column resource reserved for lookup outputs (bound by the first
    /// lookup configuration).
    pub lookup_output: VarTensor,
    /// One selector per (base operation, column index).
    pub selectors: Vec<SelectorEntry>,
    /// One selector per (lookup operation, column index).
    pub lookup_selectors: Vec<LookupSelectorEntry>,
    /// One table per distinct lookup operation.
    pub tables: Vec<Table>,
    /// Whether extra local consistency checks run during layout.
    pub check_mode: CheckMode,
}

impl BaseConfig {
    /// The structural invariant of a configuration: tables are well formed
    /// and keyed uniquely by their operation, and the lookup selector
    /// registry has no duplicate keys.
    pub open spec fn wf(&self) -> bool {
        &&& forall|i: int| 0 <= i < self.tables@.len() ==> (#[trigger] self.tables@[i]).wf()
        &&& forall|i: int, j: int|
            0 <= i < j < self.tables@.len() ==> (#[trigger] self.tables@[i]).nonlinearity != (
            #[trigger] self.tables@[j]).nonlinearity
        &&& forall|i: int, j: int|
            0 <= i < j < self.lookup_selectors@.len() ==> !((#[trigger] self.lookup_selectors@[i]).op
                == (#[trigger] self.lookup_selectors@[j]).op && self.lookup_selectors@[i].col
                == self.lookup_selectors@[j].col)
        &&& forall|i: int|
            0 <= i < self.lookup_selectors@.len() ==> tables_have(
                self.tables@,
                (#[trigger] self.lookup_selectors@[i]).op,
            )
    }

    /// Whether everything but the registries' population state is shared
    /// between two configurations: layout never mutates the structure.
    pub open spec fn same_structure(&self, other: &BaseConfig) -> bool {
        &&& self.inputs@ == other.inputs@
        &&& self.lookup_input == other.lookup_input
        &&& self.output == other.output
        &&& self.lookup_output == other.lookup_output
        &&& self.selectors@ == other.selectors@
        &&& self.lookup_selectors@ == other.lookup_selectors@
        &&& self.tables@ == other.tables@
        &&& self.check_mode == other.check_mode
    }

    /// A configuration with placeholder column resources, no selectors and
    /// no tables, for builds that never reach the proof system.
    pub fn dummy(col_size: usize) -> (r: BaseConfig)
        ensures
            r.wf(),
            r.inputs@.len() == 2,
            r.inputs@[0] matches VarTensor::Dummy { col_size: c } && c == col_size,
            r.inputs@[1] matches VarTensor::Dummy { col_size: c } && c == col_size,
            r.lookup_input matches VarTensor::Dummy { col_size: c } && c == col_size,
            r.output matches VarTensor::Dummy { col_size: c } && c == col_size,
            r.lookup_output matches VarTensor::Dummy { col_size: c } && c == col_size,
            r.selectors@.len() == 0,
            r.lookup_selectors@.len() == 0,
            r.tables@.len() == 0,
            r.check_mode == CheckMode::SAFE,
    {
        let mut inputs: Vec<VarTensor> = Vec::new();
        inputs.push(VarTensor::dummy(col_size));
        inputs.push(VarTensor::dummy(col_size));
        BaseConfig {
            inputs,
            lookup_input: VarTensor::dummy(col_size),
            output: VarTensor::dummy(col_size),
            lookup_output: VarTensor::dummy(col_size),
            selectors: Vec::new(),
            lookup_selectors: Vec::new(),
            tables: Vec::new(),
            check_mode: CheckMode::SAFE,
        }
    }

    /// Configures the base-operation gates: allocates one selector per
    /// (base operation, column index) pair, registers each operation's
    /// polynomial identity under it, and enables a constant column. The
    /// input and output column resources must be witness-backed and span
    /// the same number of columns.
    pub fn configure(
        meta: &mut SysBuilder,
        inputs: Vec<VarTensor>,
        output: VarTensor,
        check_mode: CheckMode,
        tol: i32,
    ) -> (r: BaseConfig)
        requires
            inputs@.len() == 2,
            inputs@[0].is_columns(),
            inputs@[1].is_columns(),
            output.is_advice(),
            inputs@[0].spec_num_cols() == output.spec_num_cols(),
            inputs@[1].spec_num_cols() == output.spec_num_cols(),
            output.spec_num_cols() * (BASE_OP_KINDS as nat) <= usize::MAX,
            inputs@[0].owned_by(old(meta).id(), old(meta).model().advice_columns),
            inputs@[1].owned_by(old(meta).id(), old(meta).model().advice_columns),
            output.owned_by(old(meta).id(), old(meta).model().advice_columns),
        ensures
            r.wf(),
            selectors_indexed(r.selectors@, output.spec_num_cols(), tol),
            r.inputs@ == inputs@,
            r.output == output,
            r.lookup_input is Empty,
            r.lookup_output is Empty,
            r.lookup_selectors@.len() == 0,
            r.tables@.len() == 0,
            r.check_mode == check_mode,
            final(meta).model() == (BuilderModel {
                simple_selectors: old(meta).model().simple_selectors + output.spec_num_cols()
                    * (BASE_OP_KINDS as nat),
                gates: old(meta).model().gates + output.spec_num_cols() * (BASE_OP_KINDS as nat),
                fixed_columns: old(meta).model().fixed_columns + 1,
                constants_enabled: old(meta).model().constants_enabled + 1,
                ..old(meta).model()
            }),
            final(meta).id() == old(meta).id(),
            forall|k: int|
                0 <= k < r.selectors@.len() ==> (#[trigger] r.selectors@[k]).sel.owner() == old(
                    meta,
                ).id() && r.selectors@[k].sel.rank() == old(meta).model().selectors_allocated()
                    + k,
            forall|k1: int, k2: int|
                0 <= k1 < k2 < r.selectors@.len() ==> (#[trigger] r.selectors@[k1]).sel.rank() != (
                #[trigger] r.selectors@[k2]).sel.rank(),
    {
        let w = output.num_cols();
        let ghost wn = output.spec_num_cols();
        let b = BASE_OP_KINDS;
        let mut selectors: Vec<SelectorEntry> = Vec::new();
        let mut c: usize = 0;
        while c < w
            invariant
                c <= w,
                w as nat == wn,
                wn * (BASE_OP_KINDS as nat) <= usize::MAX,
                selectors@.len() == c as nat * (BASE_OP_KINDS as nat),
                meta.id() == old(meta).id(),
                forall|k: int|
                    0 <= k < selectors@.len() ==> (#[trigger] selectors@[k]).sel.owner() == old(
                        meta,
                    ).id() && selectors@[k].sel.rank() == old(
                        meta,
                    ).model().selectors_allocated() + k,
                forall|k: int|
                    0 <= k < selectors@.len() ==> (#[trigger] selectors@[k]).op == base_op_at(
                        k % (BASE_OP_KINDS as int),
                        tol,
                    ) && selectors@[k].col as int == k / (BASE_OP_KINDS as int),
                meta.model() == (BuilderModel {
                    simple_selectors: old(meta).model().simple_selectors + c as nat * (
                    BASE_OP_KINDS as nat),
                    ..old(meta).model()
                }),
            decreases w - c,
        {
            let ghost len0 = selectors@.len() as int;
            proof {
                assert(len0 == c as int * 10);
                assert((c + 1) as int * 10 <= wn * 10) by (nonlinear_arith)
                    requires
                        (c as int) < wn as int,
                ;
            }
            selectors.push(SelectorEntry { op: BaseOp::Add, col: c, sel: cs_selector(meta) });
            selectors.push(SelectorEntry { op: BaseOp::Sub, col: c, sel: cs_selector(meta) });
            selectors.push(SelectorEntry { op: BaseOp::Dot, col: c, sel: cs_selector(meta) });
            selectors.push(SelectorEntry { op: BaseOp::Sum, col: c, sel: cs_selector(meta) });
            selectors.push(SelectorEntry { op: BaseOp::Neg, col: c, sel: cs_selector(meta) });
            selectors.push(SelectorEntry { op: BaseOp::Mult, col: c, sel: cs_selector(meta) });
            selectors.push(
                SelectorEntry { op: BaseOp::Range { tol }, col: c, sel: cs_selector(meta) },
            );
            selectors.push(SelectorEntry { op: BaseOp::IsZero, col: c, sel: cs_selector(meta) });
            selectors.push(SelectorEntry { op: BaseOp::Identity, col: c, sel: cs_selector(meta) });
            selectors.push(SelectorEntry { op: BaseOp::IsBoolean, col: c, sel: cs_selector(meta) });
            proof {
                assert forall|j: int| 0 <= j < 10 implies #[trigger] ((len0 + j) % 10) == j && (
                len0 + j) / 10 == c as int by {
                    lemma_fundamental_div_mod_converse(len0 + j, 10, c as int, j);
                }
                assert((c + 1) as nat * 10 == c as nat * 10 + 10) by (nonlinear_arith);
            }
            c = c + 1;
        }
        let mut idx: usize = 0;
        while idx < selectors.len()
            invariant
                selectors_indexed(selectors@, wn, tol),
                idx <= selectors@.len(),
                meta.model() == (BuilderModel {
                    simple_selectors: old(meta).model().simple_selectors + wn * (
                    BASE_OP_KINDS as nat),
                    gates: old(meta).model().gates + idx as nat,
                    ..old(meta).model()
                }),
                forall|k: int|
                    0 <= k < selectors@.len() ==> ((#[trigger] selectors@[k]).col as nat) < wn,
                meta.id() == old(meta).id(),
                forall|k: int|
                    0 <= k < selectors@.len() ==> (#[trigger] selectors@[k]).sel.owner() == old(
                        meta,
                    ).id(),
                inputs@.len() == 2,
                inputs@[0].is_columns(),
                inputs@[1].is_columns(),
                output.is_advice(),
                inputs@[0].spec_num_cols() == wn,
                inputs@[1].spec_num_cols() == wn,
                output.spec_num_cols() == wn,
                inputs@[0].owned_by(old(meta).id(), old(meta).model().advice_columns),
                inputs@[1].owned_by(old(meta).id(), old(meta).model().advice_columns),
                output.owned_by(old(meta).id(), old(meta).model().advice_columns),
            decreases selectors@.len() - idx,
        {
            let e_op = selectors[idx].op;
            let e_col = selectors[idx].col;
            let e_sel = selector_dup(&selectors[idx].sel);
            let gate = GateCols {
                op: e_op,
                in0: inputs[0].input_col(e_col),
                in1: inputs[1].input_col(e_col),
                out: output.advice_col(e_col),
            };
            proof {
                assert(meta.model().advice_columns == old(meta).model().advice_columns);
                assert(gate_input_owned(gate.in0, meta.id(), meta.model().advice_columns));
                assert(gate_input_owned(gate.in1, meta.id(), meta.model().advice_columns));
                assert(gate_cols_owned(&gate, meta.id(), meta.model().advice_columns));
            }
            create_base_gate(meta, e_op.as_str(), e_sel, gate);
            idx = idx + 1;
        }
        let constant_col = cs_fixed_column(meta);
        cs_enable_constant(meta, constant_col);
        BaseConfig {
            selectors,
            lookup_selectors: Vec::new(),
            inputs,
            lookup_input: VarTensor::Empty,
            lookup_output: VarTensor::Empty,
            tables: Vec::new(),
            output,
            check_mode,
        }
    }

    /// Configures one lookup operation: if a table for it already exists
    /// this is a no-op, otherwise it creates the table, allocates one
    /// gating selector per input column and registers the lookup argument
    /// of each, and binds the shared lookup input/output column resources
    /// if they are still unbound (first configuration wins). An unsupported
    /// precision, or an operation whose parameters are unusable, cannot be
    /// instantiated as a table and is refused.
    pub fn configure_lookup(
        &mut self,
        cs: &mut SysBuilder,
        input: &VarTensor,
        output: &VarTensor,
        bits: usize,
        nl: &LookupOp,
    ) -> (r: Result<(), CircuitError>)
        requires
            old(self).wf(),
            input.is_columns(),
            output.is_columns(),
            input.spec_num_cols() <= output.spec_num_cols(),
            input.owned_by(old(cs).id(), old(cs).model().advice_columns),
            output.owned_by(old(cs).id(), old(cs).model().advice_columns),
        ensures
            final(cs).id() == old(cs).id(),
            r is Ok <==> (tables_have(old(self).tables@, *nl) || (1 <= bits <= MAX_TABLE_BITS
                && nl.wf())),
            r matches Err(e) ==> e is LookupInstantiation && *final(self) == *old(self),
            (r is Err || tables_have(old(self).tables@, *nl)) ==> final(cs).model() == old(
                cs,
            ).model(),
            (!tables_have(old(self).tables@, *nl) && r is Ok) ==> final(cs).model() == (
            BuilderModel {
                table_columns: old(cs).model().table_columns + 2,
                complex_selectors: old(cs).model().complex_selectors + input.spec_num_cols(),
                lookups: old(cs).model().lookups + input.spec_num_cols(),
                ..old(cs).model()
            }),
            final(self).wf(),
            final(self).inputs@ == old(self).inputs@,
            final(self).output == old(self).output,
            final(self).selectors@ == old(self).selectors@,
            final(self).check_mode == old(self).check_mode,
            tables_have(old(self).tables@, *nl) ==> (r is Ok && *final(self) == *old(self)),
            (!tables_have(old(self).tables@, *nl) && r is Ok) ==> {
                &&& final(self).tables@.len() == old(self).tables@.len() + 1
                &&& final(self).tables@.subrange(0, old(self).tables@.len() as int) == old(
                    self,
                ).tables@
                &&& final(self).tables@.last().nonlinearity == *nl
                &&& final(self).tables@.last().bits == bits
                &&& !final(self).tables@.last().is_assigned
                &&& final(self).lookup_selectors@.len() == old(self).lookup_selectors@.len()
                    + input.spec_num_cols()
                &&& final(self).lookup_selectors@.subrange(
                    0,
                    old(self).lookup_selectors@.len() as int,
                ) == old(self).lookup_selectors@
                &&& forall|x: int|
                    0 <= x < input.spec_num_cols() ==> (#[trigger] final(self).lookup_selectors@[old(
                        self,
                    ).lookup_selectors@.len() + x]).op == *nl && final(self).lookup_selectors@[old(
                        self,
                    ).lookup_selectors@.len() + x].col as int == x
                &&& (old(self).lookup_input is Empty ==> crate::tensor::tensor_eq(
                    final(self).lookup_input,
                    *input,
                ))
                &&& (!(old(self).lookup_input is Empty) ==> final(self).lookup_input == old(
                    self,
                ).lookup_input)
                &&& (old(self).lookup_output is Empty ==> crate::tensor::tensor_eq(
                    final(self).lookup_output,
                    *output,
                ))
                &&& (!(old(self).lookup_output is Empty) ==> final(self).lookup_output == old(
                    self,
                ).lookup_output)
            },
            r is Ok ==> tables_have(final(self).tables@, *nl),
            (!tables_have(old(self).tables@, *nl) && r is Ok) ==> (forall|x: int|
                0 <= x < input.spec_num_cols() ==> {
                    &&& (#[trigger] final(self).lookup_selectors@[old(
                        self,
                    ).lookup_selectors@.len() + x]).sel.owner() == old(cs).id()
                    &&& final(self).lookup_selectors@[old(self).lookup_selectors@.len()
                        + x].sel.rank() == old(cs).model().selectors_allocated() + x
                }),
    {
        let mut i: usize = 0;
        let n = self.tables.len();
        while i < n
            invariant
                n == self.tables@.len(),
                i <= n,
                forall|m: int| 0 <= m < i as int ==> (#[trigger] self.tables@[m]).nonlinearity != *nl,
                *self == *old(self),
                old(self).wf(),
            decreases n - i,
        {
            if self.tables[i].nonlinearity == *nl {
                proof {
                    assert(tables_have(self.tables@, *nl));
                    lemma_wf_transfer(old(self), self);
                }
                return Ok(());
            }
            i = i + 1;
        }
        proof {
            assert(!tables_have(self.tables@, *nl));
            assert forall|m: int| 0 <= m < self.lookup_selectors@.len() implies (
            #[trigger] self.lookup_selectors@[m]).op != *nl by {
                assert(tables_have(self.tables@, self.lookup_selectors@[m].op));
            }
        }
        if bits < 1 || bits > MAX_TABLE_BITS || !nl.is_wf() {
            return Err(CircuitError::LookupInstantiation);
        }
        let table = Table::configure(cs, bits, nl);
        let ghost old_tables = self.tables@;
        let ghost old_lsel = self.lookup_selectors@;
        let tin = table.table_input;
        let tout = table.table_output;
        let (dx, dy) = nl.default_pair();
        let dxf = fp_from_i64(dx);
        let dyf = fp_from_i64(dy);
        let w = input.num_cols();
        let mut x: usize = 0;
        while x < w
            invariant
                w as nat == input.spec_num_cols(),
                input.is_columns(),
                output.is_columns(),
                input.spec_num_cols() <= output.spec_num_cols(),
                input.owned_by(old(cs).id(), old(cs).model().advice_columns),
                output.owned_by(old(cs).id(), old(cs).model().advice_columns),
                cs.id() == old(cs).id(),
                x <= w,
                self.tables@ == old_tables,
                self.inputs@ == old(self).inputs@,
                self.output == old(self).output,
                self.selectors@ == old(self).selectors@,
                self.check_mode == old(self).check_mode,
                self.lookup_input == old(self).lookup_input,
                self.lookup_output == old(self).lookup_output,
                self.lookup_selectors@.len() == old_lsel.len() + x as nat,
                self.lookup_selectors@.subrange(0, old_lsel.len() as int) == old_lsel,
                cs.model() == (BuilderModel {
                    table_columns: old(cs).model().table_columns + 2,
                    complex_selectors: old(cs).model().complex_selectors + x as nat,
                    lookups: old(cs).model().lookups + x as nat,
                    ..old(cs).model()
                }),
                forall|m: int|
                    0 <= m < x as int ==> (#[trigger] self.lookup_selectors@[old_lsel.len() + m]).op
                        == *nl && self.lookup_selectors@[old_lsel.len() + m].col as int == m
                        && self.lookup_selectors@[old_lsel.len() + m].sel.owner() == old(cs).id()
                        && self.lookup_selectors@[old_lsel.len() + m].sel.rank() == old(
                        cs,
                    ).model().selectors_allocated() + m,
                forall|i2: int, j2: int|
                    0 <= i2 < j2 < self.lookup_selectors@.len() ==> !((
                    #[trigger] self.lookup_selectors@[i2]).op == (
                    #[trigger] self.lookup_selectors@[j2]).op && self.lookup_selectors@[i2].col
                        == self.lookup_selectors@[j2].col),
                forall|m: int|
                    0 <= m < old_lsel.len() as int ==> (#[trigger] self.lookup_selectors@[m]).op
                        != *nl,
            decreases w - x,
        {
            let in_ref = input.input_col(x);
            let out_ref = output.input_col(x);
            proof {
                assert(cs.model().advice_columns == old(cs).model().advice_columns);
                assert(gate_input_owned(in_ref, cs.id(), cs.model().advice_columns));
                assert(gate_input_owned(out_ref, cs.id(), cs.model().advice_columns));
            }
            let qlookup = lookup_argument(cs, in_ref, out_ref, &dxf, &dyf, tin, tout);
            let ghost pre = self.lookup_selectors@;
            self.lookup_selectors.push(LookupSelectorEntry { op: *nl, col: x, sel: qlookup });
            proof {
                let ls = self.lookup_selectors@;
                let newi = ls.len() - 1;
                assert(ls.subrange(0, old_lsel.len() as int) =~= old_lsel);
                assert forall|i2: int| 0 <= i2 < newi implies !((#[trigger] ls[i2]).op
                    == ls[newi].op && ls[i2].col == ls[newi].col) by {
                    assert(ls[i2] == pre[i2]);
                    if i2 < old_lsel.len() {
                        assert(pre[i2].op != *nl);
                    } else {
                        let m2 = i2 - old_lsel.len();
                        assert(pre[old_lsel.len() + m2].col as int == m2);
                        assert(ls[newi].col == x);
                    }
                }
            }
            x = x + 1;
        }
        self.tables.push(table);
        if self.lookup_input.is_empty_kind() {
            self.lookup_input = input.duplicate();
        }
        if self.lookup_output.is_empty_kind() {
            self.lookup_output = output.duplicate();
        }
        proof {
            assert(self.tables@.subrange(0, old_tables.len() as int) =~= old_tables);
            assert(self.tables@.last().nonlinearity == *nl);
            assert(self.lookup_selectors@.subrange(0, old_lsel.len() as int) == old_lsel);
            assert forall|m: int| 0 <= m < self.lookup_selectors@.len() implies tables_have(
                self.tables@,
                (#[trigger] self.lookup_selectors@[m]).op,
            ) by {
                if m < old_lsel.len() {
                    assert(self.lookup_selectors@[m] == old_lsel[m]);
                    assert(tables_have(old_tables, old_lsel[m].op));
                    let wit = choose|i3: int|
                        0 <= i3 < old_tables.len() && (#[trigger] old_tables[i3]).nonlinearity
                            == old_lsel[m].op;
                    assert(self.tables@[wit].nonlinearity == old_lsel[m].op);
                } else {
                    let m2 = m - old_lsel.len();
                    assert(self.lookup_selectors@[old_lsel.len() + m2].op == *nl);
                    assert(self.tables@[old_tables.len() as int].nonlinearity == *nl);
                }
            }
        }
        Ok(())
    }

    /// Populates every table not yet populated and hands back the
    /// population plan of each, in registry order; tables already
    /// populated are left untouched, so a second call is a no-op that
    /// returns no plans.
    pub fn layout_tables(&mut self) -> (plans: Vec<TablePlan>)
        requires
            old(self).wf(),
        ensures
            final(self).wf(),
            final(self).inputs@ == old(self).inputs@,
            final(self).lookup_input == old(self).lookup_input,
            final(self).output == old(self).output,
            final(self).lookup_output == old(self).lookup_output,
            final(self).selectors@ == old(self).selectors@,
            final(self).lookup_selectors@ == old(self).lookup_selectors@,
            final(self).check_mode == old(self).check_mode,
            final(self).tables@.len() == old(self).tables@.len(),
            forall|k: int|
                0 <= k < old(self).tables@.len() ==> {
                    &&& (#[trigger] final(self).tables@[k]).nonlinearity == old(
                        self,
                    ).tables@[k].nonlinearity
                    &&& final(self).tables@[k].bits == old(self).tables@[k].bits
                    &&& final(self).tables@[k].table_input == old(self).tables@[k].table_input
                    &&& final(self).tables@[k].table_output == old(self).tables@[k].table_output
                    &&& final(self).tables@[k].is_assigned
                },
            forall|k: int|
                0 <= k < old(self).tables@.len() && old(self).tables@[k].is_assigned ==> (
                #[trigger] final(self).tables@[k]) == old(self).tables@[k],
            plans@.len() == count_unassigned(old(self).tables@),
            forall|p: int|
                0 <= p < plans@.len() ==> exists|k: int|
                    0 <= k < old(self).tables@.len() && !old(self).tables@[k].is_assigned && (
                    #[trigger] plans@[p]).nonlinearity == old(self).tables@[k].nonlinearity
                        && plans@[p].rows@.len() == crate::table::spec_table_size(
                        old(self).tables@[k].bits as nat,
                    ) && (forall|m: int|
                        0 <= m < plans@[p].rows@.len() ==> (
                        (#[trigger] plans@[p].rows@[m]).0 as int,
                        plans@[p].rows@[m].1 as int,
                        ) == crate::table::spec_table_row(
                            old(self).tables@[k].nonlinearity,
                            old(self).tables@[k].bits as nat,
                            m,
                        )),
    {
        let n = self.tables.len();
        let mut new_tables: Vec<Table> = Vec::new();
        let mut plans: Vec<TablePlan> = Vec::new();
        let mut i: usize = 0;
        while i < n
            invariant
                n == self.tables@.len(),
                i <= n,
                *self == *old(self),
                old(self).wf(),
                new_tables@.len() == i as nat,
                plans@.len() == count_unassigned(self.tables@.subrange(0, i as int)),
                forall|k: int|
                    0 <= k < i as int ==> {
                        &&& (#[trigger] new_tables@[k]).nonlinearity
                            == self.tables@[k].nonlinearity
                        &&& new_tables@[k].bits == self.tables@[k].bits
                        &&& new_tables@[k].table_input == self.tables@[k].table_input
                        &&& new_tables@[k].table_output == self.tables@[k].table_output
                        &&& new_tables@[k].is_assigned
                        &&& new_tables@[k].wf()
                    },
                forall|k: int|
                    0 <= k < i as int && self.tables@[k].is_assigned ==> (
                    #[trigger] new_tables@[k]) == self.tables@[k],
                forall|p: int|
                    0 <= p < plans@.len() ==> exists|k: int|
                        0 <= k < self.tables@.len() && !self.tables@[k].is_assigned && (
                        #[trigger] plans@[p]).nonlinearity == self.tables@[k].nonlinearity
                            && plans@[p].rows@.len() == crate::table::spec_table_size(
                            self.tables@[k].bits as nat,
                        ) && (forall|m: int|
                            0 <= m < plans@[p].rows@.len() ==> (
                            (#[trigger] plans@[p].rows@[m]).0 as int,
                            plans@[p].rows@[m].1 as int,
                            ) == crate::table::spec_table_row(
                                self.tables@[k].nonlinearity,
                                self.tables@[k].bits as nat,
                                m,
                            )),
            decreases n - i,
        {
            let mut t = self.tables[i];
            proof {
                assert(self.tables@.subrange(0, (i + 1) as int).drop_last() =~= self.tables@
                    .subrange(0, i as int));
            }
            if t.is_assigned {
                new_tables.push(t);
            } else {
                match t.layout() {
                    Ok(rows) => {
                        plans.push(TablePlan { nonlinearity: t.nonlinearity, rows });
                        new_tables.push(t);
                    },
                    Err(_) => {
                        proof {
                            assert(false);
                        }
                    },
                }
            }
            i = i + 1;
        }
        proof {
            assert(self.tables@.subrange(0, n as int) =~= self.tables@);
        }
        self.tables = new_tables;
        proof {
            assert forall|ii: int| 0 <= ii < self.lookup_selectors@.len() implies tables_have(
                self.tables@,
                (#[trigger] self.lookup_selectors@[ii]).op,
            ) by {
                assert(tables_have(old(self).tables@, self.lookup_selectors@[ii].op));
                let wit = choose|k: int|
                    0 <= k < old(self).tables@.len() && (#[trigger] old(
                        self,
                    ).tables@[k]).nonlinearity == self.lookup_selectors@[ii].op;
                assert(self.tables@[wit].nonlinearity == self.lookup_selectors@[ii].op);
            }
            assert forall|i1: int, j1: int| 0 <= i1 < j1 < self.tables@.len() implies (
            #[trigger] self.tables@[i1]).nonlinearity != (#[trigger] self.tables@[j1]).nonlinearity
                by {
                assert(old(self).tables@[i1].nonlinearity != old(self).tables@[j1].nonlinearity);
            }
        }
        plans
    }

    /// Copies every externally supplied (instance) operand into an owned
    /// witness tensor, through the identity primitive, consuming one row
    /// per copied cell; operands that are already witness values pass
    /// through unchanged and consume no rows.
    pub fn copy_instance_values(&mut self, values: &Vec<ValTensor>, offset: &mut usize) -> (r:
        Vec<ValTensor>)
        requires
            old(self).wf(),
            *old(offset) + spec_instance_rows(values@) <= usize::MAX,
        ensures
            *final(self) == *old(self),
            r@.len() == values@.len(),
            forall|j: int| 0 <= j < r@.len() ==> !(#[trigger] r@[j]).is_instance(),
            forall|j: int| 0 <= j < r@.len() ==> (#[trigger] r@[j]).vals() == values@[j].vals(),
            *final(offset) == *old(offset) + spec_instance_rows(values@),
    {
        let n = values.len();
        let mut r: Vec<ValTensor> = Vec::new();
        let mut j: usize = 0;
        while j < n
            invariant
                n as nat == values@.len(),
                j <= n,
                *self == *old(self),
                r@.len() == j as nat,
                forall|m: int| 0 <= m < j as int ==> !(#[trigger] r@[m]).is_instance(),
                forall|m: int| 0 <= m < j as int ==> (#[trigger] r@[m]).vals() == values@[m].vals(),
                *offset == *old(offset) + spec_instance_rows(values@.subrange(0, j as int)),
                *old(offset) + spec_instance_rows(values@) <= usize::MAX,
            decreases n - j,
        {
            proof {
                assert(values@.subrange(0, (j + 1) as int).drop_last() =~= values@.subrange(
                    0,
                    j as int,
                ));
                lemma_instance_rows_prefix(values@, (j + 1) as int);
            }
            if values[j].is_instance_kind() {
                let copied = values[j].to_witness();
                let len = copied.len();
                *offset = *offset + len;
                r.push(copied);
            } else {
                r.push(values[j].duplicate_as_value());
            }
            j = j + 1;
        }
        proof {
            assert(values@.subrange(0, n as int) =~= values@);
        }
        r
    }

    /// Lays out one operation: every instance operand is first copied into
    /// owned witness storage (gates and lookups read only witness and fixed
    /// cells), then the operation's own layout routine runs on the
    /// substituted values, which are value-equal to the given ones in
    /// order. The call succeeds exactly when the operation accepts those
    /// values at the advanced cursor; its output is exactly the operation's
    /// specified output of them, and the cursor moves by the instance-copy
    /// rows plus the operation's own consumption.
    pub fn layout<OpT: Op>(
        &mut self,
        values: &Vec<ValTensor>,
        offset: &mut usize,
        op: &OpT,
    ) -> (r: Result<Option<ValTensor>, CircuitError>)
        requires
            old(self).wf(),
            *old(offset) + spec_instance_rows(values@) <= usize::MAX,
        ensures
            final(self).wf(),
            final(self).same_structure(old(self)),
            *final(offset) >= *old(offset),
            r is Ok <==> op.accepts(
                vals_of(values@),
                (*old(offset) + spec_instance_rows(values@)) as nat,
            ),
            r matches Ok(out) ==> {
                &&& (out is Some <==> op.spec_output_vals(vals_of(values@)) is Some)
                &&& (out matches Some(t) ==> !t.is_instance() && Some(t.vals())
                    == op.spec_output_vals(vals_of(values@)))
                &&& *final(offset) == *old(offset) + spec_instance_rows(values@) + op.spec_rows(
                    vals_of(values@),
                )
            },
            r is Err ==> *final(offset) == *old(offset) + spec_instance_rows(values@),
    {
        let cp_values = self.copy_instance_values(values, offset);
        proof {
            assert forall|j: int| 0 <= j < vals_of(cp_values@).len() implies #[trigger] vals_of(
                cp_values@,
            )[j] == vals_of(values@)[j] by {
                assert(cp_values@[j].vals() == values@[j].vals());
            }
            assert(vals_of(cp_values@) =~= vals_of(values@));
        }
        op.layout(self, &cp_values, offset)
    }
}

/// How many rows the instance-copy phase of layout consumes: one per cell
/// of each externally supplied operand.
pub open spec fn spec_instance_rows(vs: Seq<ValTensor>) -> nat
    decreases vs.len(),
{
    if vs.len() == 0 {
        0
    } else {
        spec_instance_rows(vs.drop_last()) + if vs.last().is_instance() {
            vs.last().vals().len()
        } else {
            0
        }
    }
}

/// The instance-copy row count of a prefix never exceeds that of the whole
/// operand list.
pub proof fn lemma_instance_rows_prefix(vs: Seq<ValTensor>, j: int)
    requires
        0 <= j <= vs.len(),
    ensures
        spec_instance_rows(vs.subrange(0, j)) <= spec_instance_rows(vs),
    decreases vs.len() - j,
{
    if j == vs.len() {
        assert(vs.subrange(0, j) =~= vs);
    } else {
        lemma_instance_rows_prefix(vs, j + 1);
        assert(vs.subrange(0, j + 1).drop_last() =~= vs.subrange(0, j));
        assert(spec_instance_rows(vs.subrange(0, j)) <= spec_instance_rows(vs.subrange(0, j + 1)));
    }
}

} // verus!
