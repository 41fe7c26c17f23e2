//! One-time construction and population of the fixed lookup columns for one
//! nonlinear operation. A table is created the first time its operation is
//! requested, and populated exactly once, lazily, before first use: its
//! domain holds every integer of a two's-complement window of the
//! configured precision, each mapped through the operation's defining
//! function.

use vstd::arithmetic::power2::lemma2_to64;
use vstd::arithmetic::power2::lemma_pow2_strictly_increases;
use vstd::arithmetic::power2::lemma_pow2_pos;
use vstd::arithmetic::power2::lemma_pow2_unfold;
use vstd::arithmetic::power2::pow2;
use vstd::prelude::*;

use halo2_proofs::plonk::TableColumn;

use crate::backend::cs_lookup_table_column;
use crate::backend::BuilderModel;
use crate::backend::SysBuilder;
use crate::lookup::LookupOp;
use crate::CircuitError;

verus! {

/// The largest supported precision, in bits, of a lookup table's domain.
pub const MAX_TABLE_BITS: usize = 16;

/// The lower end of the table domain for a precision of `bits` bits.
pub open spec fn spec_table_lo(bits: nat) -> int {
    -(pow2((bits - 1) as nat) as int)
}

/// The number of domain points of a table of `bits` bits of precision.
pub open spec fn spec_table_size(bits: nat) -> nat {
    pow2(bits)
}

/// The domain/codomain pair that row `k` of the table holds.
pub open spec fn spec_table_row(op: LookupOp, bits: nat, k: int) -> (int, int) {
    (spec_table_lo(bits) + k, op.spec_f(spec_table_lo(bits) + k))
}

/// The fixed lookup columns serving one nonlinear operation, and whether
/// they have been populated yet.
#[derive(Clone, Copy)]
pub struct Table {
    pub nonlinearity: LookupOp,
    pub table_input: TableColumn,
    pub table_output: TableColumn,
    pub bits: usize,
    pub is_assigned: bool,
}

impl Table {
    /// A table is well formed when its operation's parameters are usable
    /// and its precision is positive and supported.
    pub open spec fn wf(&self) -> bool {
        &&& self.nonlinearity.wf()
        &&& 1 <= self.bits <= MAX_TABLE_BITS
    }

    /// Allocates the two fixed columns of a fresh, unpopulated table for
    /// the given operation and precision.
    pub fn configure(cs: &mut SysBuilder, bits: usize, nl: &LookupOp) -> (r: Table)
        requires
            1 <= bits <= MAX_TABLE_BITS,
            nl.wf(),
        ensures
            r.wf(),
            r.nonlinearity == *nl,
            r.bits == bits,
            !r.is_assigned,
            final(cs).id() == old(cs).id(),
            final(cs).model() == (BuilderModel {
                table_columns: old(cs).model().table_columns + 2,
                ..old(cs).model()
            }),
    {
        let table_input = cs_lookup_table_column(cs);
        let table_output = cs_lookup_table_column(cs);
        Table { nonlinearity: *nl, table_input, table_output, bits, is_assigned: false }
    }

    /// Computes the full domain/codomain contents of the table and marks it
    /// populated; a second attempt is refused. The rows walk the domain in
    /// order, from the lowest point of the window upward, each mapped
    /// through the operation's defining function.
    pub fn layout(&mut self) -> (r: Result<Vec<(i64, i64)>, CircuitError>)
        requires
            old(self).wf(),
        ensures
            final(self).nonlinearity == old(self).nonlinearity,
            final(self).bits == old(self).bits,
            final(self).table_input == old(self).table_input,
            final(self).table_output == old(self).table_output,
            final(self).is_assigned,
            old(self).is_assigned <==> (r is Err),
            r matches Err(e) ==> e is TableAlreadyAssigned && *final(self) == *old(self),
            r matches Ok(rows) ==> {
                &&& rows@.len() == spec_table_size(old(self).bits as nat)
                &&& forall|k: int|
                    0 <= k < rows@.len() ==> (rows@[k].0 as int, rows@[k].1 as int)
                        == spec_table_row(old(self).nonlinearity, old(self).bits as nat, k)
            },
    {
        if self.is_assigned {
            return Err(CircuitError::TableAlreadyAssigned);
        }
        self.is_assigned = true;
        let ghost b = self.bits as nat;
        proof {
            lemma2_to64();
            if self.bits < MAX_TABLE_BITS {
                lemma_pow2_strictly_increases((b - 1) as nat, (MAX_TABLE_BITS - 1) as nat);
                lemma_pow2_strictly_increases(b, MAX_TABLE_BITS as nat);
            }
        }
        let mut half: usize = 1;
        let mut j: usize = 1;
        while j < self.bits
            invariant
                1 <= j <= self.bits <= MAX_TABLE_BITS,
                half == pow2((j - 1) as nat),
                self.bits == old(self).bits,
                b == self.bits as nat,
            decreases self.bits - j,
        {
            proof {
                lemma2_to64();
                if (j - 1) as nat != (MAX_TABLE_BITS - 1) as nat {
                    lemma_pow2_strictly_increases((j - 1) as nat, (MAX_TABLE_BITS - 1) as nat);
                }
                lemma_pow2_unfold(j as nat);
            }
            half = half * 2;
            j = j + 1;
        }
        proof {
            lemma_pow2_unfold(b);
            lemma2_to64();
            if (b - 1) as nat != (MAX_TABLE_BITS - 1) as nat {
                lemma_pow2_strictly_increases((b - 1) as nat, (MAX_TABLE_BITS - 1) as nat);
            }
        }
        let size: usize = half * 2;
        let mut rows: Vec<(i64, i64)> = Vec::new();
        let mut k: usize = 0;
        while k < size
            invariant
                k <= size,
                size == spec_table_size(b),
                half == pow2((b - 1) as nat),
                half <= 32768,
                size == 2 * half,
                self.nonlinearity.wf(),
                rows@.len() == k as nat,
                forall|m: int|
                    0 <= m < k as int ==> (rows@[m].0 as int, rows@[m].1 as int)
                        == spec_table_row(self.nonlinearity, b, m),
            decreases size - k,
        {
            let x: i64 = (k as i64) - (half as i64);
            let y: i64 = self.nonlinearity.f(x);
            rows.push((x, y));
            k = k + 1;
        }
        Ok(rows)
    }
}

/// The value a lookup argument checks for one cell: the cell itself where
/// the gating selector is active, the operation's default otherwise.
pub open spec fn spec_lookup_blend(active: bool, cell: int, dflt: int) -> int {
    if active {
        cell
    } else {
        dflt
    }
}

/// On a row whose gating selector is off, the blended pair handed to the
/// lookup argument is the operation's default pair, and that pair appears
/// in the table of any supported precision: zero lies in every domain
/// window, and the default output is its image. The lookup is therefore
/// satisfiable on inactive rows whatever the cell values hold.
pub proof fn lemma_inactive_row_satisfied(op: LookupOp, bits: nat, cell_x: int, cell_y: int)
    requires
        op.wf(),
        1 <= bits <= MAX_TABLE_BITS,
    ensures
        exists|k: int|
            0 <= k < spec_table_size(bits) && #[trigger] spec_table_row(op, bits, k) == (
                spec_lookup_blend(false, cell_x, 0),
                spec_lookup_blend(false, cell_y, op.spec_f(0)),
            ),
{
    let k = pow2((bits - 1) as nat) as int;
    lemma_pow2_unfold(bits);
    lemma_pow2_pos((bits - 1) as nat);
    assert(spec_table_lo(bits) + k == 0);
    assert(0 <= k < spec_table_size(bits));
    assert(spec_table_row(op, bits, k) == (
        spec_lookup_blend(false, cell_x, 0),
        spec_lookup_blend(false, cell_y, op.spec_f(0)),
    ));
}

/// Whether a population plan's rows hold the given domain/codomain pair.
pub fn rows_contain_pair(rows: &Vec<(i64, i64)>, x: i64, y: i64) -> (r: bool)
    ensures
        r == exists|k: int| 0 <= k < rows@.len() && #[trigger] rows@[k] == (x, y),
{
    let n = rows.len();
    let mut i: usize = 0;
    while i < n
        invariant
            n as nat == rows@.len(),
            i <= n,
            forall|m: int| 0 <= m < i as int ==> #[trigger] rows@[m] != (x, y),
        decreases n - i,
    {
        let (a, b) = rows[i];
        if a == x && b == y {
            return true;
        }
        i = i + 1;
    }
    false
}

} // verus!
