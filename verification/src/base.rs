use vstd::prelude::*;

verus! {

/// The closed set of primitive arithmetic operation kinds. Each defines an
/// input arity, a row-offset/range pattern for its output query, the index of
/// the queried row that its polynomial identity targets, and (for the
/// arithmetic kinds) the function used to compute the expected output during
/// witness assignment. `Range` carries an integer tolerance, making each
/// tolerance a distinct gate.
#[derive(Clone, Copy, Debug, PartialEq, Eq, PartialOrd, Ord, Hash, Structural)]
pub enum BaseOp {
    Add,
    Sub,
    Mult,
    Dot,
    Sum,
    Neg,
    Range { tol: i32 },
    IsZero,
    Identity,
    IsBoolean,
}

impl BaseOp {
    /// How many input cells the identity of this operation reads.
    pub open spec fn spec_num_inputs(self) -> nat {
        match self {
            BaseOp::Add | BaseOp::Sub | BaseOp::Mult | BaseOp::Dot => 2,
            _ => 1,
        }
    }

    /// Row offset and row count of the output query: the accumulation
    /// operations read the previous row as well as the current one.
    pub open spec fn spec_query_offset_rng(self) -> (int, nat) {
        match self {
            BaseOp::Dot | BaseOp::Sum => (-1, 2),
            _ => (0, 1),
        }
    }

    /// Which element of the queried output range the identity targets:
    /// always the last row of the range.
    pub open spec fn spec_constraint_idx(self) -> nat {
        match self {
            BaseOp::Dot | BaseOp::Sum => 1,
            _ => 0,
        }
    }

    /// The arithmetic function of the operation on the value model:
    /// `a` and `b` are the input cells, `m` the previous output cell
    /// (used by the accumulation kinds).
    pub open spec fn spec_f(self, a: int, b: int, m: int) -> int {
        match self {
            BaseOp::Add => a + b,
            BaseOp::Sub => a - b,
            BaseOp::Mult => a * b,
            BaseOp::Dot => a * b + m,
            BaseOp::Sum => b + m,
            BaseOp::Neg => -b,
            _ => b,
        }
    }

    pub fn num_inputs(&self) -> (r: usize)
        ensures
            r == self.spec_num_inputs(),
    {
        match self {
            BaseOp::Add | BaseOp::Sub | BaseOp::Mult | BaseOp::Dot => 2,
            _ => 1,
        }
    }

    pub fn query_offset_rng(&self) -> (r: (i32, usize))
        ensures
            r.0 as int == self.spec_query_offset_rng().0,
            r.1 as nat == self.spec_query_offset_rng().1,
    {
        match self {
            BaseOp::Dot | BaseOp::Sum => (-1, 2),
            _ => (0, 1),
        }
    }

    pub fn constraint_idx(&self) -> (r: usize)
        ensures
            r as nat == self.spec_constraint_idx(),
            r as nat == self.spec_query_offset_rng().1 - 1,
    {
        match self {
            BaseOp::Dot | BaseOp::Sum => 1,
            _ => 0,
        }
    }

    /// The expected output of the operation on concrete cell values,
    /// on the integer value model.
    pub fn f(&self, a: i64, b: i64, m: i64) -> (r: i64)
        requires
            i64::MIN <= self.spec_f(a as int, b as int, m as int) <= i64::MAX,
            self is Dot ==> i64::MIN <= a as int * b as int <= i64::MAX,
        ensures
            r as int == self.spec_f(a as int, b as int, m as int),
    {
        match self {
            BaseOp::Add => a + b,
            BaseOp::Sub => a - b,
            BaseOp::Mult => a * b,
            BaseOp::Dot => {
                let p: i64 = a * b;
                p + m
            },
            BaseOp::Sum => b + m,
            BaseOp::Neg => -b,
            _ => b,
        }
    }

    /// The constraint label of this operation's gate.
    pub open spec fn spec_label(self) -> Seq<char> {
        match self {
            BaseOp::Add => "ADD"@,
            BaseOp::Sub => "SUB"@,
            BaseOp::Mult => "MULT"@,
            BaseOp::Dot => "DOT"@,
            BaseOp::Sum => "SUM"@,
            BaseOp::Neg => "NEG"@,
            BaseOp::Range { .. } => "RANGE"@,
            BaseOp::IsZero => "ISZERO"@,
            BaseOp::Identity => "IDENTITY"@,
            BaseOp::IsBoolean => "ISBOOLEAN"@,
        }
    }

    /// The constraint label of this operation's gate.
    pub fn as_str(&self) -> (r: &'static str)
        ensures
            r@ == self.spec_label(),
    {
        match self {
            BaseOp::Add => "ADD",
            BaseOp::Sub => "SUB",
            BaseOp::Mult => "MULT",
            BaseOp::Dot => "DOT",
            BaseOp::Sum => "SUM",
            BaseOp::Neg => "NEG",
            BaseOp::Range { .. } => "RANGE",
            BaseOp::IsZero => "ISZERO",
            BaseOp::Identity => "IDENTITY",
            BaseOp::IsBoolean => "ISBOOLEAN",
        }
    }
}

/// Product of the factors `(i - d)` for `i` in `[lo, hi)`: the tail of the
/// range-check identity.
pub open spec fn range_factors(d: int, lo: int, hi: int) -> int
    decreases hi - lo,
{
    if lo >= hi {
        1
    } else {
        (lo - d) * range_factors(d, lo + 1, hi)
    }
}

/// The polynomial identity of `Range { tol }` evaluated at an integer
/// difference `d` between the raw value and the expected output: the
/// fold starts from the difference itself and multiplies in one factor
/// per integer of `[-tol, tol)`.
pub open spec fn range_identity(d: int, tol: int) -> int {
    d * range_factors(d, -tol, tol)
}

/// The polynomial identity of `IsBoolean` evaluated at an input cell `x`.
pub open spec fn is_boolean_identity(x: int) -> int {
    x * (x - 1)
}

/// The polynomial identity of `IsZero` evaluated at an input cell `x`:
/// the queried cell itself, with no output query.
pub open spec fn is_zero_identity(x: int) -> int {
    x
}

/// The tail product vanishes exactly when the difference is one of the
/// integers of the interval.
proof fn lemma_range_factors_zero(d: int, lo: int, hi: int)
    ensures
        range_factors(d, lo, hi) == 0 <==> (lo <= d < hi),
    decreases hi - lo,
{
    if lo >= hi {
    } else {
        lemma_range_factors_zero(d, lo + 1, hi);
        let rest = range_factors(d, lo + 1, hi);
        assert((lo - d) * rest == 0 <==> (lo - d == 0 || rest == 0)) by (nonlinear_arith);
    }
}

/// The range-check identity vanishes exactly when the integer difference
/// lies in `[-tol, tol)`, for every positive tolerance; at `tol` or beyond
/// (on either side) it does not vanish.
pub proof fn lemma_range_identity_vanishes(d: int, tol: int)
    requires
        tol > 0,
    ensures
        range_identity(d, tol) == 0 <==> (-tol <= d < tol),
{
    lemma_range_factors_zero(d, -tol, tol);
    let rest = range_factors(d, -tol, tol);
    assert(d * rest == 0 <==> (d == 0 || rest == 0)) by (nonlinear_arith);
}

/// The boolean-check identity vanishes exactly on the two values that
/// stand for the field's zero and one elements.
pub proof fn lemma_is_boolean_identity_vanishes(x: int)
    ensures
        is_boolean_identity(x) == 0 <==> (x == 0 || x == 1),
{
    assert(x * (x - 1) == 0 <==> (x == 0 || x - 1 == 0)) by (nonlinear_arith);
}

/// Decides whether the range-check identity vanishes at difference `d`,
/// without evaluating the product itself.
pub fn range_identity_vanishes(d: i64, tol: i32) -> (r: bool)
    requires
        tol > 0,
    ensures
        r == (range_identity(d as int, tol as int) == 0),
{
    proof {
        lemma_range_identity_vanishes(d as int, tol as int);
    }
    -(tol as i64) <= d && d < (tol as i64)
}

/// The zero-check identity vanishes exactly on the value that stands for
/// the field's additive identity.
pub proof fn lemma_is_zero_identity_vanishes(x: int)
    ensures
        is_zero_identity(x) == 0 <==> x == 0,
{
}

/// Decides whether the zero-check identity vanishes at input `x`.
pub fn is_zero_identity_vanishes(x: i64) -> (r: bool)
    ensures
        r == (is_zero_identity(x as int) == 0),
{
    x == 0
}

/// Decides whether the boolean-check identity vanishes at input `x`.
pub fn is_boolean_identity_vanishes(x: i64) -> (r: bool)
    ensures
        r == (is_boolean_identity(x as int) == 0),
{
    proof {
        lemma_is_boolean_identity_vanishes(x as int);
    }
    x == 0 || x == 1
}

} // verus!
