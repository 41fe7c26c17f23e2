//! The catalog of nonlinear operations realized through lookup arguments.
//! Each operation carries its own integer parameters, defines the function
//! that fills its table, and supplies the default input/output pair used on
//! rows where its lookup is inactive. Two operations are equal exactly when
//! all their parameters match.

use vstd::prelude::*;

verus! {

/// A nonlinear operation checked through a precomputed lookup table rather
/// than an algebraic identity.
#[derive(Clone, Copy, Debug, PartialEq, Eq, PartialOrd, Ord, Hash, Structural)]
pub enum LookupOp {
    /// Rectified linear unit, rescaled by an integer factor: negative
    /// inputs map to zero, nonnegative ones to the input divided by the
    /// scale.
    ReLu { scale: u32 },
    /// Strict threshold: one where the input exceeds the bound, else zero.
    GreaterThan { bound: i64 },
}

impl LookupOp {
    /// The operation's parameters are usable: a rescaling by zero is
    /// meaningless.
    pub open spec fn wf(&self) -> bool {
        match self {
            LookupOp::ReLu { scale } => *scale >= 1,
            LookupOp::GreaterThan { .. } => true,
        }
    }

    /// Whether the operation's parameters are usable.
    pub fn is_wf(&self) -> (r: bool)
        ensures
            r == self.wf(),
    {
        match self {
            LookupOp::ReLu { scale } => *scale >= 1,
            LookupOp::GreaterThan { .. } => true,
        }
    }

    /// The defining function of the operation on the integer value model.
    pub open spec fn spec_f(&self, x: int) -> int {
        match self {
            LookupOp::ReLu { scale } => if x <= 0 {
                0
            } else {
                x / (*scale as int)
            },
            LookupOp::GreaterThan { bound } => if x > *bound as int {
                1
            } else {
                0
            },
        }
    }

    /// The defining function on concrete values.
    pub fn f(&self, x: i64) -> (r: i64)
        requires
            self.wf(),
        ensures
            r as int == self.spec_f(x as int),
    {
        match self {
            LookupOp::ReLu { scale } => {
                if x <= 0 {
                    0
                } else {
                    let s: i64 = *scale as i64;
                    x / s
                }
            },
            LookupOp::GreaterThan { bound } => {
                if x > *bound {
                    1
                } else {
                    0
                }
            },
        }
    }

    /// The input/output pair used when the lookup is inactive on a row:
    /// the zero input and its image under the operation, so that the pair
    /// always appears in any table whose domain contains zero.
    pub fn default_pair(&self) -> (r: (i64, i64))
        requires
            self.wf(),
        ensures
            r.0 == 0,
            r.1 as int == self.spec_f(0),
    {
        (0, self.f(0))
    }

    /// The stable textual identity of the operation, used as the lookup
    /// argument's constraint label.
    pub open spec fn spec_label(self) -> Seq<char> {
        match self {
            LookupOp::ReLu { .. } => "RELU"@,
            LookupOp::GreaterThan { .. } => "GREATER_THAN"@,
        }
    }

    /// The stable textual identity of the operation, used as the lookup
    /// argument's constraint label.
    pub fn as_str(&self) -> (r: &'static str)
        ensures
            r@ == self.spec_label(),
    {
        match self {
            LookupOp::ReLu { .. } => "RELU",
            LookupOp::GreaterThan { .. } => "GREATER_THAN",
        }
    }
}

} // verus!
