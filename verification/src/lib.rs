pub mod backend;
pub mod base;
pub mod config;
pub mod lookup;
pub mod ops;
pub mod table;
pub mod tensor;

use vstd::prelude::*;
use vstd::string::StrSliceExecFns;

verus! {

/// Circuit construction errors.
#[derive(Clone, Debug, PartialEq, Eq)]
pub enum CircuitError {
    /// Shape mismatch between the column resources or operands of an
    /// operation.
    DimMismatch(&'static str),
    /// A lookup table could not be instantiated.
    LookupInstantiation,
    /// A second population attempt on an already populated lookup table.
    TableAlreadyAssigned,
    /// An operation without a defined layout reached the dispatch layer.
    UnsupportedOp,
}

/// Switch for the extra local consistency checks performed during layout.
/// `SAFE` enables them, `UNSAFE` skips them for speed. The generated
/// polynomial identities are the same either way.
#[derive(Clone, Copy, Debug, PartialEq, Eq, Hash, PartialOrd, Ord, Default, Structural)]
pub enum CheckMode {
    #[default]
    SAFE,
    UNSAFE,
}

/// The lower-case form of an upper-case ASCII letter; any other character
/// is left as it is.
pub open spec fn lower_char_spec(c: char) -> char {
    match c {
        'A' => 'a',
        'B' => 'b',
        'C' => 'c',
        'D' => 'd',
        'E' => 'e',
        'F' => 'f',
        'G' => 'g',
        'H' => 'h',
        'I' => 'i',
        'J' => 'j',
        'K' => 'k',
        'L' => 'l',
        'M' => 'm',
        'N' => 'n',
        'O' => 'o',
        'P' => 'p',
        'Q' => 'q',
        'R' => 'r',
        'S' => 's',
        'T' => 't',
        'U' => 'u',
        'V' => 'v',
        'W' => 'w',
        'X' => 'x',
        'Y' => 'y',
        'Z' => 'z',
        _ => c,
    }
}

/// The text lowered character by character.
pub open spec fn lower_text(s: Seq<char>) -> Seq<char> {
    s.map_values(|c: char| lower_char_spec(c))
}

/// Texts that select the checked mode, compared without regard to ASCII
/// case.
pub open spec fn is_safe_text(s: Seq<char>) -> bool {
    lower_text(s) == "safe"@
}

/// Texts that select the unchecked mode.
pub open spec fn is_unsafe_text(s: Seq<char>) -> bool {
    lower_text(s) == "unsafe"@
}

fn lower_char(c: char) -> (r: char)
    ensures
        r == lower_char_spec(c),
{
    match c {
        'A' => 'a',
        'B' => 'b',
        'C' => 'c',
        'D' => 'd',
        'E' => 'e',
        'F' => 'f',
        'G' => 'g',
        'H' => 'h',
        'I' => 'i',
        'J' => 'j',
        'K' => 'k',
        'L' => 'l',
        'M' => 'm',
        'N' => 'n',
        'O' => 'o',
        'P' => 'p',
        'Q' => 'q',
        'R' => 'r',
        'S' => 's',
        'T' => 't',
        'U' => 'u',
        'V' => 'v',
        'W' => 'w',
        'X' => 'x',
        'Y' => 'y',
        'Z' => 'z',
        _ => c,
    }
}

/// Whether `s`, lowered character by character, equals `lit`.
fn eq_lowered(s: &str, lit: &str) -> (r: bool)
    ensures
        r == (lower_text(s@) == lit@),
{
    let n = s.unicode_len();
    if n != lit.unicode_len() {
        assert(lower_text(s@).len() == s@.len());
        return false;
    }
    let mut i: usize = 0;
    while i < n
        invariant
            i <= n,
            n as nat == s@.len(),
            n as nat == lit@.len(),
            forall|m: int| 0 <= m < i as int ==> lower_char_spec(s@[m]) == lit@[m],
        decreases n - i,
    {
        if lower_char(s.get_char(i)) != lit.get_char(i) {
            assert(lower_text(s@)[i as int] != lit@[i as int]);
            return false;
        }
        i = i + 1;
    }
    proof {
        assert(lower_text(s@) =~= lit@);
    }
    true
}

impl CheckMode {
    /// Whether a text selects one of the two modes, without regard to
    /// ASCII case.
    pub open spec fn is_valid_text(s: Seq<char>) -> bool {
        is_safe_text(s) || is_unsafe_text(s)
    }

    /// The mode a configuration text selects. Any text other than the two
    /// mode names (compared without regard to ASCII case) is a fatal
    /// misconfiguration, and is not accepted here.
    pub fn from(value: &str) -> (r: CheckMode)
        requires
            CheckMode::is_valid_text(value@),
        ensures
            is_safe_text(value@) ==> r == CheckMode::SAFE,
            is_unsafe_text(value@) ==> r == CheckMode::UNSAFE,
    {
        proof {
            reveal_strlit("safe");
            reveal_strlit("unsafe");
            assert("safe"@.len() == 4);
            assert("unsafe"@.len() == 6);
        }
        if eq_lowered(value, "safe") {
            CheckMode::SAFE
        } else {
            CheckMode::UNSAFE
        }
    }

    /// The mode a configuration text selects, if it selects one.
    pub fn parse(value: &str) -> (r: Option<CheckMode>)
        ensures
            is_safe_text(value@) ==> r == Some(CheckMode::SAFE),
            is_unsafe_text(value@) ==> r == Some(CheckMode::UNSAFE),
            !CheckMode::is_valid_text(value@) ==> r is None,
    {
        proof {
            reveal_strlit("safe");
            reveal_strlit("unsafe");
            assert("safe"@.len() == 4);
            assert("unsafe"@.len() == 6);
        }
        if eq_lowered(value, "safe") {
            Some(CheckMode::SAFE)
        } else if eq_lowered(value, "unsafe") {
            Some(CheckMode::UNSAFE)
        } else {
            None
        }
    }
}

} // verus!
