//! Textual-parse contracts: the per-type rule that converts one text
//! value into a typed value, or rejects it.
//!
//! A type opts in by implementing [`FromEnvVar`]: a specification of
//! the parse as a function of the character sequence, and an
//! executable parser proved to return exactly that.  The boolean
//! contract is deliberately case-sensitive: exactly the lowercase
//! literals `"true"` and `"false"` are accepted, everything else is
//! rejected.

use vstd::prelude::*;
use vstd::string::StrSliceExecFns;

verus! {

/// A type that can be parsed from the text of an environment variable.
///
/// The executable parser must agree with the specification-level parse
/// on every input, so the parse is deterministic by construction.
pub trait FromEnvVar: Sized {
    /// The textual-parse contract: which character sequences parse,
    /// and to which value.
    spec fn spec_parse(s: Seq<char>) -> Option<Self>;

    /// Parse one text value, returning `None` exactly on the inputs
    /// the contract rejects.
    fn parse_text(s: &str) -> (r: Option<Self>)
        ensures
            r == Self::spec_parse(s@),
    ;
}

/// The boolean textual-parse contract: exactly `"true"` and `"false"`,
/// lowercase, parse; any other casing or content is rejected.
pub open spec fn spec_parse_bool(s: Seq<char>) -> Option<bool> {
    if s == seq!['t', 'r', 'u', 'e'] {
        Some(true)
    } else if s == seq!['f', 'a', 'l', 's', 'e'] {
        Some(false)
    } else {
        None
    }
}

impl FromEnvVar for bool {
    open spec fn spec_parse(s: Seq<char>) -> Option<bool> {
        spec_parse_bool(s)
    }

    fn parse_text(s: &str) -> (r: Option<bool>) {
        let n = s.unicode_len();
        if n == 4 && s.get_char(0) == 't' && s.get_char(1) == 'r' && s.get_char(2) == 'u'
            && s.get_char(3) == 'e' {
            proof {
                assert(s@ =~= seq!['t', 'r', 'u', 'e']);
            }
            Some(true)
        } else if n == 5 && s.get_char(0) == 'f' && s.get_char(1) == 'a' && s.get_char(2) == 'l'
            && s.get_char(3) == 's' && s.get_char(4) == 'e' {
            proof {
                assert(s@ =~= seq!['f', 'a', 'l', 's', 'e']);
            }
            Some(false)
        } else {
            proof {
                assert(s@ != seq!['t', 'r', 'u', 'e']);
                assert(s@ != seq!['f', 'a', 'l', 's', 'e']);
            }
            None
        }
    }
}

} // verus!
