//! Derivation of an environment-variable name from a field identifier
//! and an optional structure-level prefix.
//!
//! The derived name is the upper-cased field identifier, preceded by
//! `PREFIX` and an underscore when a prefix is configured.  Only ASCII
//! case folding is applied: field identifiers are assumed to already be
//! snake-style, and every non-lowercase-ASCII character passes through
//! unchanged.

use vstd::prelude::*;
use vstd::string::StrSliceExecFns;
use vstd::string::StringExecFns;

verus! {

/// ASCII upper-casing of one character: `'a'..='z'` fold to
/// `'A'..='Z'`, every other character is unchanged.
pub open spec fn spec_upper_char(c: char) -> char {
    if 'a' <= c && c <= 'z' {
        ((c as u32 - 32) as u8) as char
    } else {
        c
    }
}

/// ASCII upper-casing of a character sequence, character by character.
pub open spec fn spec_upper(s: Seq<char>) -> Seq<char> {
    s.map_values(|c: char| spec_upper_char(c))
}

/// The derived environment-variable name: `prefix + "_" + upper(field)`
/// when a prefix is configured, else `upper(field)`.
pub open spec fn spec_derived_name(prefix: Option<Seq<char>>, field: Seq<char>) -> Seq<char> {
    match prefix {
        Some(p) => p + seq!['_'] + spec_upper(field),
        None => spec_upper(field),
    }
}

/// Relies on String::push: appends exactly the given character at the
/// end of the string.
#[verifier::external_body]
fn push_char(s: &mut String, c: char)
    ensures
        final(s)@ == old(s)@.push(c),
{
    s.push(c);
}

fn upper_char(c: char) -> (r: char)
    ensures
        r == spec_upper_char(c),
{
    let u = c as u32;
    if 97 <= u && u <= 122 {
        ((u - 32) as u8) as char
    } else {
        c
    }
}

proof fn lemma_upper_snoc(s: Seq<char>, i: int)
    requires
        0 <= i < s.len(),
    ensures
        spec_upper(s.take(i + 1)) == spec_upper(s.take(i)).push(spec_upper_char(s[i])),
{
    assert(spec_upper(s.take(i + 1)) =~= spec_upper(s.take(i)).push(spec_upper_char(s[i])));
}

/// Derive the environment-variable name of one field.
///
/// Name derivation is pure, deterministic and total: for every prefix
/// and field identifier the result is exactly
/// `prefix + "_" + upper(field)` when a prefix is configured, and
/// `upper(field)` otherwise, where `upper` is per-character ASCII case
/// folding.
pub fn derive_env_var_name(prefix: Option<&str>, field_name: &str) -> (r: String)
    ensures
        r@ == spec_derived_name(
            match prefix {
                Some(p) => Some(p@),
                None => None,
            },
            field_name@,
        ),
{
    let ghost prefix_view: Option<Seq<char>> = match prefix {
        Some(p) => Some(p@),
        None => None,
    };
    let mut out = String::new();
    match prefix {
        Some(p) => {
            out.append(p);
            out.append("_");
            proof {
                reveal_strlit("_");
                assert("_"@ =~= seq!['_']);
            }
        },
        None => {},
    }
    let ghost base: Seq<char> = out@;
    proof {
        assert(spec_upper(field_name@.take(0)) =~= Seq::<char>::empty());
        assert(base + spec_upper(field_name@.take(0)) =~= base);
    }
    let n = field_name.unicode_len();
    let mut i: usize = 0;
    while i < n
        invariant
            i <= n,
            n == field_name@.len(),
            out@ == base + spec_upper(field_name@.take(i as int)),
        decreases n - i,
    {
        let c = field_name.get_char(i);
        let u = upper_char(c);
        push_char(&mut out, u);
        proof {
            lemma_upper_snoc(field_name@, i as int);
            assert(base + spec_upper(field_name@.take(i as int)) + seq![
                spec_upper_char(field_name@[i as int]),
            ] =~= base + spec_upper(field_name@.take(i + 1)));
            assert(out@ =~= base + spec_upper(field_name@.take(i + 1)));
        }
        i = i + 1;
    }
    proof {
        assert(field_name@.take(n as int) =~= field_name@);
        assert(out@ =~= spec_derived_name(prefix_view, field_name@));
    }
    out
}

} // verus!
