//! Case normalization for email addresses: lookups and the uniqueness rule of
//! the user store treat addresses that differ only in ASCII letter case as
//! the same address.

use vstd::prelude::*;
use vstd::string::StrSliceExecFns;

verus! {

/// The normalized form of one character: an ASCII uppercase letter maps to
/// its lowercase counterpart; every other character is unchanged.
pub open spec fn lower_char(c: char) -> char {
    if 65 <= c as u32 && c as u32 <= 90 {
        ((c as u32 + 32) as u8) as char
    } else {
        c
    }
}

/// The case-normalized form of an email address.
pub open spec fn email_norm(s: Seq<char>) -> Seq<char> {
    s.map_values(|c: char| lower_char(c))
}

/// A sequence already in normalized form stays fixed under normalization.
pub open spec fn is_normalized(s: Seq<char>) -> bool {
    email_norm(s) == s
}

/// Relies on String::push: appends the given character to the end of the
/// string.
#[verifier::external_body]
fn push_char(s: &mut String, c: char)
    ensures
        final(s)@ == old(s)@.push(c),
{
    s.push(c);
}

fn lower_char_exec(c: char) -> (r: char)
    ensures
        r == lower_char(c),
{
    let u = c as u32;
    if 65 <= u && u <= 90 {
        ((u + 32) as u8) as char
    } else {
        c
    }
}

/// Returns the case-normalized copy of `s`.
pub fn normalize_email(s: &str) -> (r: String)
    ensures
        r@ == email_norm(s@),
{
    let n = s.unicode_len();
    let mut out = String::new();
    let mut i: usize = 0;
    while i < n
        invariant
            i <= n,
            n == s@.len(),
            out@ == email_norm(s@.subrange(0, i as int)),
        decreases n - i,
    {
        let c = s.get_char(i);
        let lc = lower_char_exec(c);
        push_char(&mut out, lc);
        proof {
            assert(s@.subrange(0, i + 1 as int) =~= s@.subrange(0, i as int).push(s@[i as int]));
            assert(email_norm(s@.subrange(0, i + 1 as int)) =~= email_norm(
                s@.subrange(0, i as int),
            ).push(lower_char(s@[i as int])));
        }
        i += 1;
    }
    proof {
        assert(s@.subrange(0, n as int) =~= s@);
    }
    out
}

/// Normalization is idempotent: the normalized form is itself normalized.
pub proof fn lemma_norm_idempotent(s: Seq<char>)
    ensures
        is_normalized(email_norm(s)),
{
    assert(email_norm(email_norm(s)) =~= email_norm(s)) by {
        assert forall|i: int| 0 <= i < s.len() implies lower_char(lower_char(s[i])) == lower_char(
            s[i],
        ) by {}
    }
}

} // verus!
