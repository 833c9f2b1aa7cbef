//! Canonical cache keys for encoding names.
use vstd::prelude::*;

use crate::text::push_char;

verus! {

/// A character that starts the folded part of a name: a space or an ASCII capital.
pub open spec fn is_fold_trigger(c: char) -> bool {
    c == ' ' || ('A' <= c && c <= 'Z')
}

/// A space becomes a hyphen, an ASCII capital its lowercase letter; all else stays.
pub open spec fn fold_char(c: char) -> char {
    if c == ' ' {
        '-'
    } else if 'A' <= c && c <= 'Z' {
        (((c as u32) + 32) as u8) as char
    } else {
        c
    }
}

/// The canonical form of a name. Characters before the first trigger are not
/// triggers, and folding leaves those alone, so folding the suffix from the
/// first trigger on is folding every character.
pub open spec fn normalize(s: Seq<char>) -> Seq<char> {
    s.map_values(|c: char| fold_char(c))
}

fn fold(c: char) -> (r: char)
    ensures
        r == fold_char(c),
{
    if c == ' ' {
        '-'
    } else if 'A' <= c && c <= 'Z' {
        ((c as u8) + 32) as char
    } else {
        c
    }
}

/// The cache key for `encoding`: from the first space or ASCII capital on,
/// spaces become hyphens and ASCII capitals are lowered; what comes before
/// is copied as it is.
pub fn normalize_encoding_name(encoding: &str) -> (r: String)
    ensures
        r@ == normalize(encoding@),
{
    let n: usize = encoding.unicode_len();
    let mut out = String::new();
    let mut folding = false;
    let mut i: usize = 0;
    while i < n
        invariant
            n == encoding@.len(),
            i <= n,
            out@ == normalize(encoding@.subrange(0, i as int)),
            folding ==> exists|j: int| 0 <= j < i && is_fold_trigger(encoding@[j]),
        decreases n - i,
    {
        let c = encoding.get_char(i);
        if folding || c == ' ' || ('A' <= c && c <= 'Z') {
            folding = true;
            push_char(&mut out, fold(c));
        } else {
            push_char(&mut out, c);
        }
        proof {
            assert(encoding@.subrange(0, i + 1) =~= encoding@.subrange(0, i as int).push(c));
            assert(normalize(encoding@.subrange(0, i + 1)) =~= normalize(
                encoding@.subrange(0, i as int),
            ).push(fold_char(c)));
        }
        i = i + 1;
    }
    proof {
        assert(encoding@.subrange(0, n as int) =~= encoding@);
    }
    out
}

/// Normalizing twice gives what normalizing once gives.
pub proof fn lemma_normalize_idempotent(s: Seq<char>)
    ensures
        normalize(normalize(s)) == normalize(s),
{
    assert(normalize(normalize(s)) =~= normalize(s));
}

} // verus!
