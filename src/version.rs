use vstd::prelude::*;
use crate::text::{all_white_space, lemma_trimmed_padded, lower_of, lowercase, trim, trimmed};

verus! {

/// The form in which a hash is stored and compared: trimmed, then lowercased.
pub open spec fn normal_form(hash: Seq<char>) -> Seq<char> {
    lower_of(trimmed(hash))
}

/// Two hashes are the same when their normal forms are equal.
pub open spec fn same_hash(first: Seq<char>, second: Seq<char>) -> bool {
    normal_form(first) == normal_form(second)
}

/// Lower-cases and trims a hash.
pub fn normalize_hash(hash: &str) -> (r: String)
    ensures
        r@ == normal_form(hash@),
{
    lowercase(trim(hash))
}

/// Compares two hashes, ignoring case and surrounding white space.
pub fn compare_hashes(first: &str, second: &str) -> (r: bool)
    ensures
        r == same_hash(first@, second@),
{
    let first = normalize_hash(first);
    let second = normalize_hash(second);
    first == second
}

/// White space around either hash never changes the outcome of a comparison.
pub proof fn lemma_compare_ignores_padding(
    first: Seq<char>,
    second: Seq<char>,
    p: Seq<char>,
    q: Seq<char>,
)
    requires
        all_white_space(p),
        all_white_space(q),
    ensures
        same_hash(p + first + q, second) == same_hash(first, second),
        same_hash(first, p + second + q) == same_hash(first, second),
{
    lemma_trimmed_padded(p, first, q);
    lemma_trimmed_padded(p, second, q);
}

/// A comparison of hashes is reflexive and symmetric.
pub proof fn lemma_compare_equivalence(first: Seq<char>, second: Seq<char>)
    ensures
        same_hash(first, first),
        same_hash(first, second) == same_hash(second, first),
{
}

} // verus!
