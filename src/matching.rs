//! Matching file contents against signatures.

use vstd::prelude::*;
use crate::model::{ThreatSignature, SignatureModel, signature_models};

verus! {

/// `needle` stands in `hay` from index `i` on.
pub open spec fn occurs_at(hay: Seq<u8>, needle: Seq<u8>, i: int) -> bool {
    0 <= i && i + needle.len() <= hay.len() && hay.subrange(i, i + needle.len()) == needle
}

/// `needle` stands somewhere in `hay`.
pub open spec fn contains(hay: Seq<u8>, needle: Seq<u8>) -> bool {
    exists|i: int| occurs_at(hay, needle, i)
}

/// `i` is where `needle` first stands in `hay`.
pub open spec fn first_occurrence(hay: Seq<u8>, needle: Seq<u8>, i: int) -> bool {
    occurs_at(hay, needle, i) && forall|j: int| 0 <= j < i ==> !occurs_at(hay, needle, j)
}

/// The content holds the signature's pattern.
pub open spec fn signature_matches(content: Seq<u8>, sig: SignatureModel) -> bool {
    contains(content, sig.pattern)
}

/// `k` is the first signature, in order, whose pattern the content holds.
pub open spec fn first_match(content: Seq<u8>, sigs: Seq<SignatureModel>, k: int) -> bool {
    0 <= k < sigs.len() && signature_matches(content, sigs[k]) && forall|j: int|
        0 <= j < k ==> !signature_matches(content, #[trigger] sigs[j])
}

/// No signature's pattern stands in the content.
pub open spec fn no_match(content: Seq<u8>, sigs: Seq<SignatureModel>) -> bool {
    forall|j: int| 0 <= j < sigs.len() ==> !signature_matches(content, #[trigger] sigs[j])
}

/// Relies on memchr::memmem::find: the index of the first occurrence of the
/// needle in the haystack, or none where there is no occurrence.
#[verifier::external_body]
fn find_first(hay: &[u8], needle: &[u8]) -> (r: Option<usize>)
    ensures
        match r {
            Some(i) => first_occurrence(hay@, needle@, i as int),
            None => !contains(hay@, needle@),
        },
{
    memchr::memmem::find(hay, needle)
}

/// The first signature, in order, whose pattern the content holds, with the
/// index where that pattern first stands; none where no pattern stands there.
pub fn match_signatures(content: &[u8], signatures: &Vec<ThreatSignature>) -> (r: Option<(usize, usize)>)
    ensures
        match r {
            Some((k, offset)) => first_match(content@, signature_models(signatures@), k as int)
                && first_occurrence(content@, signatures@[k as int].pattern@, offset as int),
            None => no_match(content@, signature_models(signatures@)),
        },
{
    let ghost models = signature_models(signatures@);
    let mut k: usize = 0;
    while k < signatures.len()
        invariant
            k <= signatures@.len(),
            models == signature_models(signatures@),
            forall|j: int| 0 <= j < k ==> !signature_matches(content@, #[trigger] models[j]),
        decreases signatures@.len() - k,
    {
        match find_first(content, signatures[k].pattern.as_slice()) {
            Some(offset) => {
                assert(signature_matches(content@, models[k as int]));
                return Some((k, offset));
            },
            None => {},
        }
        k = k + 1;
    }
    None
}

/// At most one signature is the first to match.
pub proof fn lemma_first_match_unique(content: Seq<u8>, sigs: Seq<SignatureModel>, k1: int, k2: int)
    requires
        first_match(content, sigs, k1),
        first_match(content, sigs, k2),
    ensures
        k1 == k2,
{
    if k1 < k2 {
        assert(!signature_matches(content, sigs[k1]));
    } else if k2 < k1 {
        assert(!signature_matches(content, sigs[k2]));
    }
}

/// A needle has at most one first occurrence.
pub proof fn lemma_first_occurrence_unique(hay: Seq<u8>, needle: Seq<u8>, i1: int, i2: int)
    requires
        first_occurrence(hay, needle, i1),
        first_occurrence(hay, needle, i2),
    ensures
        i1 == i2,
{
}

} // verus!
