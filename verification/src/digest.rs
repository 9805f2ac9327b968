use vstd::prelude::*;
use crate::page::opt_view;

verus! {

/// The content fingerprint: what `md5::compute` returns for the UTF-8 bytes
/// of a text, a function of the text alone.
pub uninterp spec fn md5_of(s: Seq<char>) -> Seq<u8>;

/// Relies on `md5::compute`: the 16-byte digest of the input bytes, a
/// deterministic function of the input alone.
#[verifier::external_body]
fn content_digest(s: &str) -> (r: Vec<u8>)
    ensures
        r@ == md5_of(s@),
        r@.len() == 16,
{
    md5::compute(s.as_bytes()).0.to_vec()
}

/// Whether two byte strings are equal.
fn bytes_equal(a: &Vec<u8>, b: &Vec<u8>) -> (r: bool)
    ensures
        r == (a@ == b@),
{
    if a.len() != b.len() {
        return false;
    }
    let mut i: usize = 0;
    while i < a.len()
        invariant
            i <= a@.len(),
            a@.len() == b@.len(),
            forall|j: int| 0 <= j < i ==> a@[j] == b@[j],
        decreases a@.len() - i,
    {
        if a[i] != b[i] {
            return false;
        }
        i += 1;
    }
    proof {
        assert(a@ =~= b@);
    }
    true
}

/// Whether an update's content differs from what is stored: false where the
/// update supplies none (content is never deleted by omission), true where
/// it supplies content and nothing is stored, and a fingerprint comparison
/// where both exist.
pub open spec fn content_changed(
    stored: Option<Seq<char>>,
    supplied: Option<Seq<char>>,
) -> bool {
    match supplied {
        Option::Some(new) => match stored {
            Option::Some(prior) => md5_of(new) != md5_of(prior),
            Option::None => true,
        },
        Option::None => false,
    }
}

/// The stored content after an upsert: the supplied content where the
/// fingerprints differ (or nothing was stored), the stored one otherwise.
pub open spec fn next_content(
    stored: Option<Seq<char>>,
    supplied: Option<Seq<char>>,
) -> Option<Seq<char>> {
    if content_changed(stored, supplied) {
        supplied
    } else {
        stored
    }
}

/// Decide whether the supplied content differs from the stored one, by
/// fingerprint.
pub fn detect_content_change(stored: &Option<String>, supplied: &Option<String>) -> (r: bool)
    ensures
        r == content_changed(opt_view(*stored), opt_view(*supplied)),
{
    match supplied {
        Some(new) => match stored {
            Some(prior) => {
                let new_digest = content_digest(new.as_str());
                let prior_digest = content_digest(prior.as_str());
                !bytes_equal(&new_digest, &prior_digest)
            },
            None => true,
        },
        None => false,
    }
}

} // verus!
