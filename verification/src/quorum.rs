use vstd::prelude::*;

use crate::config::Config;
use crate::crypto::{signature_accepted, verify_signature};
use crate::identity::{Identity, Signature};

verus! {

/// Whether one submitted signature is an acceptable attestation by one
/// oracle key over the settlement message.
pub open spec fn sig_matches_key(key: Identity, message: Seq<u8>, sig: Signature) -> bool {
    signature_accepted(key@, message, sig@)
}

/// Which of the three oracle keys stand credited after one more signature is
/// processed: the signature credits the first matching key that is not yet
/// credited, so one key can never be credited twice.
pub open spec fn credit_one(
    c: (bool, bool, bool),
    m0: bool,
    m1: bool,
    m2: bool,
) -> (bool, bool, bool) {
    if m0 && !c.0 {
        (true, c.1, c.2)
    } else if m1 && !c.1 {
        (c.0, true, c.2)
    } else if m2 && !c.2 {
        (c.0, c.1, true)
    } else {
        c
    }
}

/// Which oracle keys stand credited after the first `n` submitted signatures.
pub open spec fn credited_after(
    keys: [Identity; 3],
    message: Seq<u8>,
    sigs: Seq<Signature>,
    n: int,
) -> (bool, bool, bool)
    decreases n,
{
    if n <= 0 {
        (false, false, false)
    } else {
        credit_one(
            credited_after(keys, message, sigs, n - 1),
            sig_matches_key(keys[0], message, sigs[n - 1]),
            sig_matches_key(keys[1], message, sigs[n - 1]),
            sig_matches_key(keys[2], message, sigs[n - 1]),
        )
    }
}

pub open spec fn count_credited(c: (bool, bool, bool)) -> int {
    (if c.0 {
        1int
    } else {
        0int
    }) + (if c.1 {
        1int
    } else {
        0int
    }) + (if c.2 {
        1int
    } else {
        0int
    })
}

/// How many distinct oracle keys a list of submitted signatures credits.
/// Duplicate submissions for one key add nothing.
pub open spec fn quorum_count(keys: [Identity; 3], message: Seq<u8>, sigs: Seq<Signature>) -> int {
    count_credited(credited_after(keys, message, sigs, sigs.len() as int))
}

/// Count the distinct oracle keys credited by `sigs` over `message`, against
/// the configured oracle set.
pub fn count_distinct_oracle_signatures(config: &Config, message: &Vec<u8>, sigs: &Vec<Signature>)
    -> (r: usize)
    ensures
        r == quorum_count(config.oracle_pubkeys, message@, sigs@),
        r <= 3,
{
    let mut c0 = false;
    let mut c1 = false;
    let mut c2 = false;
    let mut i: usize = 0;
    while i < sigs.len()
        invariant
            0 <= i <= sigs@.len(),
            (c0, c1, c2) == credited_after(config.oracle_pubkeys, message@, sigs@, i as int),
        decreases sigs@.len() - i,
    {
        let s = sigs[i];
        let m0 = verify_signature(&s, message, &config.oracle_pubkeys[0]);
        let m1 = verify_signature(&s, message, &config.oracle_pubkeys[1]);
        let m2 = verify_signature(&s, message, &config.oracle_pubkeys[2]);
        if m0 && !c0 {
            c0 = true;
        } else if m1 && !c1 {
            c1 = true;
        } else if m2 && !c2 {
            c2 = true;
        }
        i = i + 1;
    }
    let mut count: usize = 0;
    if c0 {
        count = count + 1;
    }
    if c1 {
        count = count + 1;
    }
    if c2 {
        count = count + 1;
    }
    count
}

/// No double credit: a list of signatures can never credit more distinct
/// oracle keys than there are signatures in it, nor more than the three
/// configured keys.
pub proof fn lemma_no_double_credit(keys: [Identity; 3], message: Seq<u8>, sigs: Seq<Signature>)
    ensures
        0 <= quorum_count(keys, message, sigs) <= sigs.len(),
        quorum_count(keys, message, sigs) <= 3,
{
    lemma_count_bounded(keys, message, sigs, sigs.len() as int);
}

proof fn lemma_count_bounded(keys: [Identity; 3], message: Seq<u8>, sigs: Seq<Signature>, n: int)
    requires
        n <= sigs.len(),
    ensures
        0 <= count_credited(credited_after(keys, message, sigs, n)) <= if n >= 0 {
            n
        } else {
            0
        },
        count_credited(credited_after(keys, message, sigs, n)) <= 3,
    decreases n,
{
    if n > 0 {
        lemma_count_bounded(keys, message, sigs, n - 1);
    }
}

/// An oracle key is credited only for cause: each credited key has at least
/// one submitted signature that is a valid attestation by that key. So a
/// quorum of 2 really was attested by 2 distinct oracle keys.
pub proof fn lemma_credited_implies_match(
    keys: [Identity; 3],
    message: Seq<u8>,
    sigs: Seq<Signature>,
)
    ensures
        credited_after(keys, message, sigs, sigs.len() as int).0 ==> exists|k: int|
            0 <= k < sigs.len() && sig_matches_key(keys[0], message, sigs[k]),
        credited_after(keys, message, sigs, sigs.len() as int).1 ==> exists|k: int|
            0 <= k < sigs.len() && sig_matches_key(keys[1], message, sigs[k]),
        credited_after(keys, message, sigs, sigs.len() as int).2 ==> exists|k: int|
            0 <= k < sigs.len() && sig_matches_key(keys[2], message, sigs[k]),
{
    lemma_credited_implies_match_upto(keys, message, sigs, sigs.len() as int);
}

proof fn lemma_credited_implies_match_upto(
    keys: [Identity; 3],
    message: Seq<u8>,
    sigs: Seq<Signature>,
    n: int,
)
    requires
        n <= sigs.len(),
    ensures
        credited_after(keys, message, sigs, n).0 ==> exists|k: int|
            0 <= k < n && sig_matches_key(keys[0], message, sigs[k]),
        credited_after(keys, message, sigs, n).1 ==> exists|k: int|
            0 <= k < n && sig_matches_key(keys[1], message, sigs[k]),
        credited_after(keys, message, sigs, n).2 ==> exists|k: int|
            0 <= k < n && sig_matches_key(keys[2], message, sigs[k]),
    decreases n,
{
    if n > 0 {
        lemma_credited_implies_match_upto(keys, message, sigs, n - 1);
    }
}

/// Duplicate resubmission cannot reach quorum: if every submitted signature
/// attests for no oracle key other than key `i` — as with any number of
/// copies of one oracle's signature — at most that one key is credited, and
/// the 2-of-3 threshold stays out of reach.
pub proof fn lemma_duplicates_cannot_reach_quorum(
    keys: [Identity; 3],
    message: Seq<u8>,
    sigs: Seq<Signature>,
    i: int,
)
    requires
        0 <= i < 3,
        forall|k: int, j: int|
            0 <= k < sigs.len() && 0 <= j < 3 && j != i ==> !sig_matches_key(
                keys[j],
                message,
                sigs[k],
            ),
    ensures
        quorum_count(keys, message, sigs) <= 1,
{
    lemma_duplicates_upto(keys, message, sigs, i, sigs.len() as int);
}

proof fn lemma_duplicates_upto(
    keys: [Identity; 3],
    message: Seq<u8>,
    sigs: Seq<Signature>,
    i: int,
    n: int,
)
    requires
        0 <= i < 3,
        n <= sigs.len(),
        forall|k: int, j: int|
            0 <= k < sigs.len() && 0 <= j < 3 && j != i ==> !sig_matches_key(
                keys[j],
                message,
                sigs[k],
            ),
    ensures
        count_credited(credited_after(keys, message, sigs, n)) <= 1,
        i != 0 ==> !credited_after(keys, message, sigs, n).0,
        i != 1 ==> !credited_after(keys, message, sigs, n).1,
        i != 2 ==> !credited_after(keys, message, sigs, n).2,
    decreases n,
{
    if n > 0 {
        lemma_duplicates_upto(keys, message, sigs, i, n - 1);
        assert(0 <= n - 1 < sigs.len());
        assert(forall|j: int| 0 <= j < 3 && j != i ==> !sig_matches_key(
            keys[j],
            message,
            sigs[n - 1],
        ));
    }
}

} // verus!
