use vstd::prelude::*;

use vstd::bytes::{spec_u64_to_le_bytes, u64_to_le_bytes};

use crate::identity::Identity;

verus! {

/// Domain tag that opens every settlement attestation: the ASCII bytes of
/// "settle". It keeps oracle attestations from ever colliding with ask
/// messages.
pub open spec fn settle_tag() -> Seq<u8> {
    seq![115u8, 101u8, 116u8, 116u8, 108u8, 101u8]
}

/// Canonical bytes a seller signs to publish an ask: every trade parameter in
/// a fixed-width little-endian layout, so distinct parameter tuples yield
/// distinct messages.
pub open spec fn spec_ask_message(
    asset_id: u64,
    seller: Identity,
    amount: u64,
    deadline: i64,
    nonce: u64,
) -> Seq<u8> {
    spec_u64_to_le_bytes(asset_id) + seller@ + spec_u64_to_le_bytes(amount)
        + spec_u64_to_le_bytes(deadline as u64) + spec_u64_to_le_bytes(nonce)
}

/// Canonical bytes each oracle signs to attest a settlement: the settle tag,
/// the asset, the buyer, and the remaining components of the escrow's
/// deterministic address (seller and creation nonce).
pub open spec fn spec_settlement_message(
    asset_id: u64,
    buyer: Identity,
    seller: Identity,
    nonce: u64,
) -> Seq<u8> {
    settle_tag() + spec_u64_to_le_bytes(asset_id) + buyer@ + seller@ + spec_u64_to_le_bytes(nonce)
}

/// The ask encoding binds a signature to the exact trade parameters: two
/// parameter tuples give the same canonical bytes only if they are the same
/// tuple, so a seller's signature over one ask can never authorize another.
/// (Deadlines are absolute Unix times, hence never negative here.)
pub proof fn lemma_ask_message_binds_parameters(
    asset_id1: u64,
    seller1: Identity,
    amount1: u64,
    deadline1: i64,
    nonce1: u64,
    asset_id2: u64,
    seller2: Identity,
    amount2: u64,
    deadline2: i64,
    nonce2: u64,
)
    requires
        0 <= deadline1,
        0 <= deadline2,
        spec_ask_message(asset_id1, seller1, amount1, deadline1, nonce1) == spec_ask_message(
            asset_id2,
            seller2,
            amount2,
            deadline2,
            nonce2,
        ),
    ensures
        asset_id1 == asset_id2,
        seller1 == seller2,
        amount1 == amount2,
        deadline1 == deadline2,
        nonce1 == nonce2,
{
    vstd::bytes::lemma_auto_spec_u64_to_from_le_bytes();
    let m1 = spec_ask_message(asset_id1, seller1, amount1, deadline1, nonce1);
    let m2 = spec_ask_message(asset_id2, seller2, amount2, deadline2, nonce2);
    assert(spec_u64_to_le_bytes(asset_id1) =~= m1.subrange(0, 8));
    assert(spec_u64_to_le_bytes(asset_id2) =~= m2.subrange(0, 8));
    assert(seller1@ =~= m1.subrange(8, 40));
    assert(seller2@ =~= m2.subrange(8, 40));
    assert(spec_u64_to_le_bytes(amount1) =~= m1.subrange(40, 48));
    assert(spec_u64_to_le_bytes(amount2) =~= m2.subrange(40, 48));
    assert(spec_u64_to_le_bytes(deadline1 as u64) =~= m1.subrange(48, 56));
    assert(spec_u64_to_le_bytes(deadline2 as u64) =~= m2.subrange(48, 56));
    assert(spec_u64_to_le_bytes(nonce1) =~= m1.subrange(56, 64));
    assert(spec_u64_to_le_bytes(nonce2) =~= m2.subrange(56, 64));
    assert(seller1.bytes =~= seller2.bytes);
}

/// The settlement encoding binds an oracle's attestation to one escrow: the
/// same canonical bytes only ever name the same asset, buyer, seller and
/// creation nonce — the components the escrow's address is derived from.
pub proof fn lemma_settlement_message_binds_escrow(
    asset_id1: u64,
    buyer1: Identity,
    seller1: Identity,
    nonce1: u64,
    asset_id2: u64,
    buyer2: Identity,
    seller2: Identity,
    nonce2: u64,
)
    requires
        spec_settlement_message(asset_id1, buyer1, seller1, nonce1) == spec_settlement_message(
            asset_id2,
            buyer2,
            seller2,
            nonce2,
        ),
    ensures
        asset_id1 == asset_id2,
        buyer1 == buyer2,
        seller1 == seller2,
        nonce1 == nonce2,
{
    vstd::bytes::lemma_auto_spec_u64_to_from_le_bytes();
    let m1 = spec_settlement_message(asset_id1, buyer1, seller1, nonce1);
    let m2 = spec_settlement_message(asset_id2, buyer2, seller2, nonce2);
    assert(spec_u64_to_le_bytes(asset_id1) =~= m1.subrange(6, 14));
    assert(spec_u64_to_le_bytes(asset_id2) =~= m2.subrange(6, 14));
    assert(buyer1@ =~= m1.subrange(14, 46));
    assert(buyer2@ =~= m2.subrange(14, 46));
    assert(seller1@ =~= m1.subrange(46, 78));
    assert(seller2@ =~= m2.subrange(46, 78));
    assert(spec_u64_to_le_bytes(nonce1) =~= m1.subrange(78, 86));
    assert(spec_u64_to_le_bytes(nonce2) =~= m2.subrange(78, 86));
    assert(buyer1.bytes =~= buyer2.bytes);
    assert(seller1.bytes =~= seller2.bytes);
}

fn push_identity(out: &mut Vec<u8>, id: &Identity)
    ensures
        final(out)@ == old(out)@ + id@,
{
    let mut i: usize = 0;
    while i < 32
        invariant
            0 <= i <= 32,
            out@ == old(out)@ + id@.subrange(0, i as int),
        decreases 32 - i,
    {
        let b = id.bytes[i];
        out.push(b);
        proof {
            assert(old(out)@ + id@.subrange(0, i + 1) =~= (old(out)@ + id@.subrange(0, i as int)).push(
                id@[i as int],
            ));
        }
        i = i + 1;
    }
    proof {
        assert(id@.subrange(0, 32) =~= id@);
    }
}

pub fn ask_message(asset_id: u64, seller: &Identity, amount: u64, deadline: i64, nonce: u64) -> (r:
    Vec<u8>)
    ensures
        r@ == spec_ask_message(asset_id, *seller, amount, deadline, nonce),
{
    let mut m: Vec<u8> = u64_to_le_bytes(asset_id);
    push_identity(&mut m, seller);
    let mut part = u64_to_le_bytes(amount);
    m.append(&mut part);
    let mut part = u64_to_le_bytes(deadline as u64);
    m.append(&mut part);
    let mut part = u64_to_le_bytes(nonce);
    m.append(&mut part);
    m
}

pub fn settlement_message(asset_id: u64, buyer: &Identity, seller: &Identity, nonce: u64) -> (r:
    Vec<u8>)
    ensures
        r@ == spec_settlement_message(asset_id, *buyer, *seller, nonce),
{
    let mut m: Vec<u8> = Vec::new();
    m.push(115u8);
    m.push(101u8);
    m.push(116u8);
    m.push(116u8);
    m.push(108u8);
    m.push(101u8);
    proof {
        assert(m@ =~= settle_tag());
    }
    let mut part = u64_to_le_bytes(asset_id);
    m.append(&mut part);
    push_identity(&mut m, buyer);
    push_identity(&mut m, seller);
    let mut part = u64_to_le_bytes(nonce);
    m.append(&mut part);
    m
}

} // verus!
