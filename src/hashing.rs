use sha3::{Digest, Keccak256};
use crate::address::{deposit_address, Network};
use vstd::prelude::*;
use vstd::slice::slice_to_vec;
use vstd::utf8::encode_utf8;

verus! {

/// The Keccak-256 digest of a byte sequence.
pub uninterp spec fn keccak256_of(data: Seq<u8>) -> Seq<u8>;

/// Relies on sha3's `Keccak256::digest`: the 32-byte Keccak-256 digest of `data`.
#[verifier::external_body]
fn keccak256(data: &[u8]) -> (r: Vec<u8>)
    ensures
        r@ == keccak256_of(data@),
        r@.len() == 32,
{
    Keccak256::digest(data).to_vec()
}

/// The selector hash: the UTF-8 bytes of the selector, unchanged.
pub open spec fn s_hash_spec(selector: Seq<char>) -> Seq<u8> {
    encode_utf8(selector)
}

/// The payload hash: the Keccak-256 digest of the payload.
pub open spec fn p_hash_spec(payload: Seq<u8>) -> Seq<u8> {
    keccak256_of(payload)
}

/// The gateway hash: the Keccak-256 digest of `p_hash ++ s_hash ++ to ++ nonce`,
/// with no separators and no length prefixes.
pub open spec fn g_hash_spec(p_hash: Seq<u8>, s_hash: Seq<u8>, to: Seq<u8>, nonce: Seq<u8>) -> Seq<
    u8,
> {
    keccak256_of(p_hash + s_hash + to + nonce)
}

/// The gateway hash of a whole deposit request.
pub open spec fn deposit_g_hash_spec(
    selector: Seq<char>,
    payload: Seq<u8>,
    to: Seq<u8>,
    nonce: Seq<u8>,
) -> Seq<u8> {
    g_hash_spec(p_hash_spec(payload), s_hash_spec(selector), to, nonce)
}

/// Appends `src` to `dst`.
fn append_bytes(dst: &mut Vec<u8>, src: &[u8])
    requires
        old(dst)@.len() + src@.len() <= usize::MAX,
    ensures
        final(dst)@ == old(dst)@ + src@,
{
    let ghost start = dst@;
    let mut i: usize = 0;
    while i < src.len()
        invariant
            i <= src@.len(),
            start.len() + src@.len() <= usize::MAX,
            dst@ == start + src@.subrange(0, i as int),
        decreases src@.len() - i,
    {
        dst.push(src[i]);
        i = i + 1;
        assert(src@.subrange(0, i as int) == src@.subrange(0, i - 1 as int).push(src@[i - 1]));
    }
    assert(src@.subrange(0, src@.len() as int) == src@);
}

/// Selector hash: the selector's bytes, as they are.
pub fn compute_s_hash(selector: String) -> (r: Vec<u8>)
    ensures
        r@ == s_hash_spec(selector@),
{
    slice_to_vec(selector.as_str().as_bytes())
}

/// Payload hash: the Keccak-256 digest of the payload. It does not fail.
pub fn compute_p_hash(payload: &[u8]) -> (r: Result<Vec<u8>, &'static str>)
    ensures
        r matches Ok(h) && h@ == p_hash_spec(payload@) && h@.len() == 32,
{
    Ok(keccak256(payload))
}

/// Gateway hash: the Keccak-256 digest of the four inputs joined in this order.
/// It does not fail.
pub fn compute_g_hash(p_hash: &[u8], s_hash: &[u8], to: &[u8], nonce: &[u8]) -> (r: Result<
    Vec<u8>,
    &'static str,
>)
    requires
        p_hash@.len() + s_hash@.len() + to@.len() + nonce@.len() <= usize::MAX,
    ensures
        r matches Ok(h) && h@ == g_hash_spec(p_hash@, s_hash@, to@, nonce@) && h@.len() == 32,
{
    let mut joined: Vec<u8> = Vec::new();
    append_bytes(&mut joined, p_hash);
    append_bytes(&mut joined, s_hash);
    append_bytes(&mut joined, to);
    append_bytes(&mut joined, nonce);
    Ok(keccak256(joined.as_slice()))
}

/// The whole hashing pipeline: hashes the selector and the payload, then
/// derives the gateway hash from them, `to` and `nonce`.
pub fn deposit_g_hash(selector: String, payload: &[u8], to: &[u8], nonce: &[u8]) -> (r: Result<
    Vec<u8>,
    &'static str,
>)
    requires
        32 + encode_utf8(selector@).len() + to@.len() + nonce@.len() <= usize::MAX,
    ensures
        r matches Ok(h) && h@ == deposit_g_hash_spec(selector@, payload@, to@, nonce@),
{
    let s_hash = compute_s_hash(selector);
    let p_hash = match compute_p_hash(payload) {
        Ok(h) => h,
        Err(e) => {
            return Err(e);
        },
    };
    compute_g_hash(p_hash.as_slice(), s_hash.as_slice(), to, nonce)
}

/// Determinism: equal requests give equal gateway hashes, and equal operands give
/// equal deposit addresses on a network.
pub proof fn lemma_deposit_deterministic(
    selector: Seq<char>,
    payload: Seq<u8>,
    to: Seq<u8>,
    nonce: Seq<u8>,
    g_pubkey_hash: Seq<u8>,
    network: Network,
    selector2: Seq<char>,
    payload2: Seq<u8>,
    to2: Seq<u8>,
    nonce2: Seq<u8>,
    g_pubkey_hash2: Seq<u8>,
)
    requires
        selector == selector2,
        payload == payload2,
        to == to2,
        nonce == nonce2,
        g_pubkey_hash == g_pubkey_hash2,
    ensures
        deposit_g_hash_spec(selector, payload, to, nonce) == deposit_g_hash_spec(
            selector2,
            payload2,
            to2,
            nonce2,
        ),
        deposit_address(network, deposit_g_hash_spec(selector, payload, to, nonce), g_pubkey_hash)
            == deposit_address(
            network,
            deposit_g_hash_spec(selector2, payload2, to2, nonce2),
            g_pubkey_hash2,
        ),
{
}

} // verus!
