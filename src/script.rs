use bitcoin::blockdata::opcodes::All;
use bitcoin::blockdata::script::{PushBytes, PushBytesError, Script, ScriptBuf};
use vstd::prelude::*;
use vstd::slice::slice_to_vec;

verus! {

pub const OP_PUSHDATA1: u8 = 0x4c;

pub const OP_PUSHDATA2: u8 = 0x4d;

pub const OP_PUSHDATA4: u8 = 0x4e;

pub const OP_PUSHBYTES_20: u8 = 0x14;

pub const OP_DROP: u8 = 0x75;

pub const OP_DUP: u8 = 0x76;

pub const OP_EQUAL: u8 = 0x87;

pub const OP_EQUALVERIFY: u8 = 0x88;

pub const OP_HASH160: u8 = 0xa9;

pub const OP_CHECKMULTISIG: u8 = 0xae;

/// The largest operand a single push may carry in the target scripting system.
pub const MAX_PUSH_SIZE: usize = 520;

/// Why a derivation failed.
#[derive(Debug, Clone, Copy, PartialEq, Eq)]
pub enum GatewayError {
    /// An operand is too long to be pushed as one item.
    Encoding,
    /// The assembled script is not a pay-to-script-hash script.
    ScriptConstruction,
    /// The address encoder refused the script.
    AddressEncoding,
}

/// One element of a locking script template.
#[derive(Debug, PartialEq, Eq)]
pub enum ScriptElement {
    /// Push a data operand.
    Push(Vec<u8>),
    /// An opcode.
    Op(u8),
}

#[verifier::external_type_specification]
#[verifier::external_body]
pub struct ExPushBytesError(PushBytesError);

/// The opcode bytes that announce a push of `n` bytes.
pub open spec fn push_prefix(n: nat) -> Seq<u8> {
    if n < OP_PUSHDATA1 {
        seq![n as u8]
    } else if n < 0x100 {
        seq![OP_PUSHDATA1, n as u8]
    } else if n < 0x10000 {
        seq![OP_PUSHDATA2, (n % 0x100) as u8, (n / 0x100) as u8]
    } else {
        seq![
            OP_PUSHDATA4,
            (n % 0x100) as u8,
            ((n / 0x100) % 0x100) as u8,
            ((n / 0x10000) % 0x100) as u8,
            (n / 0x1000000) as u8,
        ]
    }
}

/// The bytes of a push of `data`.
pub open spec fn push_encoding(data: Seq<u8>) -> Seq<u8> {
    push_prefix(data.len()) + data
}

/// The bytes of one element, or `None` where its operand is too long.
pub open spec fn element_encoding(e: ScriptElement) -> Option<Seq<u8>> {
    match e {
        ScriptElement::Push(d) => if d@.len() <= MAX_PUSH_SIZE {
            Some(push_encoding(d@))
        } else {
            None
        },
        ScriptElement::Op(o) => Some(seq![o]),
    }
}

/// The bytes of a sequence of elements, or `None` where any operand is too long.
pub open spec fn script_encoding(elems: Seq<ScriptElement>) -> Option<Seq<u8>>
    decreases elems.len(),
{
    if elems.len() == 0 {
        Some(Seq::empty())
    } else {
        match (script_encoding(elems.drop_last()), element_encoding(elems.last())) {
            (Some(a), Some(b)) => Some(a + b),
            _ => None,
        }
    }
}

/// The gateway's redeem script: push(g_hash) DROP DUP HASH160 push(g_pubkey_hash)
/// EQUALVERIFY CHECKMULTISIG.
pub open spec fn redeem_script(g_hash: Seq<u8>, g_pubkey_hash: Seq<u8>) -> Seq<u8> {
    push_encoding(g_hash) + seq![OP_DROP, OP_DUP, OP_HASH160] + push_encoding(g_pubkey_hash)
        + seq![OP_EQUALVERIFY, OP_CHECKMULTISIG]
}

/// The 20-byte HASH160 of a script, as a pay-to-script-hash output commits to it.
pub uninterp spec fn script_hash_of(script: Seq<u8>) -> Seq<u8>;

/// The pay-to-script-hash output script for a redeem script.
pub open spec fn p2sh_script(redeem: Seq<u8>) -> Seq<u8> {
    seq![OP_HASH160, OP_PUSHBYTES_20] + script_hash_of(redeem) + seq![OP_EQUAL]
}

/// Whether a script has the shape of a pay-to-script-hash output.
pub open spec fn is_p2sh_spec(s: Seq<u8>) -> bool {
    s.len() == 23 && s[0] == OP_HASH160 && s[1] == OP_PUSHBYTES_20 && s[22] == OP_EQUAL
}

/// Whether both operands fit in a single push.
pub open spec fn operands_fit(g_hash: Seq<u8>, g_pubkey_hash: Seq<u8>) -> bool {
    g_hash.len() <= MAX_PUSH_SIZE && g_pubkey_hash.len() <= MAX_PUSH_SIZE
}

/// Relies on bitcoin's `<&PushBytes>::try_from`, which refuses 2^32 bytes or more,
/// and `ScriptBuf::push_slice`, which appends the push opcode for the length and then the bytes.
#[verifier::external_body]
fn push_slice(script: &mut Vec<u8>, data: &[u8]) -> (r: Result<(), PushBytesError>)
    ensures
        r.is_ok() == (data@.len() < 0x1_0000_0000),
        r.is_ok() ==> final(script)@ == old(script)@ + push_encoding(data@),
        r.is_err() ==> final(script)@ == old(script)@,
{
    let bytes = <&PushBytes>::try_from(data)?;
    let mut buf = ScriptBuf::from(std::mem::take(script));
    buf.push_slice(bytes);
    *script = buf.into_bytes();
    Ok(())
}

/// Relies on bitcoin's `ScriptBuf::push_opcode`, which appends the opcode's byte.
#[verifier::external_body]
fn push_opcode(script: &mut Vec<u8>, op: u8)
    ensures
        final(script)@ == old(script)@.push(op),
{
    let mut buf = ScriptBuf::from(std::mem::take(script));
    buf.push_opcode(All::from(op));
    *script = buf.into_bytes();
}

/// Relies on bitcoin's `ScriptBuf::to_p2sh`: OP_HASH160, a push of the script's
/// 20-byte hash, OP_EQUAL.
#[verifier::external_body]
fn to_p2sh(script: &[u8]) -> (r: Vec<u8>)
    ensures
        r@.len() == 23 && r@ == seq![OP_HASH160, OP_PUSHBYTES_20] + script_hash_of(script@)
            + seq![OP_EQUAL],
{
    ScriptBuf::from(script.to_vec()).to_p2sh().into_bytes()
}

/// Relies on bitcoin's `Script::is_p2sh`, which tests the length and three bytes.
#[verifier::external_body]
fn is_p2sh(script: &[u8]) -> (r: bool)
    ensures
        r == is_p2sh_spec(script@),
{
    Script::from_bytes(script).is_p2sh()
}

/// Once a prefix of the elements fails to encode, the whole sequence does.
proof fn lemma_encoding_fails_past(elems: Seq<ScriptElement>, i: int)
    requires
        0 <= i <= elems.len(),
        script_encoding(elems.subrange(0, i)) is None,
    ensures
        script_encoding(elems) is None,
    decreases elems.len() - i,
{
    if i < elems.len() {
        let next = elems.subrange(0, i + 1);
        assert(next.drop_last() == elems.subrange(0, i));
        lemma_encoding_fails_past(elems, i + 1);
    } else {
        assert(elems.subrange(0, i) == elems);
    }
}

/// Encodes a sequence of script elements. Fails with `Encoding` where an operand
/// is longer than a single push may be.
pub fn encode_script(elems: &Vec<ScriptElement>) -> (r: Result<Vec<u8>, GatewayError>)
    ensures
        r.is_ok() == script_encoding(elems@) is Some,
        r matches Ok(b) ==> script_encoding(elems@) == Some(b@),
        r matches Err(e) ==> e == GatewayError::Encoding,
{
    let mut out: Vec<u8> = Vec::new();
    let mut i: usize = 0;
    while i < elems.len()
        invariant
            i <= elems@.len(),
            script_encoding(elems@.subrange(0, i as int)) == Some(out@),
        decreases elems@.len() - i,
    {
        let ghost before = out@;
        proof {
            assert(elems@.subrange(0, i + 1 as int).drop_last() == elems@.subrange(0, i as int));
            assert(elems@.subrange(0, i + 1 as int).last() == elems@[i as int]);
        }
        match &elems[i] {
            ScriptElement::Push(d) => {
                if d.len() > MAX_PUSH_SIZE {
                    proof {
                        lemma_encoding_fails_past(elems@, i + 1);
                    }
                    return Err(GatewayError::Encoding);
                }
                match push_slice(&mut out, d.as_slice()) {
                    Ok(()) => {},
                    Err(_) => {
                        return Err(GatewayError::Encoding);
                    },
                }
            },
            ScriptElement::Op(o) => {
                push_opcode(&mut out, *o);
                assert(out@ == before + seq![*o]);
            },
        }
        i = i + 1;
    }
    assert(elems@.subrange(0, elems@.len() as int) == elems@);
    Ok(out)
}

/// The gateway's template: push(g_hash) DROP DUP HASH160 push(g_pubkey_hash)
/// EQUALVERIFY CHECKMULTISIG.
pub fn gateway_template(g_hash: &[u8], g_pubkey_hash: &[u8]) -> (r: Vec<ScriptElement>)
    ensures
        r@.len() == 7,
        r@[0] matches ScriptElement::Push(d) && d@ == g_hash@,
        r@[1] == ScriptElement::Op(OP_DROP),
        r@[2] == ScriptElement::Op(OP_DUP),
        r@[3] == ScriptElement::Op(OP_HASH160),
        r@[4] matches ScriptElement::Push(d) && d@ == g_pubkey_hash@,
        r@[5] == ScriptElement::Op(OP_EQUALVERIFY),
        r@[6] == ScriptElement::Op(OP_CHECKMULTISIG),
        script_encoding(r@) == if operands_fit(g_hash@, g_pubkey_hash@) {
            Some(redeem_script(g_hash@, g_pubkey_hash@))
        } else {
            None::<Seq<u8>>
        },
{
    let mut r: Vec<ScriptElement> = Vec::new();
    r.push(ScriptElement::Push(slice_to_vec(g_hash)));
    r.push(ScriptElement::Op(OP_DROP));
    r.push(ScriptElement::Op(OP_DUP));
    r.push(ScriptElement::Op(OP_HASH160));
    r.push(ScriptElement::Push(slice_to_vec(g_pubkey_hash)));
    r.push(ScriptElement::Op(OP_EQUALVERIFY));
    r.push(ScriptElement::Op(OP_CHECKMULTISIG));
    proof {
        lemma_template_encoding(r@, g_hash@, g_pubkey_hash@);
    }
    r
}

/// The gateway template encodes to the redeem script exactly when both operands
/// fit in a single push.
proof fn lemma_template_encoding(elems: Seq<ScriptElement>, g_hash: Seq<u8>, g_pubkey_hash: Seq<u8>)
    requires
        elems.len() == 7,
        elems[0] matches ScriptElement::Push(d) && d@ == g_hash,
        elems[1] == ScriptElement::Op(OP_DROP),
        elems[2] == ScriptElement::Op(OP_DUP),
        elems[3] == ScriptElement::Op(OP_HASH160),
        elems[4] matches ScriptElement::Push(d) && d@ == g_pubkey_hash,
        elems[5] == ScriptElement::Op(OP_EQUALVERIFY),
        elems[6] == ScriptElement::Op(OP_CHECKMULTISIG),
    ensures
        script_encoding(elems) == if operands_fit(g_hash, g_pubkey_hash) {
            Some(redeem_script(g_hash, g_pubkey_hash))
        } else {
            None::<Seq<u8>>
        },
{
    let e1 = elems.subrange(0, 1);
    let e2 = elems.subrange(0, 2);
    let e3 = elems.subrange(0, 3);
    let e4 = elems.subrange(0, 4);
    let e5 = elems.subrange(0, 5);
    let e6 = elems.subrange(0, 6);
    assert(e1.drop_last() =~= Seq::<ScriptElement>::empty());
    assert(e2.drop_last() == e1);
    assert(e3.drop_last() == e2);
    assert(e4.drop_last() == e3);
    assert(e5.drop_last() == e4);
    assert(e6.drop_last() == e5);
    assert(elems.drop_last() == e6);
    assert(script_encoding(Seq::<ScriptElement>::empty()) == Some(Seq::<u8>::empty()));
    if operands_fit(g_hash, g_pubkey_hash) {
        let a = push_encoding(g_hash);
        let b = push_encoding(g_pubkey_hash);
        assert(Seq::<u8>::empty() + a == a);
        assert(e1.last() == elems[0]);
        assert(e2.last() == elems[1]);
        assert(e3.last() == elems[2]);
        assert(e4.last() == elems[3]);
        assert(e5.last() == elems[4]);
        assert(e6.last() == elems[5]);
        assert(elems.last() == elems[6]);
        assert(script_encoding(e1) == Some(a));
        assert(script_encoding(e2) == Some(a + seq![OP_DROP]));
        assert(script_encoding(e3) == Some(a + seq![OP_DROP] + seq![OP_DUP]));
        assert(script_encoding(e4) == Some(a + seq![OP_DROP] + seq![OP_DUP] + seq![OP_HASH160]));
        assert(script_encoding(e5) == Some(
            a + seq![OP_DROP] + seq![OP_DUP] + seq![OP_HASH160] + b,
        ));
        assert(script_encoding(e6) == Some(
            a + seq![OP_DROP] + seq![OP_DUP] + seq![OP_HASH160] + b + seq![OP_EQUALVERIFY],
        ));
        assert(script_encoding(elems) == Some(
            a + seq![OP_DROP] + seq![OP_DUP] + seq![OP_HASH160] + b + seq![OP_EQUALVERIFY]
                + seq![OP_CHECKMULTISIG],
        ));
        assert(a + seq![OP_DROP] + seq![OP_DUP] + seq![OP_HASH160] + b + seq![OP_EQUALVERIFY]
            + seq![OP_CHECKMULTISIG] =~= redeem_script(g_hash, g_pubkey_hash));
    } else if g_hash.len() > MAX_PUSH_SIZE {
        assert(e1.last() == elems[0]);
        assert(script_encoding(e1) is None);
        lemma_encoding_fails_past(elems, 1);
    } else {
        assert(e5.last() == elems[4]);
        assert(script_encoding(e5) is None);
        lemma_encoding_fails_past(elems, 5);
    }
}

/// Builds the gateway's pay-to-script-hash script: the redeem script
/// push(g_hash) DROP DUP HASH160 push(g_pubkey_hash) EQUALVERIFY CHECKMULTISIG,
/// wrapped as a pay-to-script-hash output. Fails with `Encoding` where an
/// operand is longer than a single push may be.
pub fn gateway_address(g_hash: &[u8], g_pubkey_hash: &[u8]) -> (r: Result<Vec<u8>, GatewayError>)
    ensures
        operands_fit(g_hash@, g_pubkey_hash@) ==> (r matches Ok(s) && s@ == p2sh_script(
            redeem_script(g_hash@, g_pubkey_hash@),
        ) && is_p2sh_spec(s@)),
        !operands_fit(g_hash@, g_pubkey_hash@) ==> r == Err::<Vec<u8>, GatewayError>(
            GatewayError::Encoding,
        ),
{
    let elems = gateway_template(g_hash, g_pubkey_hash);
    let redeem = match encode_script(&elems) {
        Ok(b) => b,
        Err(e) => {
            return Err(e);
        },
    };
    let script = to_p2sh(redeem.as_slice());
    if is_p2sh(script.as_slice()) {
        Ok(script)
    } else {
        Err(GatewayError::ScriptConstruction)
    }
}

} // verus!
