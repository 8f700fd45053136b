use crate::script::{
    gateway_address, operands_fit, p2sh_script, redeem_script, GatewayError,
};
use bitcoin::address::{Address, Error as AddressError};
use bitcoin::blockdata::script::Script;
use vstd::prelude::*;
use vstd::utf8::encode_utf8;

verus! {

/// The network an address is encoded for.
#[derive(Debug, Clone, Copy, PartialEq, Eq)]
pub enum Network {
    Bitcoin,
    Testnet,
    Signet,
    Regtest,
}

#[verifier::external_type_specification]
#[verifier::external_body]
pub struct ExAddressError(AddressError);

/// The text of the pay-to-script-hash address of a script on a network.
pub uninterp spec fn p2sh_address_text(network: Network, script: Seq<u8>) -> Seq<char>;

/// The largest script that a pay-to-script-hash address may commit to.
pub const MAX_REDEEM_SCRIPT_SIZE: usize = 520;

/// Relies on bitcoin's `Address::p2sh`, which refuses a script of more than 520 bytes,
/// and on the address's text form.
#[verifier::external_body]
fn p2sh_address(script: &[u8], network: Network) -> (r: Result<String, AddressError>)
    ensures
        r.is_ok() == (script@.len() <= MAX_REDEEM_SCRIPT_SIZE),
        r matches Ok(a) ==> a@ == p2sh_address_text(network, script@),
{
    let network = match network {
        Network::Bitcoin => bitcoin::Network::Bitcoin,
        Network::Testnet => bitcoin::Network::Testnet,
        Network::Signet => bitcoin::Network::Signet,
        Network::Regtest => bitcoin::Network::Regtest,
    };
    match Address::p2sh(Script::from_bytes(script), network) {
        Ok(a) => Ok(a.to_string()),
        Err(e) => Err(e),
    }
}

/// The gateway's pay-to-script-hash script for two operands.
pub open spec fn gateway_script(g_hash: Seq<u8>, g_pubkey_hash: Seq<u8>) -> Seq<u8> {
    p2sh_script(redeem_script(g_hash, g_pubkey_hash))
}

/// The deposit address for two operands on a network, or `None` where an operand
/// does not fit in a single push.
pub open spec fn deposit_address(network: Network, g_hash: Seq<u8>, g_pubkey_hash: Seq<u8>) -> Option<
    Seq<char>,
> {
    if operands_fit(g_hash, g_pubkey_hash) {
        Some(p2sh_address_text(network, gateway_script(g_hash, g_pubkey_hash)))
    } else {
        None
    }
}

/// The deposit address of the gateway script on `network`: the gateway script
/// (itself a pay-to-script-hash script) encoded as a pay-to-script-hash address.
/// Fails with `Encoding` where an operand does not fit in a single push.
pub fn address_on_network(network: Network, g_hash: &[u8], g_pubkey_hash: &[u8]) -> (r: Result<
    String,
    GatewayError,
>)
    ensures
        operands_fit(g_hash@, g_pubkey_hash@) ==> (r matches Ok(a) && Some(a@) == deposit_address(
            network,
            g_hash@,
            g_pubkey_hash@,
        )),
        !operands_fit(g_hash@, g_pubkey_hash@) ==> r == Err::<String, GatewayError>(
            GatewayError::Encoding,
        ),
{
    let script = match gateway_address(g_hash, g_pubkey_hash) {
        Ok(s) => s,
        Err(e) => {
            return Err(e);
        },
    };
    match p2sh_address(script.as_slice(), network) {
        Ok(a) => Ok(a),
        Err(_) => Err(GatewayError::AddressEncoding),
    }
}

/// The mainnet deposit address for a gateway hash and a gateway public-key hash,
/// each taken as its UTF-8 bytes. Fails with `Encoding` where either is longer
/// than a single push may be.
pub fn to_address(g_hash: String, g_pubkey_hash: String) -> (r: Result<String, GatewayError>)
    ensures
        operands_fit(encode_utf8(g_hash@), encode_utf8(g_pubkey_hash@)) ==> (r matches Ok(a)
            && Some(a@) == deposit_address(
            Network::Bitcoin,
            encode_utf8(g_hash@),
            encode_utf8(g_pubkey_hash@),
        )),
        !operands_fit(encode_utf8(g_hash@), encode_utf8(g_pubkey_hash@)) ==> r == Err::<
            String,
            GatewayError,
        >(GatewayError::Encoding),
{
    address_on_network(Network::Bitcoin, g_hash.as_str().as_bytes(), g_pubkey_hash.as_str().as_bytes())
}

} // verus!
