use mint_gateway::hashing::{compute_g_hash, compute_p_hash, compute_s_hash, deposit_g_hash};
use sha3::{Digest, Keccak256};

fn hex(s: &str) -> Vec<u8> {
    (0..s.len())
        .step_by(2)
        .map(|i| u8::from_str_radix(&s[i..i + 2], 16).unwrap())
        .collect()
}

const EMPTY_KECCAK: &str = "c5d2460186f7233c927e7db2dcc703c0e500b653ca82273b7bfad8045d85a470";
const SCENARIO_G_HASH: &str = "d6032a374beba858750fde85bec095321dc80f9c29bdf240aff44babc28ce9cc";

#[test]
fn s_hash_is_selector_bytes() {
    assert_eq!(compute_s_hash("testselector".to_string()), b"testselector".to_vec());
    assert_eq!(compute_s_hash(String::new()), Vec::<u8>::new());
    assert_eq!(compute_s_hash("é".to_string()), vec![0xc3, 0xa9]);
}

#[test]
fn p_hash_of_empty_payload() {
    assert_eq!(compute_p_hash(&[]).unwrap(), hex(EMPTY_KECCAK));
}

#[test]
fn p_hash_is_keccak_of_payload() {
    let payload = b"testpayload";
    let h = compute_p_hash(payload).unwrap();
    assert_eq!(h.len(), 32);
    assert_eq!(h, Keccak256::digest(payload).to_vec());
    assert_ne!(h, payload.to_vec());
}

#[test]
fn g_hash_concrete_scenario() {
    let s_hash = compute_s_hash("testselector".to_string());
    let p_hash = compute_p_hash(&[]).unwrap();
    let g_hash = compute_g_hash(&p_hash, &s_hash, b"testto", b"testnonce").unwrap();
    assert_eq!(g_hash, hex(SCENARIO_G_HASH));
    let mut joined = p_hash.clone();
    joined.extend_from_slice(&s_hash);
    joined.extend_from_slice(b"testto");
    joined.extend_from_slice(b"testnonce");
    assert_eq!(g_hash, Keccak256::digest(&joined).to_vec());
}

#[test]
fn g_hash_depends_on_order() {
    let s_hash = compute_s_hash("testselector".to_string());
    let p_hash = compute_p_hash(&[]).unwrap();
    let g_hash = compute_g_hash(&p_hash, &s_hash, b"testto", b"testnonce").unwrap();
    let swapped = compute_g_hash(&s_hash, &p_hash, b"testto", b"testnonce").unwrap();
    assert_eq!(
        swapped,
        hex("81b16312f602bba96a0cdd76da1147dbcb6ae024d13b53c360bcb2354c9283fe")
    );
    assert_ne!(g_hash, swapped);
    let to_nonce = compute_g_hash(&p_hash, &s_hash, b"testnonce", b"testto").unwrap();
    assert_ne!(g_hash, to_nonce);
}

#[test]
fn g_hash_changes_with_any_byte() {
    let selector = "testselector";
    let payload = b"testpayload".to_vec();
    let to = b"testto".to_vec();
    let nonce = b"testnonce".to_vec();
    let base = deposit_g_hash(selector.to_string(), &payload, &to, &nonce).unwrap();
    for i in 0..payload.len() {
        let mut p = payload.clone();
        p[i] ^= 1;
        assert_ne!(deposit_g_hash(selector.to_string(), &p, &to, &nonce).unwrap(), base);
    }
    for i in 0..selector.len() {
        let mut s = selector.as_bytes().to_vec();
        s[i] ^= 1;
        let s = String::from_utf8(s).unwrap();
        assert_ne!(deposit_g_hash(s, &payload, &to, &nonce).unwrap(), base);
    }
    for i in 0..to.len() {
        let mut t = to.clone();
        t[i] ^= 1;
        assert_ne!(deposit_g_hash(selector.to_string(), &payload, &t, &nonce).unwrap(), base);
    }
    for i in 0..nonce.len() {
        let mut n = nonce.clone();
        n[i] ^= 1;
        assert_ne!(deposit_g_hash(selector.to_string(), &payload, &to, &n).unwrap(), base);
    }
}

#[test]
fn pipeline_is_deterministic() {
    let a = deposit_g_hash("testselector".to_string(), b"", b"testto", b"testnonce").unwrap();
    let b = deposit_g_hash("testselector".to_string(), b"", b"testto", b"testnonce").unwrap();
    assert_eq!(a, b);
    assert_eq!(a, hex(SCENARIO_G_HASH));
}
