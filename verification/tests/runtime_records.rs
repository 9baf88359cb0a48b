use std::str::FromStr;

use snarkvm::console::network::MainnetV0;
use snarkvm::prelude::{Address, Network, Plaintext, PrivateKey, Record, Scalar, Uniform};
use snarkvm::utilities::TestRng;

use aleo_tx::commands::{deployment_cost, parse_record, RecordError, TxError};
use aleo_tx::runtime::private_key_from_str;

fn owned_record(rng: &mut TestRng) -> (String, String, String) {
    let sk = PrivateKey::<MainnetV0>::new(rng).expect("fresh private key");
    let other = PrivateKey::<MainnetV0>::new(rng).expect("fresh private key");
    let addr = Address::try_from(&sk).expect("address of the key");
    let randomizer = Scalar::<MainnetV0>::rand(rng);
    let nonce = MainnetV0::g_scalar_multiply(&randomizer);
    let plain = Record::<MainnetV0, Plaintext<MainnetV0>>::from_str(&format!(
        "{{ owner: {addr}.private, microcredits: 5u64.private, _nonce: {nonce}.public }}"
    ))
    .expect("well-formed plaintext record");
    let ciphertext = plain.encrypt(randomizer).expect("record encryption");
    (sk.to_string(), other.to_string(), ciphertext.to_string())
}

#[test]
fn a_record_round_trips_with_its_owner_key() {
    let mut rng = TestRng::default();
    let (sk, _, record_string) = owned_record(&mut rng);
    let key = private_key_from_str(&sk).expect("key parses");
    assert!(parse_record(&key, &record_string).is_ok());
}

#[test]
fn a_record_does_not_open_with_another_key() {
    let mut rng = TestRng::default();
    let (_, other, record_string) = owned_record(&mut rng);
    let key = private_key_from_str(&other).expect("key parses");
    assert!(matches!(
        parse_record(&key, &record_string),
        Err(RecordError::DecryptionFailed)
    ));
}

#[test]
fn a_malformed_record_string_is_rejected() {
    let mut rng = TestRng::default();
    let sk = PrivateKey::<MainnetV0>::new(&mut rng).expect("fresh private key");
    let key = private_key_from_str(&sk.to_string()).expect("key parses");
    assert!(matches!(
        parse_record(&key, "not a record"),
        Err(RecordError::MalformedRecord)
    ));
}

#[test]
fn deployment_cost_of_a_malformed_program_is_a_parse_error() {
    let r = deployment_cost("garbage", None);
    assert!(matches!(r, Err(TxError::Parse(_))));
}

#[test]
fn split_rejects_a_malformed_key_as_a_parse_error() {
    let r = aleo_tx::commands::split("not-a-key", "not-a-record", 5, None);
    assert!(matches!(r, Err(TxError::Parse(_))));
}

#[test]
fn split_rejects_a_malformed_record_exactly() {
    let mut rng = TestRng::default();
    let sk = PrivateKey::<MainnetV0>::new(&mut rng).expect("fresh private key");
    let r = aleo_tx::commands::split(&sk.to_string(), "not-a-record", 5, None);
    assert!(matches!(
        r,
        Err(TxError::Record(RecordError::MalformedRecord))
    ));
}

#[test]
fn execute_reports_a_malformed_fee_record_exactly() {
    let mut rng = TestRng::default();
    let sk = PrivateKey::<MainnetV0>::new(&mut rng).expect("fresh private key");
    let r = aleo_tx::commands::execute(
        &sk.to_string(),
        "token.aleo",
        "transfer",
        vec![],
        Some("not-a-record"),
        None,
        Some("http://127.0.0.1:1"),
    );
    assert!(matches!(
        r,
        Err(TxError::Record(RecordError::MalformedRecord))
    ));
}
