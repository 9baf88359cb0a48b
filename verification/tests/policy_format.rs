use aleo_tx::commands::{execute, resolve_endpoint, TxError};
use aleo_tx::costfmt::{dec_string, CostBreakdown};
use aleo_tx::fee::{decide, rejection_reason, FeeDecision};
use aleo_tx::ident::{FunctionName, ProgramId};

fn pid(s: &str) -> ProgramId {
    ProgramId::parse(s).expect("valid program id")
}

fn fname(s: &str) -> FunctionName {
    FunctionName::parse(s).expect("valid function name")
}

#[test]
fn split_of_credits_is_fee_free_without_amount() {
    let d = decide::<String>(&pid("credits.aleo"), &fname("split"), None, None);
    assert!(matches!(d, FeeDecision::NoFeeRequired));
}

#[test]
fn split_of_credits_is_fee_free_regardless_of_amount() {
    let d = decide::<String>(&pid("credits.aleo"), &fname("split"), None, Some(123456));
    assert!(matches!(d, FeeDecision::NoFeeRequired));
}

#[test]
fn record_always_wins_with_default_amount_zero() {
    let d = decide(&pid("credits.aleo"), &fname("split"), Some("rec".to_string()), None);
    match d {
        FeeDecision::FeeFromRecord(r, amount) => {
            assert_eq!(r, "rec");
            assert_eq!(amount, 0);
        }
        _ => panic!("expected FeeFromRecord"),
    }
}

#[test]
fn record_always_wins_with_explicit_amount() {
    let d = decide(&pid("token.aleo"), &fname("transfer"), Some("rec".to_string()), Some(77));
    match d {
        FeeDecision::FeeFromRecord(r, amount) => {
            assert_eq!(r, "rec");
            assert_eq!(amount, 77);
        }
        _ => panic!("expected FeeFromRecord"),
    }
}

#[test]
fn no_record_and_non_exempt_is_rejected() {
    let d = decide::<String>(&pid("token.aleo"), &fname("transfer"), None, Some(5));
    assert!(matches!(d, FeeDecision::Rejected));
}

#[test]
fn exemption_is_an_exact_match_not_a_prefix() {
    let d = decide::<String>(&pid("credits2.aleo"), &fname("split"), None, None);
    assert!(matches!(d, FeeDecision::Rejected));
    let d = decide::<String>(&pid("credit.aleo"), &fname("split"), None, None);
    assert!(matches!(d, FeeDecision::Rejected));
    let d = decide::<String>(&pid("credits.aleo"), &fname("splits"), None, None);
    assert!(matches!(d, FeeDecision::Rejected));
    let d = decide::<String>(&pid("credits.aleo"), &fname("spli"), None, None);
    assert!(matches!(d, FeeDecision::Rejected));
}

#[test]
fn rejection_reason_names_the_missing_record() {
    assert_eq!(
        rejection_reason(),
        "a record must be provided to pay the transaction fee"
    );
}

#[test]
fn execute_fails_at_fee_policy_before_any_runtime_work() {
    // The private key is garbage and the endpoint is unreachable; the fee
    // policy still decides first, so the failure is the policy rejection.
    let r = execute(
        "not-a-key",
        "token.aleo",
        "transfer",
        vec!["1u64".to_string()],
        None,
        None,
        Some("http://127.0.0.1:1"),
    );
    assert!(matches!(r, Err(TxError::FeePolicyRejected)));
}

#[test]
fn program_id_grammar() {
    assert!(ProgramId::parse("credits.aleo").is_some());
    assert!(ProgramId::parse("a_1.aleo").is_some());
    assert!(ProgramId::parse("foo").is_none());
    assert!(ProgramId::parse("Bar.aleo").is_none());
    assert!(ProgramId::parse("0foo.aleo").is_none());
    assert!(ProgramId::parse("_foo.aleo").is_none());
    assert!(ProgramId::parse("foo.bleo").is_none());
    assert!(ProgramId::parse("a.b.aleo").is_none());
    assert!(ProgramId::parse(".aleo").is_none());
    // Thirty-one characters is the longest name; thirty-two is refused.
    let name31 = "a".repeat(31);
    let name32 = "a".repeat(32);
    assert!(ProgramId::parse(&format!("{name31}.aleo")).is_some());
    assert!(ProgramId::parse(&format!("{name32}.aleo")).is_none());
}

#[test]
fn function_name_grammar() {
    assert!(FunctionName::parse("split").is_some());
    assert!(FunctionName::parse("Transfer_2").is_some());
    assert!(FunctionName::parse("").is_none());
    assert!(FunctionName::parse("9lives").is_none());
    assert!(FunctionName::parse("_x").is_none());
    assert!(FunctionName::parse("with-dash").is_none());
}

#[test]
fn reserved_literal_type_names_are_not_identifiers() {
    // The runtime refuses literal type names as identifiers; so does the
    // library's grammar.
    for reserved in [
        "address",
        "boolean",
        "field",
        "group",
        "i8",
        "i16",
        "i32",
        "i64",
        "i128",
        "u8",
        "u16",
        "u32",
        "u64",
        "u128",
        "scalar",
        "signature",
        "string",
        "identifier",
    ] {
        assert!(FunctionName::parse(reserved).is_none());
        assert!(ProgramId::parse(&format!("{reserved}.aleo")).is_none());
    }
    assert!(FunctionName::parse("u64x").is_some());
    assert!(ProgramId::parse("u64x.aleo").is_some());
}

#[test]
fn decimal_rendering_is_exact() {
    assert_eq!(dec_string(0), "0");
    assert_eq!(dec_string(7), "7");
    assert_eq!(dec_string(1234567890), "1234567890");
    assert_eq!(dec_string(u64::MAX), "18446744073709551615");
}

#[test]
fn cost_json_shape_is_exact() {
    let b = CostBreakdown {
        minimum: 5,
        storage: 2,
        finalize: 3,
    };
    assert_eq!(
        b.to_json(),
        "{\"minimum_deployment_cost\":5,\"storage_cost\":2,\"finalize_cost\":3}"
    );
}

#[test]
fn cost_json_is_valid_json_with_the_three_fields() {
    let b = CostBreakdown {
        minimum: 18446744073709551615,
        storage: 42,
        finalize: 0,
    };
    let v: serde_json::Value = serde_json::from_str(&b.to_json()).expect("valid JSON");
    assert_eq!(v["minimum_deployment_cost"].as_u64(), Some(u64::MAX));
    assert_eq!(v["storage_cost"].as_u64(), Some(42));
    assert_eq!(v["finalize_cost"].as_u64(), Some(0));
}

#[test]
fn endpoint_defaults_to_the_public_api() {
    assert_eq!(resolve_endpoint(None), "https://vm.aleo.org/api");
    assert_eq!(resolve_endpoint(Some("http://localhost:3030")), "http://localhost:3030");
}
