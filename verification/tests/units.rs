//! Unit tests: decimal rendering, substring search, filter compilation and
//! the response envelope.

use model_store::decstr::{i64_to_dec, make_id, u64_to_dec};
use model_store::error::{Error, ErrorKind};
use model_store::filter::{parse_op, OpArg, OpValString};
use model_store::ipc::IpcResponse;
use model_store::strutil::{str_contains, str_eq};

#[test]
fn decimal_rendering_is_exact() {
    assert_eq!(u64_to_dec(0), "0");
    assert_eq!(u64_to_dec(7), "7");
    assert_eq!(u64_to_dec(10), "10");
    assert_eq!(u64_to_dec(1234567890), "1234567890");
    assert_eq!(u64_to_dec(u64::MAX), "18446744073709551615");
}

#[test]
fn signed_decimal_rendering_is_exact() {
    assert_eq!(i64_to_dec(0), "0");
    assert_eq!(i64_to_dec(42), "42");
    assert_eq!(i64_to_dec(-5), "-5");
    assert_eq!(i64_to_dec(i64::MIN), "-9223372036854775808");
    assert_eq!(i64_to_dec(i64::MAX), "9223372036854775807");
}

#[test]
fn identifiers_join_table_and_counter() {
    assert_eq!(make_id("station", 7), "station:7");
    assert_eq!(make_id("system", 120), "system:120");
}

#[test]
fn string_equality_is_character_wise() {
    assert!(str_eq("abc", "abc"));
    assert!(!str_eq("abc", "abd"));
    assert!(!str_eq("abc", "ab"));
    assert!(str_eq("", ""));
}

#[test]
fn substring_search() {
    assert!(str_contains("hello world", "lo wo"));
    assert!(str_contains("hello", "hello"));
    assert!(str_contains("hello", ""));
    assert!(!str_contains("hello", "world"));
    assert!(!str_contains("hi", "hello"));
}

#[test]
fn known_operation_tokens_compile() {
    let eq = parse_op("$eq", OpArg::One(String::from("x"))).unwrap();
    assert!(matches!(eq, OpValString::Eq(s) if s == "x"));
    let contains = parse_op("$contains", OpArg::One(String::from("y"))).unwrap();
    assert!(matches!(contains, OpValString::Contains(s) if s == "y"));
    let within = parse_op("$in", OpArg::Many(vec![String::from("a"), String::from("b")]))
        .unwrap();
    assert!(matches!(within, OpValString::In(v) if v.len() == 2));
}

#[test]
fn unknown_operation_token_is_rejected() {
    let r = parse_op("$gt", OpArg::One(String::from("x")));
    assert!(matches!(r, Err(Error::FilterInvalid)));
}

#[test]
fn operand_of_the_wrong_shape_is_rejected() {
    let r = parse_op("$eq", OpArg::Many(vec![String::from("x")]));
    assert!(matches!(r, Err(Error::FilterInvalid)));
    let r2 = parse_op("$in", OpArg::One(String::from("x")));
    assert!(matches!(r2, Err(Error::FilterInvalid)));
}

#[test]
fn envelope_success_carries_the_data() {
    let resp = IpcResponse::from_result(Ok::<u64, Error>(5));
    match resp {
        IpcResponse::Success { data } => assert_eq!(data, 5),
        IpcResponse::Failure { .. } => panic!("a success must not wrap as a failure"),
    }
}

#[test]
fn envelope_failure_is_discriminable_by_kind() {
    let resp = IpcResponse::from_result(Err::<u64, Error>(Error::NotFound));
    match resp {
        IpcResponse::Failure { kind, message } => {
            assert_eq!(kind, ErrorKind::NotFound);
            assert_eq!(message, "entity not found");
        },
        IpcResponse::Success { .. } => panic!("a failure must not wrap as a success"),
    }
}

#[test]
fn envelope_keeps_conversion_messages() {
    let resp = IpcResponse::from_result(Err::<u64, Error>(Error::ConversionMissing {
        field: String::from("title"),
    }));
    match resp {
        IpcResponse::Failure { kind, message } => {
            assert_eq!(kind, ErrorKind::ConversionFail);
            assert_eq!(message, "missing field title");
        },
        IpcResponse::Success { .. } => panic!("a failure must not wrap as a success"),
    }
}

#[test]
fn error_kinds_cover_the_vocabulary() {
    assert_eq!(Error::ContextFail.kind(), ErrorKind::ContextFail);
    assert_eq!(Error::StoreInit.kind(), ErrorKind::StoreInit);
    assert_eq!(Error::StoreFail.kind(), ErrorKind::StoreFail);
    assert_eq!(Error::NotFound.kind(), ErrorKind::NotFound);
    assert_eq!(Error::FilterInvalid.kind(), ErrorKind::FilterInvalid);
    assert_eq!(Error::PayloadInvalid.kind(), ErrorKind::PayloadInvalid);
    let mismatch = Error::ConversionMismatch { field: String::from("ctime") };
    assert_eq!(mismatch.kind(), ErrorKind::ConversionFail);
    assert_eq!(mismatch.message(), "type mismatch ctime");
}
