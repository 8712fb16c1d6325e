use qchat::compaction::{CompactStrategy, escalate_on_overflow, overflow_entry};
use qchat::endpoint::{InvalidParams, Params};
use qchat::errors::{ApiError, ChatError};
use qchat::models::{default_model_id, model_options, resolve_model_id, split_colons};
use qchat::protocol::{
    JsonNumber, JsonToken, OverageConfiguration, OverageStatus, de_overage_configuration,
    de_usage_breakdown, ser_overage_configuration, skip_value,
};
use qchat::text::{contains_str, i64_to_dec, str_eq, trim_ws, u64_to_dec};
use qchat::trial::{FreeTrialInfo, FreeTrialStatus};

fn s(x: &str) -> String {
    x.to_string()
}

fn key(k: &str) -> JsonToken {
    JsonToken::ObjectKey(s(k))
}

fn string(v: &str) -> JsonToken {
    JsonToken::ValueString(s(v))
}

fn number(v: u64) -> JsonToken {
    JsonToken::ValueNumber(JsonNumber::PosInt(v))
}

#[test]
fn usage_breakdown_reads_every_known_field() {
    let toks = vec![
        JsonToken::StartObject,
        key("resourceType"),
        string("AGENTIC_REQUEST"),
        key("currentUsage"),
        number(42),
        key("currentOverages"),
        number(2),
        key("usageLimit"),
        number(500),
        key("unit"),
        string("requests"),
        key("overageCharges"),
        JsonToken::ValueNumber(JsonNumber::Fraction),
        key("currency"),
        string("USD"),
        key("overageRate"),
        JsonToken::ValueNumber(JsonNumber::Fraction),
        key("nextDateReset"),
        number(1750000000),
        key("overageCap"),
        number(100),
        key("freeTrialInfo"),
        JsonToken::StartObject,
        key("freeTrialStatus"),
        string("ACTIVE"),
        key("freeTrialExpiry"),
        number(1760000000),
        key("currentUsage"),
        number(7),
        key("usageLimit"),
        number(50),
        JsonToken::EndObject,
        key("somethingNew"),
        JsonToken::StartObject,
        key("nested"),
        JsonToken::StartArray,
        number(1),
        string("two"),
        JsonToken::EndArray,
        JsonToken::EndObject,
        JsonToken::EndObject,
    ];
    let (ub, end) = de_usage_breakdown(&toks, 0).unwrap();
    assert_eq!(end, toks.len());
    let ub = ub.unwrap();
    assert_eq!(ub.resource_type.unwrap().value, "AGENTIC_REQUEST");
    assert_eq!(ub.current_usage, Some(42));
    assert_eq!(ub.current_overages, Some(2));
    assert_eq!(ub.usage_limit, Some(500));
    assert_eq!(ub.unit.as_deref(), Some("requests"));
    assert_eq!(ub.currency.unwrap().value, "USD");
    assert_eq!(ub.next_date_reset, Some(1750000000));
    assert_eq!(ub.overage_cap, Some(100));
    let fti = ub.free_trial_info.unwrap();
    assert_eq!(fti.free_trial_status.unwrap().value, "ACTIVE");
    assert_eq!(fti.free_trial_expiry, Some(1760000000));
    assert_eq!(fti.current_usage, Some(7));
    assert_eq!(fti.usage_limit, Some(50));
}

#[test]
fn usage_breakdown_null_and_malformed() {
    let toks = vec![JsonToken::ValueNull];
    let (ub, end) = de_usage_breakdown(&toks, 0).unwrap();
    assert!(ub.is_none());
    assert_eq!(end, 1);

    let toks = vec![JsonToken::StartArray, JsonToken::EndArray];
    assert!(de_usage_breakdown(&toks, 0).is_err());

    let toks = vec![
        JsonToken::StartObject,
        key("currentUsage"),
        string("not a number"),
        JsonToken::EndObject,
    ];
    assert!(de_usage_breakdown(&toks, 0).is_err());

    let toks = vec![JsonToken::StartObject, key("currentUsage")];
    assert!(de_usage_breakdown(&toks, 0).is_err());

    let too_big = vec![
        JsonToken::StartObject,
        key("currentUsage"),
        number(u64::MAX),
        JsonToken::EndObject,
    ];
    assert!(de_usage_breakdown(&too_big, 0).is_err());
}

#[test]
fn skip_value_matches_nesting() {
    let toks = vec![
        JsonToken::StartObject,
        key("a"),
        JsonToken::StartArray,
        number(1),
        JsonToken::StartObject,
        JsonToken::EndObject,
        JsonToken::EndArray,
        JsonToken::EndObject,
        number(9),
    ];
    assert_eq!(skip_value(&toks, 0).unwrap(), 8);
    assert_eq!(skip_value(&toks, 8).unwrap(), 9);
    assert!(skip_value(&toks, 9).is_err());
    let dangling = vec![JsonToken::StartObject, key("a")];
    assert!(skip_value(&dangling, 0).is_err());
}

#[test]
fn overage_configuration_round_trip() {
    let toks = vec![
        JsonToken::StartObject,
        key("overageStatus"),
        string("ENABLED"),
        JsonToken::EndObject,
    ];
    let (oc, end) = de_overage_configuration(&toks, 0).unwrap();
    assert_eq!(end, 4);
    let oc = oc.unwrap();
    assert_eq!(oc.overage_status.as_str(), "ENABLED");

    let mut out = String::new();
    ser_overage_configuration(&mut out, &oc).unwrap();
    assert_eq!(out, "\"overageStatus\":\"ENABLED\"");

    // An object without the status does not build.
    let missing = vec![JsonToken::StartObject, JsonToken::EndObject];
    assert!(de_overage_configuration(&missing, 0).is_err());

    let null = vec![JsonToken::ValueNull];
    let (oc, _) = de_overage_configuration(&null, 0).unwrap();
    assert!(oc.is_none());
}

#[test]
fn serialized_status_is_escaped() {
    let oc = OverageConfiguration {
        overage_status: OverageStatus::from("say \"no\" \\ twice\n"),
    };
    let mut out = String::new();
    ser_overage_configuration(&mut out, &oc).unwrap();
    assert_eq!(
        out,
        "\"overageStatus\":\"say \\\"no\\\" \\\\ twice\\u000a\""
    );
}

#[test]
fn free_trial_builder_round_trip() {
    let built = FreeTrialInfo::builder()
        .free_trial_status(FreeTrialStatus::from("ACTIVE"))
        .free_trial_expiry(1760000000)
        .current_usage(7)
        .usage_limit(50)
        .build();
    assert_eq!(built.free_trial_status().unwrap().value, "ACTIVE");
    assert_eq!(built.free_trial_expiry(), Some(1760000000));
    assert_eq!(built.current_usage(), Some(7));
    assert_eq!(built.usage_limit(), Some(50));

    let cleared = FreeTrialInfo::builder()
        .free_trial_expiry(1)
        .set_free_trial_expiry(None)
        .set_current_usage(Some(3))
        .build();
    assert_eq!(cleared.free_trial_expiry(), None);
    assert_eq!(cleared.current_usage(), Some(3));

    let builder = FreeTrialInfo::builder().usage_limit(5);
    assert_eq!(builder.get_usage_limit(), &Some(5));
    assert!(builder.get_free_trial_status().is_none());
    assert_eq!(builder.get_free_trial_expiry(), &None);
    assert_eq!(builder.get_current_usage(), &None);
}

#[test]
fn model_names_resolve_without_regard_to_case() {
    assert_eq!(
        resolve_model_id("SONNET-4").as_deref(),
        Some("CLAUDE_SONNET_4_20250514_V1_0")
    );
    assert_eq!(
        resolve_model_id("sonnet-3.7").as_deref(),
        Some("CLAUDE_3_7_SONNET_20250219_V1_0")
    );
    assert!(resolve_model_id("sonnet-5").is_none());
    assert_eq!(model_options().len(), 2);
}

#[test]
fn default_model_depends_on_region_and_account() {
    let fra = Some(s("arn:aws:sso:eu-central-1:123456789012:instance/x"));
    assert_eq!(default_model_id(fra, false), "CLAUDE_3_7_SONNET_20250219_V1_0");
    let us = Some(s("arn:aws:sso:us-east-1:123456789012:instance/x"));
    assert_eq!(default_model_id(us, false), "CLAUDE_SONNET_4_20250514_V1_0");
    assert_eq!(default_model_id(None, true), "CLAUDE_3_7_SONNET_20250219_V1_0");
    assert_eq!(default_model_id(None, false), "CLAUDE_SONNET_4_20250514_V1_0");
}

#[test]
fn colon_splitting_keeps_empty_fields() {
    assert_eq!(split_colons("a:b:c"), vec![s("a"), s("b"), s("c")]);
    assert_eq!(split_colons(""), vec![s("")]);
    assert_eq!(split_colons("::x"), vec![s(""), s(""), s("x")]);
    assert_eq!(split_colons("noseparator"), vec![s("noseparator")]);
}

#[test]
fn decimal_rendering_matches_expected_text() {
    assert_eq!(u64_to_dec(0), "0");
    assert_eq!(u64_to_dec(907), "907");
    assert_eq!(u64_to_dec(u64::MAX), "18446744073709551615");
    assert_eq!(i64_to_dec(-45), "-45");
    assert_eq!(i64_to_dec(7), "7");
    assert_eq!(i64_to_dec(i64::MIN), "-9223372036854775808");
}

#[test]
fn text_helpers_behave_like_their_contracts_say() {
    assert!(str_eq("abc", "abc"));
    assert!(!str_eq("abc", "abd"));
    assert!(contains_str("hello world", "lo wo"));
    assert!(!contains_str("hello", "world"));
    assert!(contains_str("anything", ""));
    assert_eq!(trim_ws("  padded \n"), "padded");
    assert_eq!(trim_ws(""), "");
}

#[test]
fn error_codes_follow_the_taxonomy() {
    let overflow = ChatError::SendMessage(ApiError::ContextWindowOverflow);
    assert_eq!(overflow.reason_code(), "ContextWindowOverflow");
    assert_eq!(overflow.status_code(), None);

    let quota = ChatError::SendMessage(ApiError::QuotaBreach { status_code: Some(429) });
    assert_eq!(quota.reason_code(), "QuotaBreach");
    assert_eq!(quota.status_code(), Some(429));

    let overloaded = ChatError::Client(ApiError::ModelOverloaded {
        request_id: Some(s("r")),
        status_code: Some(503),
    });
    assert_eq!(overloaded.reason_code(), "ModelOverloadedError");
    assert_eq!(overloaded.status_code(), Some(503));

    assert_eq!(ChatError::CompactHistoryFailure.reason_code(), "CompactHistoryFailure");
    assert_eq!(
        ChatError::NonInteractiveToolApproval.reason_code(),
        "NonInteractiveToolApproval"
    );
    assert_eq!(ChatError::Std(s("broken pipe")).reason_code(), "StdIoError");
    assert_eq!(ChatError::Custom(s("what")).reason_code(), "GenericError");
    assert_eq!(ChatError::Auth(s("expired")).reason_code(), "AuthError");
    assert_eq!(ChatError::Readline(s("eof")).reason_code(), "ReadlineError");
    assert_eq!(ChatError::GetPromptError(s("missing")).reason_code(), "GetPromptError");
}

#[test]
fn escalation_ladder_is_deterministic() {
    // A short history goes straight to truncation on entry.
    let entry = overflow_entry(2);
    assert!(entry.truncate_large_messages);
    assert_eq!(entry.messages_to_exclude, 0);
    let entry = overflow_entry(3);
    assert!(!entry.truncate_large_messages);

    // A long history escalates exclude, then truncate, then gives up.
    let s0 = CompactStrategy::default();
    let s1 = escalate_on_overflow(5, s0).unwrap();
    assert_eq!(s1.messages_to_exclude, 1);
    assert!(!s1.truncate_large_messages);
    let s2 = escalate_on_overflow(5, s1).unwrap();
    assert!(s2.truncate_large_messages);
    assert_eq!(s2.max_message_length, 25000);
    assert!(escalate_on_overflow(5, s2).is_none());

    // A short history has only the one truncation step.
    let t1 = escalate_on_overflow(1, s0).unwrap();
    assert!(t1.truncate_large_messages);
    assert_eq!(t1.messages_to_exclude, 0);
    assert!(escalate_on_overflow(1, t1).is_none());
}

#[test]
fn endpoint_params_build_and_errors_format() {
    let params = Params::builder().build().unwrap();
    assert_eq!(params, Params {});
    let err = InvalidParams::missing("region");
    assert_eq!(err.message(), "a required field was missing: `region`");
}
