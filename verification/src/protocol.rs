//! The wire shapes of the subscription service, read from and written to
//! JSON. The input is a token sequence — the plain-value form of a JSON
//! tokenizer's output — and each deserializer's contract is its definitional
//! parser: the exec code returns exactly what the parser denotes, erring
//! exactly where it denotes nothing.
use vstd::prelude::*;

use crate::text;
use crate::trial::{FreeTrialInfo, FreeTrialStatus};

verus! {

/// A JSON number as the tokenizer reports it: an unsigned or negative
/// integer, or a number with a fractional part, whose value the shapes here
/// never read.
#[derive(Debug, Clone, Copy)]
pub enum JsonNumber {
    PosInt(u64),
    NegInt(i64),
    Fraction,
}

/// One token of a JSON document.
#[derive(Debug, Clone)]
pub enum JsonToken {
    ValueNull,
    ValueBool(bool),
    ValueString(String),
    ValueNumber(JsonNumber),
    StartObject,
    EndObject,
    StartArray,
    EndArray,
    ObjectKey(String),
}

/// Failure to read a shape from the token stream.
#[derive(Debug)]
pub struct DeserializeError {
    pub message: String,
}

fn de_error(message: &str) -> (r: DeserializeError) {
    DeserializeError { message: String::from_str(message) }
}

/// A service-defined resource-type token, kept verbatim.
#[derive(Debug, Clone)]
pub struct ResourceType {
    pub value: String,
}

/// A service-defined currency token, kept verbatim.
#[derive(Debug, Clone)]
pub struct Currency {
    pub value: String,
}

/// A service-defined overage-status token, kept verbatim.
#[derive(Debug, Clone)]
pub struct OverageStatus {
    pub value: String,
}

impl OverageStatus {
    pub fn from(value: &str) -> (r: OverageStatus)
        ensures
            r.value@ == value@,
    {
        OverageStatus { value: String::from_str(value) }
    }

    pub fn as_str(&self) -> (r: &str)
        ensures
            r@ == self.value@,
    {
        self.value.as_str()
    }
}

/// Whether to pay for usage beyond the subscription's limits.
#[derive(Debug, Clone)]
pub struct OverageConfiguration {
    pub overage_status: OverageStatus,
}

/// Usage facts for one resource of the subscription. Monetary rates arrive
/// as fractional numbers and are not carried here.
#[derive(Debug, Clone)]
pub struct UsageBreakdown {
    pub resource_type: Option<ResourceType>,
    pub current_usage: Option<i32>,
    pub current_overages: Option<i32>,
    pub usage_limit: Option<i32>,
    pub unit: Option<String>,
    pub currency: Option<Currency>,
    pub next_date_reset: Option<i64>,
    pub overage_cap: Option<i32>,
    pub free_trial_info: Option<FreeTrialInfo>,
}

/// The empty accumulation a breakdown is read into.
pub open spec fn empty_usage_breakdown() -> UsageBreakdown {
    UsageBreakdown {
        resource_type: None,
        current_usage: None,
        current_overages: None,
        usage_limit: None,
        unit: None,
        currency: None,
        next_date_reset: None,
        overage_cap: None,
        free_trial_info: None,
    }
}

/// Where skipping one JSON value that starts at `pos` ends, scanning by
/// nesting depth; `None` when the stream is malformed or exhausted.
pub open spec fn skip_scan(toks: Seq<JsonToken>, pos: int, depth: int) -> Option<int>
    decreases toks.len() - pos,
{
    if pos < 0 || pos >= toks.len() {
        None
    } else {
        match toks[pos] {
            JsonToken::StartObject => skip_scan(toks, pos + 1, depth + 1),
            JsonToken::StartArray => skip_scan(toks, pos + 1, depth + 1),
            JsonToken::EndObject => if depth <= 0 {
                None
            } else if depth == 1 {
                Some(pos + 1)
            } else {
                skip_scan(toks, pos + 1, depth - 1)
            },
            JsonToken::EndArray => if depth <= 0 {
                None
            } else if depth == 1 {
                Some(pos + 1)
            } else {
                skip_scan(toks, pos + 1, depth - 1)
            },
            JsonToken::ObjectKey(k) => if depth == 0 {
                None
            } else {
                skip_scan(toks, pos + 1, depth)
            },
            _ => if depth == 0 {
                Some(pos + 1)
            } else {
                skip_scan(toks, pos + 1, depth)
            },
        }
    }
}

/// Skipping always moves forward and stays within the stream.
pub proof fn lemma_skip_scan_progress(toks: Seq<JsonToken>, pos: int, depth: int)
    ensures
        skip_scan(toks, pos, depth) matches Some(p) ==> pos < p <= toks.len(),
    decreases toks.len() - pos,
{
    if 0 <= pos < toks.len() {
        lemma_skip_scan_progress(toks, pos + 1, depth + 1);
        lemma_skip_scan_progress(toks, pos + 1, depth - 1);
        lemma_skip_scan_progress(toks, pos + 1, depth);
    }
}

/// Skips one JSON value, returning the position after it.
pub fn skip_value(toks: &Vec<JsonToken>, pos: usize) -> (r: Result<usize, DeserializeError>)
    ensures
        match r {
            Ok(p) => skip_scan(toks@, pos as int, 0) == Some(p as int) && pos < p <= toks@.len(),
            Err(_) => skip_scan(toks@, pos as int, 0) is None,
        },
{
    let n = toks.len();
    if pos >= n {
        return Err(de_error("expected a value, found the end of the stream"));
    }
    let mut i = pos;
    let mut depth: usize = 0;
    loop
        invariant
            n == toks@.len(),
            0 <= pos <= i <= n,
            depth <= i - pos,
            skip_scan(toks@, pos as int, 0) == (if i < n {
                skip_scan(toks@, i as int, depth as int)
            } else {
                None::<int>
            }),
        decreases n - i,
    {
        if i >= n {
            return Err(de_error("expected a value, found the end of the stream"));
        }
        match &toks[i] {
            JsonToken::StartObject => {
                depth = depth + 1;
            },
            JsonToken::StartArray => {
                depth = depth + 1;
            },
            JsonToken::EndObject => {
                if depth == 0 {
                    return Err(de_error("unexpected end of object"));
                }
                if depth == 1 {
                    return Ok(i + 1);
                }
                depth = depth - 1;
            },
            JsonToken::EndArray => {
                if depth == 0 {
                    return Err(de_error("unexpected end of array"));
                }
                if depth == 1 {
                    return Ok(i + 1);
                }
                depth = depth - 1;
            },
            JsonToken::ObjectKey(k) => {
                if depth == 0 {
                    return Err(de_error("expected a value, found an object key"));
                }
            },
            _ => {
                if depth == 0 {
                    return Ok(i + 1);
                }
            },
        }
        i = i + 1;
    }
}

/// The 32-bit integer a JSON number converts to, when it fits and is whole.
pub open spec fn num_to_i32(n: JsonNumber) -> Option<i32> {
    match n {
        JsonNumber::PosInt(u) => if u <= i32::MAX as u64 {
            Some(u as i32)
        } else {
            None
        },
        JsonNumber::NegInt(v) => if i32::MIN as i64 <= v && v <= i32::MAX as i64 {
            Some(v as i32)
        } else {
            None
        },
        JsonNumber::Fraction => None,
    }
}

/// The epoch-seconds timestamp a JSON number converts to, when it is whole.
pub open spec fn num_to_epoch_seconds(n: JsonNumber) -> Option<i64> {
    match n {
        JsonNumber::PosInt(u) => if u <= i64::MAX as u64 {
            Some(u as i64)
        } else {
            None
        },
        JsonNumber::NegInt(v) => Some(v),
        JsonNumber::Fraction => None,
    }
}

fn num_to_i32_exec(n: &JsonNumber) -> (r: Option<i32>)
    ensures
        r == num_to_i32(*n),
{
    match n {
        JsonNumber::PosInt(u) => if *u <= i32::MAX as u64 {
            Some(*u as i32)
        } else {
            None
        },
        JsonNumber::NegInt(v) => if i32::MIN as i64 <= *v && *v <= i32::MAX as i64 {
            Some(*v as i32)
        } else {
            None
        },
        JsonNumber::Fraction => None,
    }
}

fn num_to_epoch_seconds_exec(n: &JsonNumber) -> (r: Option<i64>)
    ensures
        r == num_to_epoch_seconds(*n),
{
    match n {
        JsonNumber::PosInt(u) => if *u <= i64::MAX as u64 {
            Some(*u as i64)
        } else {
            None
        },
        JsonNumber::NegInt(v) => Some(*v),
        JsonNumber::Fraction => None,
    }
}

/// The field loop of a free-trial object, starting after its opening brace:
/// known keys fill the accumulation, unknown keys are skipped, the closing
/// brace ends it; anything else is malformed.
pub open spec fn de_fti_fields(toks: Seq<JsonToken>, pos: int, acc: FreeTrialInfo) -> Option<
    (FreeTrialInfo, int),
>
    decreases toks.len() - pos,
    via de_fti_fields_decreases
{
    if pos < 0 || pos >= toks.len() {
        None
    } else {
        match toks[pos] {
            JsonToken::EndObject => Some((acc, pos + 1)),
            JsonToken::ObjectKey(key) => if pos + 1 >= toks.len() {
                None
            } else if key@ == "freeTrialStatus"@ {
                match toks[pos + 1] {
                    JsonToken::ValueNull => de_fti_fields(
                        toks,
                        pos + 2,
                        FreeTrialInfo { free_trial_status: None, ..acc },
                    ),
                    JsonToken::ValueString(s) => de_fti_fields(
                        toks,
                        pos + 2,
                        FreeTrialInfo {
                            free_trial_status: Some(FreeTrialStatus { value: s }),
                            ..acc
                        },
                    ),
                    _ => None,
                }
            } else if key@ == "freeTrialExpiry"@ {
                match toks[pos + 1] {
                    JsonToken::ValueNull => de_fti_fields(
                        toks,
                        pos + 2,
                        FreeTrialInfo { free_trial_expiry: None, ..acc },
                    ),
                    JsonToken::ValueNumber(n) => match num_to_epoch_seconds(n) {
                        Some(v) => de_fti_fields(
                            toks,
                            pos + 2,
                            FreeTrialInfo { free_trial_expiry: Some(v), ..acc },
                        ),
                        None => None,
                    },
                    _ => None,
                }
            } else if key@ == "currentUsage"@ {
                match toks[pos + 1] {
                    JsonToken::ValueNull => de_fti_fields(
                        toks,
                        pos + 2,
                        FreeTrialInfo { current_usage: None, ..acc },
                    ),
                    JsonToken::ValueNumber(n) => match num_to_i32(n) {
                        Some(v) => de_fti_fields(
                            toks,
                            pos + 2,
                            FreeTrialInfo { current_usage: Some(v), ..acc },
                        ),
                        None => None,
                    },
                    _ => None,
                }
            } else if key@ == "usageLimit"@ {
                match toks[pos + 1] {
                    JsonToken::ValueNull => de_fti_fields(
                        toks,
                        pos + 2,
                        FreeTrialInfo { usage_limit: None, ..acc },
                    ),
                    JsonToken::ValueNumber(n) => match num_to_i32(n) {
                        Some(v) => de_fti_fields(
                            toks,
                            pos + 2,
                            FreeTrialInfo { usage_limit: Some(v), ..acc },
                        ),
                        None => None,
                    },
                    _ => None,
                }
            } else {
                match skip_scan(toks, pos + 1, 0) {
                    Some(p2) => de_fti_fields(toks, p2, acc),
                    None => None,
                }
            },
            _ => None,
        }
    }
}

#[via_fn]
proof fn de_fti_fields_decreases(toks: Seq<JsonToken>, pos: int, acc: FreeTrialInfo) {
    lemma_skip_scan_progress(toks, pos + 1, 0);
}

/// The whole free-trial value: null, or an object of fields.
pub open spec fn de_free_trial_info_spec(toks: Seq<JsonToken>, pos: int) -> Option<
    (Option<FreeTrialInfo>, int),
> {
    if pos < 0 || pos >= toks.len() {
        None
    } else {
        match toks[pos] {
            JsonToken::ValueNull => Some((None, pos + 1)),
            JsonToken::StartObject => match de_fti_fields(
                toks,
                pos + 1,
                FreeTrialInfo {
                    free_trial_status: None,
                    free_trial_expiry: None,
                    current_usage: None,
                    usage_limit: None,
                },
            ) {
                Some((fti, p)) => Some((Some(fti), p)),
                None => None,
            },
            _ => None,
        }
    }
}

fn de_free_trial_info_fields(toks: &Vec<JsonToken>, pos: usize, acc: FreeTrialInfo) -> (r: Result<
    (FreeTrialInfo, usize),
    DeserializeError,
>)
    ensures
        match r {
            Ok((fti, p)) => de_fti_fields(toks@, pos as int, acc) == Some((fti, p as int)) && pos
                < p <= toks@.len(),
            Err(_) => de_fti_fields(toks@, pos as int, acc) is None,
        },
    decreases toks@.len() - pos,
{
    if pos >= toks.len() {
        return Err(de_error("expected object key or end object, found the end of the stream"));
    }
    match &toks[pos] {
        JsonToken::EndObject => Ok((acc, pos + 1)),
        JsonToken::ObjectKey(key) => {
            if pos + 1 >= toks.len() {
                return Err(de_error("expected a value, found the end of the stream"));
            }
            if text::str_eq(key.as_str(), "freeTrialStatus") {
                match &toks[pos + 1] {
                    JsonToken::ValueNull => de_free_trial_info_fields(
                        toks,
                        pos + 2,
                        FreeTrialInfo { free_trial_status: None, ..acc },
                    ),
                    JsonToken::ValueString(s) => de_free_trial_info_fields(
                        toks,
                        pos + 2,
                        FreeTrialInfo {
                            free_trial_status: Some(FreeTrialStatus { value: s.clone() }),
                            ..acc
                        },
                    ),
                    _ => Err(de_error("expected a string or null")),
                }
            } else if text::str_eq(key.as_str(), "freeTrialExpiry") {
                match &toks[pos + 1] {
                    JsonToken::ValueNull => de_free_trial_info_fields(
                        toks,
                        pos + 2,
                        FreeTrialInfo { free_trial_expiry: None, ..acc },
                    ),
                    JsonToken::ValueNumber(n) => match num_to_epoch_seconds_exec(n) {
                        Some(v) => de_free_trial_info_fields(
                            toks,
                            pos + 2,
                            FreeTrialInfo { free_trial_expiry: Some(v), ..acc },
                        ),
                        None => Err(de_error("expected a whole timestamp")),
                    },
                    _ => Err(de_error("expected a number or null")),
                }
            } else if text::str_eq(key.as_str(), "currentUsage") {
                match &toks[pos + 1] {
                    JsonToken::ValueNull => de_free_trial_info_fields(
                        toks,
                        pos + 2,
                        FreeTrialInfo { current_usage: None, ..acc },
                    ),
                    JsonToken::ValueNumber(n) => match num_to_i32_exec(n) {
                        Some(v) => de_free_trial_info_fields(
                            toks,
                            pos + 2,
                            FreeTrialInfo { current_usage: Some(v), ..acc },
                        ),
                        None => Err(de_error("expected a 32-bit integer")),
                    },
                    _ => Err(de_error("expected a number or null")),
                }
            } else if text::str_eq(key.as_str(), "usageLimit") {
                match &toks[pos + 1] {
                    JsonToken::ValueNull => de_free_trial_info_fields(
                        toks,
                        pos + 2,
                        FreeTrialInfo { usage_limit: None, ..acc },
                    ),
                    JsonToken::ValueNumber(n) => match num_to_i32_exec(n) {
                        Some(v) => de_free_trial_info_fields(
                            toks,
                            pos + 2,
                            FreeTrialInfo { usage_limit: Some(v), ..acc },
                        ),
                        None => Err(de_error("expected a 32-bit integer")),
                    },
                    _ => Err(de_error("expected a number or null")),
                }
            } else {
                match skip_value(toks, pos + 1) {
                    Ok(p2) => de_free_trial_info_fields(toks, p2, acc),
                    Err(e) => Err(e),
                }
            }
        },
        _ => Err(de_error("expected object key or end object")),
    }
}

/// Reads a free-trial value — null or an object — returning it with the
/// position after it.
pub fn de_free_trial_info(toks: &Vec<JsonToken>, pos: usize) -> (r: Result<
    (Option<FreeTrialInfo>, usize),
    DeserializeError,
>)
    ensures
        match r {
            Ok((v, p)) => de_free_trial_info_spec(toks@, pos as int) == Some((v, p as int)) && pos
                < p <= toks@.len(),
            Err(_) => de_free_trial_info_spec(toks@, pos as int) is None,
        },
{
    if pos >= toks.len() {
        return Err(de_error("expected start object or null, found the end of the stream"));
    }
    match &toks[pos] {
        JsonToken::ValueNull => Ok((None, pos + 1)),
        JsonToken::StartObject => {
            match de_free_trial_info_fields(
                toks,
                pos + 1,
                FreeTrialInfo {
                    free_trial_status: None,
                    free_trial_expiry: None,
                    current_usage: None,
                    usage_limit: None,
                },
            ) {
                Ok((fti, p)) => Ok((Some(fti), p)),
                Err(e) => Err(e),
            }
        },
        _ => Err(de_error("expected start object or null")),
    }
}

/// The field loop of a usage-breakdown object, starting after its opening
/// brace. The two monetary-rate fields accept any number and are dropped,
/// since their values are fractional.
pub open spec fn de_ub_fields(toks: Seq<JsonToken>, pos: int, acc: UsageBreakdown) -> Option<
    (UsageBreakdown, int),
>
    decreases toks.len() - pos,
    via de_ub_fields_decreases
{
    if pos < 0 || pos >= toks.len() {
        None
    } else {
        match toks[pos] {
            JsonToken::EndObject => Some((acc, pos + 1)),
            JsonToken::ObjectKey(key) => if pos + 1 >= toks.len() {
                None
            } else if key@ == "resourceType"@ {
                match toks[pos + 1] {
                    JsonToken::ValueNull => de_ub_fields(
                        toks,
                        pos + 2,
                        UsageBreakdown { resource_type: None, ..acc },
                    ),
                    JsonToken::ValueString(s) => de_ub_fields(
                        toks,
                        pos + 2,
                        UsageBreakdown { resource_type: Some(ResourceType { value: s }), ..acc },
                    ),
                    _ => None,
                }
            } else if key@ == "currentUsage"@ {
                match toks[pos + 1] {
                    JsonToken::ValueNull => de_ub_fields(
                        toks,
                        pos + 2,
                        UsageBreakdown { current_usage: None, ..acc },
                    ),
                    JsonToken::ValueNumber(n) => match num_to_i32(n) {
                        Some(v) => de_ub_fields(
                            toks,
                            pos + 2,
                            UsageBreakdown { current_usage: Some(v), ..acc },
                        ),
                        None => None,
                    },
                    _ => None,
                }
            } else if key@ == "currentOverages"@ {
                match toks[pos + 1] {
                    JsonToken::ValueNull => de_ub_fields(
                        toks,
                        pos + 2,
                        UsageBreakdown { current_overages: None, ..acc },
                    ),
                    JsonToken::ValueNumber(n) => match num_to_i32(n) {
                        Some(v) => de_ub_fields(
                            toks,
                            pos + 2,
                            UsageBreakdown { current_overages: Some(v), ..acc },
                        ),
                        None => None,
                    },
                    _ => None,
                }
            } else if key@ == "usageLimit"@ {
                match toks[pos + 1] {
                    JsonToken::ValueNull => de_ub_fields(
                        toks,
                        pos + 2,
                        UsageBreakdown { usage_limit: None, ..acc },
                    ),
                    JsonToken::ValueNumber(n) => match num_to_i32(n) {
                        Some(v) => de_ub_fields(
                            toks,
                            pos + 2,
                            UsageBreakdown { usage_limit: Some(v), ..acc },
                        ),
                        None => None,
                    },
                    _ => None,
                }
            } else if key@ == "unit"@ {
                match toks[pos + 1] {
                    JsonToken::ValueNull => de_ub_fields(
                        toks,
                        pos + 2,
                        UsageBreakdown { unit: None, ..acc },
                    ),
                    JsonToken::ValueString(s) => de_ub_fields(
                        toks,
                        pos + 2,
                        UsageBreakdown { unit: Some(s), ..acc },
                    ),
                    _ => None,
                }
            } else if key@ == "overageCharges"@ || key@ == "overageRate"@ {
                match toks[pos + 1] {
                    JsonToken::ValueNull => de_ub_fields(toks, pos + 2, acc),
                    JsonToken::ValueNumber(n) => de_ub_fields(toks, pos + 2, acc),
                    _ => None,
                }
            } else if key@ == "currency"@ {
                match toks[pos + 1] {
                    JsonToken::ValueNull => de_ub_fields(
                        toks,
                        pos + 2,
                        UsageBreakdown { currency: None, ..acc },
                    ),
                    JsonToken::ValueString(s) => de_ub_fields(
                        toks,
                        pos + 2,
                        UsageBreakdown { currency: Some(Currency { value: s }), ..acc },
                    ),
                    _ => None,
                }
            } else if key@ == "nextDateReset"@ {
                match toks[pos + 1] {
                    JsonToken::ValueNull => de_ub_fields(
                        toks,
                        pos + 2,
                        UsageBreakdown { next_date_reset: None, ..acc },
                    ),
                    JsonToken::ValueNumber(n) => match num_to_epoch_seconds(n) {
                        Some(v) => de_ub_fields(
                            toks,
                            pos + 2,
                            UsageBreakdown { next_date_reset: Some(v), ..acc },
                        ),
                        None => None,
                    },
                    _ => None,
                }
            } else if key@ == "overageCap"@ {
                match toks[pos + 1] {
                    JsonToken::ValueNull => de_ub_fields(
                        toks,
                        pos + 2,
                        UsageBreakdown { overage_cap: None, ..acc },
                    ),
                    JsonToken::ValueNumber(n) => match num_to_i32(n) {
                        Some(v) => de_ub_fields(
                            toks,
                            pos + 2,
                            UsageBreakdown { overage_cap: Some(v), ..acc },
                        ),
                        None => None,
                    },
                    _ => None,
                }
            } else if key@ == "freeTrialInfo"@ {
                match de_free_trial_info_spec(toks, pos + 1) {
                    Some((fti, p2)) => de_ub_fields(
                        toks,
                        p2,
                        UsageBreakdown { free_trial_info: fti, ..acc },
                    ),
                    None => None,
                }
            } else {
                match skip_scan(toks, pos + 1, 0) {
                    Some(p2) => de_ub_fields(toks, p2, acc),
                    None => None,
                }
            },
            _ => None,
        }
    }
}

#[via_fn]
proof fn de_ub_fields_decreases(toks: Seq<JsonToken>, pos: int, acc: UsageBreakdown) {
    lemma_skip_scan_progress(toks, pos + 1, 0);
    lemma_de_free_trial_info_spec_progress(toks, pos + 1);
}

/// Reading a free-trial value always moves forward and stays within the
/// stream.
proof fn lemma_de_free_trial_info_spec_progress(toks: Seq<JsonToken>, pos: int)
    ensures
        de_free_trial_info_spec(toks, pos) matches Some(vp) ==> pos < vp.1 <= toks.len(),
    decreases toks.len() - pos,
{
    if 0 <= pos < toks.len() {
        lemma_de_fti_fields_progress(
            toks,
            pos + 1,
            FreeTrialInfo {
                free_trial_status: None,
                free_trial_expiry: None,
                current_usage: None,
                usage_limit: None,
            },
        );
    }
}

/// The free-trial field loop always moves forward and stays within the
/// stream.
proof fn lemma_de_fti_fields_progress(toks: Seq<JsonToken>, pos: int, acc: FreeTrialInfo)
    ensures
        de_fti_fields(toks, pos, acc) matches Some(vp) ==> pos < vp.1 <= toks.len(),
    decreases toks.len() - pos,
{
    if 0 <= pos < toks.len() {
        match toks[pos] {
            JsonToken::ObjectKey(key) => {
                if pos + 1 < toks.len() {
                    lemma_skip_scan_progress(toks, pos + 1, 0);
                    match skip_scan(toks, pos + 1, 0) {
                        Some(p2) => {
                            lemma_de_fti_fields_progress(toks, p2, acc);
                        },
                        None => {},
                    }
                    match toks[pos + 1] {
                        JsonToken::ValueNull => {
                            lemma_de_fti_fields_progress(
                                toks,
                                pos + 2,
                                FreeTrialInfo { free_trial_status: None, ..acc },
                            );
                            lemma_de_fti_fields_progress(
                                toks,
                                pos + 2,
                                FreeTrialInfo { free_trial_expiry: None, ..acc },
                            );
                            lemma_de_fti_fields_progress(
                                toks,
                                pos + 2,
                                FreeTrialInfo { current_usage: None, ..acc },
                            );
                            lemma_de_fti_fields_progress(
                                toks,
                                pos + 2,
                                FreeTrialInfo { usage_limit: None, ..acc },
                            );
                        },
                        JsonToken::ValueString(sv) => {
                            lemma_de_fti_fields_progress(
                                toks,
                                pos + 2,
                                FreeTrialInfo {
                                    free_trial_status: Some(FreeTrialStatus { value: sv }),
                                    ..acc
                                },
                            );
                        },
                        JsonToken::ValueNumber(n) => {
                            match num_to_epoch_seconds(n) {
                                Some(v) => {
                                    lemma_de_fti_fields_progress(
                                        toks,
                                        pos + 2,
                                        FreeTrialInfo { free_trial_expiry: Some(v), ..acc },
                                    );
                                },
                                None => {},
                            }
                            match num_to_i32(n) {
                                Some(v) => {
                                    lemma_de_fti_fields_progress(
                                        toks,
                                        pos + 2,
                                        FreeTrialInfo { current_usage: Some(v), ..acc },
                                    );
                                    lemma_de_fti_fields_progress(
                                        toks,
                                        pos + 2,
                                        FreeTrialInfo { usage_limit: Some(v), ..acc },
                                    );
                                },
                                None => {},
                            }
                        },
                        _ => {},
                    }
                }
            },
            _ => {},
        }
    }
}

/// The whole usage-breakdown value: null, or an object of fields.
pub open spec fn de_usage_breakdown_spec(toks: Seq<JsonToken>, pos: int) -> Option<
    (Option<UsageBreakdown>, int),
> {
    if pos < 0 || pos >= toks.len() {
        None
    } else {
        match toks[pos] {
            JsonToken::ValueNull => Some((None, pos + 1)),
            JsonToken::StartObject => match de_ub_fields(toks, pos + 1, empty_usage_breakdown()) {
                Some((ub, p)) => Some((Some(ub), p)),
                None => None,
            },
            _ => None,
        }
    }
}

fn de_usage_breakdown_fields(toks: &Vec<JsonToken>, pos: usize, acc: UsageBreakdown) -> (r: Result<
    (UsageBreakdown, usize),
    DeserializeError,
>)
    ensures
        match r {
            Ok((ub, p)) => de_ub_fields(toks@, pos as int, acc) == Some((ub, p as int)) && pos < p
                <= toks@.len(),
            Err(_) => de_ub_fields(toks@, pos as int, acc) is None,
        },
    decreases toks@.len() - pos,
{
    if pos >= toks.len() {
        return Err(de_error("expected object key or end object, found the end of the stream"));
    }
    match &toks[pos] {
        JsonToken::EndObject => Ok((acc, pos + 1)),
        JsonToken::ObjectKey(key) => {
            if pos + 1 >= toks.len() {
                return Err(de_error("expected a value, found the end of the stream"));
            }
            if text::str_eq(key.as_str(), "resourceType") {
                match &toks[pos + 1] {
                    JsonToken::ValueNull => de_usage_breakdown_fields(
                        toks,
                        pos + 2,
                        UsageBreakdown { resource_type: None, ..acc },
                    ),
                    JsonToken::ValueString(s) => de_usage_breakdown_fields(
                        toks,
                        pos + 2,
                        UsageBreakdown {
                            resource_type: Some(ResourceType { value: s.clone() }),
                            ..acc
                        },
                    ),
                    _ => Err(de_error("expected a string or null")),
                }
            } else if text::str_eq(key.as_str(), "currentUsage") {
                match &toks[pos + 1] {
                    JsonToken::ValueNull => de_usage_breakdown_fields(
                        toks,
                        pos + 2,
                        UsageBreakdown { current_usage: None, ..acc },
                    ),
                    JsonToken::ValueNumber(n) => match num_to_i32_exec(n) {
                        Some(v) => de_usage_breakdown_fields(
                            toks,
                            pos + 2,
                            UsageBreakdown { current_usage: Some(v), ..acc },
                        ),
                        None => Err(de_error("expected a 32-bit integer")),
                    },
                    _ => Err(de_error("expected a number or null")),
                }
            } else if text::str_eq(key.as_str(), "currentOverages") {
                match &toks[pos + 1] {
                    JsonToken::ValueNull => de_usage_breakdown_fields(
                        toks,
                        pos + 2,
                        UsageBreakdown { current_overages: None, ..acc },
                    ),
                    JsonToken::ValueNumber(n) => match num_to_i32_exec(n) {
                        Some(v) => de_usage_breakdown_fields(
                            toks,
                            pos + 2,
                            UsageBreakdown { current_overages: Some(v), ..acc },
                        ),
                        None => Err(de_error("expected a 32-bit integer")),
                    },
                    _ => Err(de_error("expected a number or null")),
                }
            } else if text::str_eq(key.as_str(), "usageLimit") {
                match &toks[pos + 1] {
                    JsonToken::ValueNull => de_usage_breakdown_fields(
                        toks,
                        pos + 2,
                        UsageBreakdown { usage_limit: None, ..acc },
                    ),
                    JsonToken::ValueNumber(n) => match num_to_i32_exec(n) {
                        Some(v) => de_usage_breakdown_fields(
                            toks,
                            pos + 2,
                            UsageBreakdown { usage_limit: Some(v), ..acc },
                        ),
                        None => Err(de_error("expected a 32-bit integer")),
                    },
                    _ => Err(de_error("expected a number or null")),
                }
            } else if text::str_eq(key.as_str(), "unit") {
                match &toks[pos + 1] {
                    JsonToken::ValueNull => de_usage_breakdown_fields(
                        toks,
                        pos + 2,
                        UsageBreakdown { unit: None, ..acc },
                    ),
                    JsonToken::ValueString(s) => de_usage_breakdown_fields(
                        toks,
                        pos + 2,
                        UsageBreakdown { unit: Some(s.clone()), ..acc },
                    ),
                    _ => Err(de_error("expected a string or null")),
                }
            } else if text::str_eq(key.as_str(), "overageCharges") || text::str_eq(
                key.as_str(),
                "overageRate",
            ) {
                match &toks[pos + 1] {
                    JsonToken::ValueNull => de_usage_breakdown_fields(toks, pos + 2, acc),
                    JsonToken::ValueNumber(n) => de_usage_breakdown_fields(toks, pos + 2, acc),
                    _ => Err(de_error("expected a number or null")),
                }
            } else if text::str_eq(key.as_str(), "currency") {
                match &toks[pos + 1] {
                    JsonToken::ValueNull => de_usage_breakdown_fields(
                        toks,
                        pos + 2,
                        UsageBreakdown { currency: None, ..acc },
                    ),
                    JsonToken::ValueString(s) => de_usage_breakdown_fields(
                        toks,
                        pos + 2,
                        UsageBreakdown { currency: Some(Currency { value: s.clone() }), ..acc },
                    ),
                    _ => Err(de_error("expected a string or null")),
                }
            } else if text::str_eq(key.as_str(), "nextDateReset") {
                match &toks[pos + 1] {
                    JsonToken::ValueNull => de_usage_breakdown_fields(
                        toks,
                        pos + 2,
                        UsageBreakdown { next_date_reset: None, ..acc },
                    ),
                    JsonToken::ValueNumber(n) => match num_to_epoch_seconds_exec(n) {
                        Some(v) => de_usage_breakdown_fields(
                            toks,
                            pos + 2,
                            UsageBreakdown { next_date_reset: Some(v), ..acc },
                        ),
                        None => Err(de_error("expected a whole timestamp")),
                    },
                    _ => Err(de_error("expected a number or null")),
                }
            } else if text::str_eq(key.as_str(), "overageCap") {
                match &toks[pos + 1] {
                    JsonToken::ValueNull => de_usage_breakdown_fields(
                        toks,
                        pos + 2,
                        UsageBreakdown { overage_cap: None, ..acc },
                    ),
                    JsonToken::ValueNumber(n) => match num_to_i32_exec(n) {
                        Some(v) => de_usage_breakdown_fields(
                            toks,
                            pos + 2,
                            UsageBreakdown { overage_cap: Some(v), ..acc },
                        ),
                        None => Err(de_error("expected a 32-bit integer")),
                    },
                    _ => Err(de_error("expected a number or null")),
                }
            } else if text::str_eq(key.as_str(), "freeTrialInfo") {
                match de_free_trial_info(toks, pos + 1) {
                    Ok((fti, p2)) => de_usage_breakdown_fields(
                        toks,
                        p2,
                        UsageBreakdown { free_trial_info: fti, ..acc },
                    ),
                    Err(e) => Err(e),
                }
            } else {
                match skip_value(toks, pos + 1) {
                    Ok(p2) => de_usage_breakdown_fields(toks, p2, acc),
                    Err(e) => Err(e),
                }
            }
        },
        _ => Err(de_error("expected object key or end object")),
    }
}

/// Reads a usage-breakdown value — null or an object — returning it with
/// the position after it.
pub fn de_usage_breakdown(toks: &Vec<JsonToken>, pos: usize) -> (r: Result<
    (Option<UsageBreakdown>, usize),
    DeserializeError,
>)
    ensures
        match r {
            Ok((v, p)) => de_usage_breakdown_spec(toks@, pos as int) == Some((v, p as int)) && pos
                < p <= toks@.len(),
            Err(_) => de_usage_breakdown_spec(toks@, pos as int) is None,
        },
{
    if pos >= toks.len() {
        return Err(de_error("expected start object or null, found the end of the stream"));
    }
    match &toks[pos] {
        JsonToken::ValueNull => Ok((None, pos + 1)),
        JsonToken::StartObject => {
            match de_usage_breakdown_fields(
                toks,
                pos + 1,
                UsageBreakdown {
                    resource_type: None,
                    current_usage: None,
                    current_overages: None,
                    usage_limit: None,
                    unit: None,
                    currency: None,
                    next_date_reset: None,
                    overage_cap: None,
                    free_trial_info: None,
                },
            ) {
                Ok((ub, p)) => Ok((Some(ub), p)),
                Err(e) => Err(e),
            }
        },
        _ => Err(de_error("expected start object or null")),
    }
}

/// The field loop of an overage-configuration object: the status token, and
/// nothing else it knows.
pub open spec fn de_oc_fields(toks: Seq<JsonToken>, pos: int, acc: Option<OverageStatus>) -> Option<
    (Option<OverageStatus>, int),
>
    decreases toks.len() - pos,
    via de_oc_fields_decreases
{
    if pos < 0 || pos >= toks.len() {
        None
    } else {
        match toks[pos] {
            JsonToken::EndObject => Some((acc, pos + 1)),
            JsonToken::ObjectKey(key) => if pos + 1 >= toks.len() {
                None
            } else if key@ == "overageStatus"@ {
                match toks[pos + 1] {
                    JsonToken::ValueNull => de_oc_fields(toks, pos + 2, None),
                    JsonToken::ValueString(s) => de_oc_fields(
                        toks,
                        pos + 2,
                        Some(OverageStatus { value: s }),
                    ),
                    _ => None,
                }
            } else {
                match skip_scan(toks, pos + 1, 0) {
                    Some(p2) => de_oc_fields(toks, p2, acc),
                    None => None,
                }
            },
            _ => None,
        }
    }
}

#[via_fn]
proof fn de_oc_fields_decreases(toks: Seq<JsonToken>, pos: int, acc: Option<OverageStatus>) {
    lemma_skip_scan_progress(toks, pos + 1, 0);
}

/// The whole overage-configuration value: null, or an object whose status
/// must be present for the shape to build.
pub open spec fn de_overage_configuration_spec(toks: Seq<JsonToken>, pos: int) -> Option<
    (Option<OverageConfiguration>, int),
> {
    if pos < 0 || pos >= toks.len() {
        None
    } else {
        match toks[pos] {
            JsonToken::ValueNull => Some((None, pos + 1)),
            JsonToken::StartObject => match de_oc_fields(toks, pos + 1, None) {
                Some((Some(status), p)) => Some(
                    (Some(OverageConfiguration { overage_status: status }), p),
                ),
                Some((None, p)) => None,
                None => None,
            },
            _ => None,
        }
    }
}

fn de_overage_configuration_fields(toks: &Vec<JsonToken>, pos: usize, acc: Option<OverageStatus>) -> (r: Result<
    (Option<OverageStatus>, usize),
    DeserializeError,
>)
    ensures
        match r {
            Ok((v, p)) => de_oc_fields(toks@, pos as int, acc) == Some((v, p as int)) && pos < p
                <= toks@.len(),
            Err(_) => de_oc_fields(toks@, pos as int, acc) is None,
        },
    decreases toks@.len() - pos,
{
    if pos >= toks.len() {
        return Err(de_error("expected object key or end object, found the end of the stream"));
    }
    match &toks[pos] {
        JsonToken::EndObject => Ok((acc, pos + 1)),
        JsonToken::ObjectKey(key) => {
            if pos + 1 >= toks.len() {
                return Err(de_error("expected a value, found the end of the stream"));
            }
            if text::str_eq(key.as_str(), "overageStatus") {
                match &toks[pos + 1] {
                    JsonToken::ValueNull => de_overage_configuration_fields(toks, pos + 2, None),
                    JsonToken::ValueString(s) => de_overage_configuration_fields(
                        toks,
                        pos + 2,
                        Some(OverageStatus { value: s.clone() }),
                    ),
                    _ => Err(de_error("expected a string or null")),
                }
            } else {
                match skip_value(toks, pos + 1) {
                    Ok(p2) => de_overage_configuration_fields(toks, p2, acc),
                    Err(e) => Err(e),
                }
            }
        },
        _ => Err(de_error("expected object key or end object")),
    }
}

/// Reads an overage-configuration value — null or an object — returning it
/// with the position after it; an object without a status is invalid.
pub fn de_overage_configuration(toks: &Vec<JsonToken>, pos: usize) -> (r: Result<
    (Option<OverageConfiguration>, usize),
    DeserializeError,
>)
    ensures
        match r {
            Ok((v, p)) => de_overage_configuration_spec(toks@, pos as int) == Some((v, p as int))
                && pos < p <= toks@.len(),
            Err(_) => de_overage_configuration_spec(toks@, pos as int) is None,
        },
{
    if pos >= toks.len() {
        return Err(de_error("expected start object or null, found the end of the stream"));
    }
    match &toks[pos] {
        JsonToken::ValueNull => Ok((None, pos + 1)),
        JsonToken::StartObject => {
            match de_overage_configuration_fields(toks, pos + 1, None) {
                Ok((Some(status), p)) => Ok(
                    (Some(OverageConfiguration { overage_status: status }), p),
                ),
                Ok((None, p)) => Err(de_error("Response was invalid")),
                Err(e) => Err(e),
            }
        },
        _ => Err(de_error("expected start object or null")),
    }
}

/// One character of a JSON string body, escaped as the emitted document
/// carries it.
pub open spec fn json_escaped_char(c: char) -> Seq<char> {
    if c == '"' {
        seq!['\\', '"']
    } else if c == '\\' {
        seq!['\\', '\\']
    } else if (c as u32) < 32 {
        seq!['\\', 'u', '0', '0', low_hex_char((c as u32 / 16) as int), low_hex_char(
            (c as u32 % 16) as int,
        )]
    } else {
        seq![c]
    }
}

/// The lowercase hexadecimal digit character of `d`, for `0 <= d < 16`.
pub open spec fn low_hex_char(d: int) -> char {
    if d == 0 {
        '0'
    } else if d == 1 {
        '1'
    } else if d == 2 {
        '2'
    } else if d == 3 {
        '3'
    } else if d == 4 {
        '4'
    } else if d == 5 {
        '5'
    } else if d == 6 {
        '6'
    } else if d == 7 {
        '7'
    } else if d == 8 {
        '8'
    } else if d == 9 {
        '9'
    } else if d == 10 {
        'a'
    } else if d == 11 {
        'b'
    } else if d == 12 {
        'c'
    } else if d == 13 {
        'd'
    } else if d == 14 {
        'e'
    } else {
        'f'
    }
}

/// A string body with every character escaped.
pub open spec fn json_escaped(s: Seq<char>) -> Seq<char>
    decreases s.len(),
{
    if s.len() == 0 {
        Seq::empty()
    } else {
        json_escaped_char(s[0]) + json_escaped(s.drop_first())
    }
}

fn low_hex_char_exec(d: u32) -> (r: char)
    requires
        d < 16,
    ensures
        r == low_hex_char(d as int),
{
    if d == 0 {
        '0'
    } else if d == 1 {
        '1'
    } else if d == 2 {
        '2'
    } else if d == 3 {
        '3'
    } else if d == 4 {
        '4'
    } else if d == 5 {
        '5'
    } else if d == 6 {
        '6'
    } else if d == 7 {
        '7'
    } else if d == 8 {
        '8'
    } else if d == 9 {
        '9'
    } else if d == 10 {
        'a'
    } else if d == 11 {
        'b'
    } else if d == 12 {
        'c'
    } else if d == 13 {
        'd'
    } else if d == 14 {
        'e'
    } else {
        'f'
    }
}

/// Appends the escaped body of `s` to `out`.
fn append_json_escaped(out: &mut String, s: &str)
    ensures
        final(out)@ == old(out)@ + json_escaped(s@),
{
    let n = s.unicode_len();
    let mut i: usize = 0;
    proof {
        assert(old(out)@ + json_escaped(s@.take(0)) =~= old(out)@);
    }
    while i < n
        invariant
            n == s@.len(),
            0 <= i <= n,
            out@ == old(out)@ + json_escaped(s@.take(i as int)),
        decreases n - i,
    {
        let c = s.get_char(i);
        let ghost pre = out@;
        if c == '"' {
            text::push_char(out, '\\');
            text::push_char(out, '"');
        } else if c == '\\' {
            text::push_char(out, '\\');
            text::push_char(out, '\\');
        } else if (c as u32) < 32 {
            text::push_char(out, '\\');
            text::push_char(out, 'u');
            text::push_char(out, '0');
            text::push_char(out, '0');
            text::push_char(out, low_hex_char_exec((c as u32) / 16));
            text::push_char(out, low_hex_char_exec((c as u32) % 16));
        } else {
            text::push_char(out, c);
        }
        proof {
            assert(out@ =~= pre + json_escaped_char(c));
            lemma_json_escaped_snoc(s@, i as int);
            assert(out@ =~= old(out)@ + json_escaped(s@.take(i + 1)));
        }
        i = i + 1;
    }
    proof {
        assert(s@.take(n as int) =~= s@);
    }
}

proof fn lemma_json_escaped_snoc(s: Seq<char>, i: int)
    requires
        0 <= i < s.len(),
    ensures
        json_escaped(s.take(i + 1)) =~= json_escaped(s.take(i)) + json_escaped_char(s[i]),
    decreases i,
{
    if i == 0 {
        assert(s.take(1) =~= seq![s[0]]);
        assert(seq![s[0]].drop_first() =~= Seq::<char>::empty());
        assert(json_escaped(Seq::<char>::empty()) =~= Seq::<char>::empty());
        assert(json_escaped(s.take(1)) =~= json_escaped_char(s[0]) + json_escaped(
            Seq::<char>::empty(),
        ));
        assert(json_escaped(s.take(0)) =~= Seq::<char>::empty());
        assert(json_escaped(s.take(0)) + json_escaped_char(s[0]) =~= json_escaped_char(s[0]));
        assert(json_escaped_char(s[0]) + json_escaped(Seq::<char>::empty()) =~= json_escaped_char(
            s[0],
        ));
    } else {
        assert(s.take(i + 1)[0] == s[0]);
        assert(s.take(i + 1).drop_first() =~= s.drop_first().take(i));
        assert(s.take(i)[0] == s[0]);
        assert(s.take(i).drop_first() =~= s.drop_first().take(i - 1));
        lemma_json_escaped_snoc(s.drop_first(), i - 1);
        assert(s.drop_first()[i - 1] == s[i]);
        assert(json_escaped(s.take(i + 1)) =~= json_escaped_char(s[0]) + json_escaped(
            s.drop_first().take(i),
        ));
        assert(json_escaped(s.take(i)) =~= json_escaped_char(s[0]) + json_escaped(
            s.drop_first().take(i - 1),
        ));
        assert(json_escaped(s.drop_first().take(i)) =~= json_escaped(s.drop_first().take(i - 1))
            + json_escaped_char(s[i]));
        assert((json_escaped_char(s[0]) + json_escaped(s.drop_first().take(i - 1)))
            + json_escaped_char(s[i]) =~= json_escaped_char(s[0]) + (json_escaped(
            s.drop_first().take(i - 1),
        ) + json_escaped_char(s[i])));
        assert(json_escaped(s.take(i + 1)) =~= json_escaped(s.take(i)) + json_escaped_char(s[i]));
    }
}

/// Writes the one field of an overage configuration into an open JSON
/// object: the key and the status token as an escaped string.
pub fn ser_overage_configuration(out: &mut String, input: &OverageConfiguration) -> (r: Result<
    (),
    String,
>)
    ensures
        r is Ok,
        final(out)@ == old(out)@ + "\"overageStatus\":\""@ + json_escaped(
            input.overage_status.value@,
        ) + "\""@,
{
    out.append("\"overageStatus\":\"");
    append_json_escaped(out, input.overage_status.value.as_str());
    out.append("\"");
    Ok(())
}

} // verus!
