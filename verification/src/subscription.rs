//! What the subscription service's answer means. The service reports
//! `ACTIVE` for a subscription that is set not to renew, `INACTIVE` for
//! none at all, and a conflict error for one with auto-renewal on, so the
//! descriptive status is derived here rather than read off the wire.
use vstd::prelude::*;

use crate::text;

verus! {

/// The descriptive subscription status shown to the user.
#[derive(Debug, Clone, Copy, PartialEq, Eq, Structural)]
pub enum ActualSubscriptionStatus {
    /// Paid for this month, auto-renewal on.
    Active,
    /// Paid for this month but cancelled.
    Expiring,
    /// Not paid for this month.
    NotSubscribed,
}

/// What the descriptive status is, from whether the account is an identity
/// center account and what the token-creation call produced: a status token
/// on success, or the service's error code on failure.
pub open spec fn subscription_status_spec(
    is_idc_user: bool,
    outcome: Result<String, Option<String>>,
) -> Result<ActualSubscriptionStatus, Option<String>> {
    if is_idc_user {
        Ok(ActualSubscriptionStatus::Active)
    } else {
        match outcome {
            Ok(status) => if status@ == "ACTIVE"@ {
                Ok(ActualSubscriptionStatus::Expiring)
            } else {
                Ok(ActualSubscriptionStatus::NotSubscribed)
            },
            Err(code) => match code {
                Some(c) => if text::seq_contains_seq(c@, "ConflictException"@) {
                    Ok(ActualSubscriptionStatus::Active)
                } else {
                    Err(Some(c))
                },
                None => Err(None),
            },
        }
    }
}

/// Derives the descriptive status. An identity center account is always
/// active; an `ACTIVE` answer means the subscription is expiring; any other
/// answer means none; a conflict error means active with auto-renewal; any
/// other failure is passed back.
pub fn subscription_status_of(is_idc_user: bool, outcome: Result<String, Option<String>>) -> (r:
    Result<ActualSubscriptionStatus, Option<String>>)
    ensures
        r == subscription_status_spec(is_idc_user, outcome),
{
    if is_idc_user {
        return Ok(ActualSubscriptionStatus::Active);
    }
    match outcome {
        Ok(status) => {
            if text::str_eq(status.as_str(), "ACTIVE") {
                Ok(ActualSubscriptionStatus::Expiring)
            } else {
                Ok(ActualSubscriptionStatus::NotSubscribed)
            }
        },
        Err(code) => match code {
            Some(c) => {
                if text::contains_str(c.as_str(), "ConflictException") {
                    Ok(ActualSubscriptionStatus::Active)
                } else {
                    Err(Some(c))
                }
            },
            None => Err(None),
        },
    }
}

} // verus!
