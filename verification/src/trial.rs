//! Free-trial facts reported by the subscription service: status, expiry and
//! usage counters. Timestamps are carried as epoch seconds; the status is a
//! service-defined token kept verbatim, so values the service adds later
//! survive a round trip.
use vstd::prelude::*;

verus! {

/// Status of the free trial for a customer, as the service names it.
#[derive(Debug, Clone)]
pub struct FreeTrialStatus {
    pub value: String,
}

impl FreeTrialStatus {
    /// Wraps the service's token verbatim.
    pub fn from(value: &str) -> (r: FreeTrialStatus)
        ensures
            r.value@ == value@,
    {
        FreeTrialStatus { value: String::from_str(value) }
    }

    pub fn as_str(&self) -> (r: &str)
        ensures
            r@ == self.value@,
    {
        self.value.as_str()
    }

    /// A copy that is provably equal to the original.
    pub fn duplicate(&self) -> (r: FreeTrialStatus)
        ensures
            r == *self,
    {
        FreeTrialStatus { value: self.value.clone() }
    }
}

/// Free-trial facts for one customer.
#[derive(Debug, Clone)]
pub struct FreeTrialInfo {
    /// Status of the free trial for this customer.
    pub free_trial_status: Option<FreeTrialStatus>,
    /// Unix timestamp of free trial expiry in seconds.
    pub free_trial_expiry: Option<i64>,
    /// Current free trial usage.
    pub current_usage: Option<i32>,
    /// Free trial usage limit.
    pub usage_limit: Option<i32>,
}

impl FreeTrialInfo {
    /// Status of the free trial for this customer.
    pub fn free_trial_status(&self) -> (r: Option<&FreeTrialStatus>)
        ensures
            match r {
                Some(v) => self.free_trial_status == Some(*v),
                None => self.free_trial_status is None,
            },
    {
        self.free_trial_status.as_ref()
    }

    /// Unix timestamp of free trial expiry in seconds.
    pub fn free_trial_expiry(&self) -> (r: Option<i64>)
        ensures
            r == self.free_trial_expiry,
    {
        self.free_trial_expiry
    }

    /// Current free trial usage.
    pub fn current_usage(&self) -> (r: Option<i32>)
        ensures
            r == self.current_usage,
    {
        self.current_usage
    }

    /// Free trial usage limit.
    pub fn usage_limit(&self) -> (r: Option<i32>)
        ensures
            r == self.usage_limit,
    {
        self.usage_limit
    }

    /// Creates a new builder-style object to manufacture a
    /// [`FreeTrialInfo`].
    pub fn builder() -> (r: FreeTrialInfoBuilder)
        ensures
            r.free_trial_status is None,
            r.free_trial_expiry is None,
            r.current_usage is None,
            r.usage_limit is None,
    {
        FreeTrialInfoBuilder {
            free_trial_status: None,
            free_trial_expiry: None,
            current_usage: None,
            usage_limit: None,
        }
    }
}

/// A builder for [`FreeTrialInfo`].
#[derive(Debug, Clone)]
pub struct FreeTrialInfoBuilder {
    pub free_trial_status: Option<FreeTrialStatus>,
    pub free_trial_expiry: Option<i64>,
    pub current_usage: Option<i32>,
    pub usage_limit: Option<i32>,
}

impl Default for FreeTrialInfoBuilder {
    fn default() -> (r: FreeTrialInfoBuilder)
        ensures
            r.free_trial_status is None,
            r.free_trial_expiry is None,
            r.current_usage is None,
            r.usage_limit is None,
    {
        FreeTrialInfoBuilder {
            free_trial_status: None,
            free_trial_expiry: None,
            current_usage: None,
            usage_limit: None,
        }
    }
}

impl FreeTrialInfoBuilder {
    /// Status of the free trial for this customer.
    pub fn free_trial_status(self, input: FreeTrialStatus) -> (r: FreeTrialInfoBuilder)
        ensures
            r.free_trial_status == Some(input),
            r.free_trial_expiry == self.free_trial_expiry,
            r.current_usage == self.current_usage,
            r.usage_limit == self.usage_limit,
    {
        FreeTrialInfoBuilder { free_trial_status: Some(input), ..self }
    }

    /// Status of the free trial for this customer.
    pub fn set_free_trial_status(self, input: Option<FreeTrialStatus>) -> (r: FreeTrialInfoBuilder)
        ensures
            r.free_trial_status == input,
            r.free_trial_expiry == self.free_trial_expiry,
            r.current_usage == self.current_usage,
            r.usage_limit == self.usage_limit,
    {
        FreeTrialInfoBuilder { free_trial_status: input, ..self }
    }

    /// Status of the free trial for this customer.
    pub fn get_free_trial_status(&self) -> (r: &Option<FreeTrialStatus>)
        ensures
            r == &self.free_trial_status,
    {
        &self.free_trial_status
    }

    /// Unix timestamp of free trial expiry in seconds.
    pub fn free_trial_expiry(self, input: i64) -> (r: FreeTrialInfoBuilder)
        ensures
            r.free_trial_expiry == Some(input),
            r.free_trial_status == self.free_trial_status,
            r.current_usage == self.current_usage,
            r.usage_limit == self.usage_limit,
    {
        FreeTrialInfoBuilder { free_trial_expiry: Some(input), ..self }
    }

    /// Unix timestamp of free trial expiry in seconds.
    pub fn set_free_trial_expiry(self, input: Option<i64>) -> (r: FreeTrialInfoBuilder)
        ensures
            r.free_trial_expiry == input,
            r.free_trial_status == self.free_trial_status,
            r.current_usage == self.current_usage,
            r.usage_limit == self.usage_limit,
    {
        FreeTrialInfoBuilder { free_trial_expiry: input, ..self }
    }

    /// Unix timestamp of free trial expiry in seconds.
    pub fn get_free_trial_expiry(&self) -> (r: &Option<i64>)
        ensures
            r == &self.free_trial_expiry,
    {
        &self.free_trial_expiry
    }

    /// Current free trial usage.
    pub fn current_usage(self, input: i32) -> (r: FreeTrialInfoBuilder)
        ensures
            r.current_usage == Some(input),
            r.free_trial_status == self.free_trial_status,
            r.free_trial_expiry == self.free_trial_expiry,
            r.usage_limit == self.usage_limit,
    {
        FreeTrialInfoBuilder { current_usage: Some(input), ..self }
    }

    /// Current free trial usage.
    pub fn set_current_usage(self, input: Option<i32>) -> (r: FreeTrialInfoBuilder)
        ensures
            r.current_usage == input,
            r.free_trial_status == self.free_trial_status,
            r.free_trial_expiry == self.free_trial_expiry,
            r.usage_limit == self.usage_limit,
    {
        FreeTrialInfoBuilder { current_usage: input, ..self }
    }

    /// Current free trial usage.
    pub fn get_current_usage(&self) -> (r: &Option<i32>)
        ensures
            r == &self.current_usage,
    {
        &self.current_usage
    }

    /// Free trial usage limit.
    pub fn usage_limit(self, input: i32) -> (r: FreeTrialInfoBuilder)
        ensures
            r.usage_limit == Some(input),
            r.free_trial_status == self.free_trial_status,
            r.free_trial_expiry == self.free_trial_expiry,
            r.current_usage == self.current_usage,
    {
        FreeTrialInfoBuilder { usage_limit: Some(input), ..self }
    }

    /// Free trial usage limit.
    pub fn set_usage_limit(self, input: Option<i32>) -> (r: FreeTrialInfoBuilder)
        ensures
            r.usage_limit == input,
            r.free_trial_status == self.free_trial_status,
            r.free_trial_expiry == self.free_trial_expiry,
            r.current_usage == self.current_usage,
    {
        FreeTrialInfoBuilder { usage_limit: input, ..self }
    }

    /// Free trial usage limit.
    pub fn get_usage_limit(&self) -> (r: &Option<i32>)
        ensures
            r == &self.usage_limit,
    {
        &self.usage_limit
    }

    /// Consumes the builder and constructs a [`FreeTrialInfo`].
    pub fn build(self) -> (r: FreeTrialInfo)
        ensures
            r.free_trial_status == self.free_trial_status,
            r.free_trial_expiry == self.free_trial_expiry,
            r.current_usage == self.current_usage,
            r.usage_limit == self.usage_limit,
    {
        FreeTrialInfo {
            free_trial_status: self.free_trial_status,
            free_trial_expiry: self.free_trial_expiry,
            current_usage: self.current_usage,
            usage_limit: self.usage_limit,
        }
    }
}

} // verus!
