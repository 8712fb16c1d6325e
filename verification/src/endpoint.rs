//! Configuration parameters for resolving the service endpoint. The service
//! takes no parameters today, so building them cannot fail; the error shape
//! exists for the fields a later revision may require.
use vstd::prelude::*;

verus! {

/// Configuration parameters for resolving the correct endpoint.
#[derive(Debug, Clone, PartialEq, Eq, Structural)]
pub struct Params {}

impl Params {
    /// Create a builder for [`Params`].
    pub fn builder() -> (r: ParamsBuilder)
        ensures
            r == (ParamsBuilder {  }),
    {
        ParamsBuilder {  }
    }
}

/// Builder for [`Params`].
#[derive(Debug, Clone, PartialEq, Eq, Structural)]
pub struct ParamsBuilder {}

impl Default for ParamsBuilder {
    fn default() -> (r: ParamsBuilder)
        ensures
            r == (ParamsBuilder {  }),
    {
        ParamsBuilder {  }
    }
}

impl ParamsBuilder {
    /// Consume this builder, creating [`Params`]. No field is required, so
    /// this always succeeds.
    pub fn build(self) -> (r: Result<Params, InvalidParams>)
        ensures
            r matches Ok(p) && p == (Params {  }),
    {
        Ok(Params {  })
    }
}

/// An error that occurred during endpoint resolution: a required field was
/// missing.
#[derive(Debug)]
pub struct InvalidParams {
    pub field: String,
}

impl InvalidParams {
    /// The error for a missing required field.
    pub fn missing(field: &str) -> (r: InvalidParams)
        ensures
            r.field@ == field@,
    {
        InvalidParams { field: String::from_str(field) }
    }

    /// The message shown for this error.
    pub fn message(&self) -> (r: String)
        ensures
            r@ == "a required field was missing: `"@ + self.field@ + "`"@,
    {
        let mut out = String::new();
        out.append("a required field was missing: `");
        out.append(self.field.as_str());
        out.append("`");
        out
    }
}

} // verus!
