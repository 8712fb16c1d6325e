//! The AWS environment summary shown before a double-checked aws operation:
//! profile, region and account id, with the exact text of the messages shown
//! when the id cannot be determined. Looking the id up runs the AWS CLI and
//! stays outside the library; validating and presenting what came back is
//! verified here.
use vstd::prelude::*;

use crate::text;

verus! {

/// AWS context information gathered from the current environment.
#[derive(Debug, Clone)]
pub struct AwsContext {
    /// Profile name, `default` when none was named.
    pub profile: String,
    /// Region name.
    pub region: String,
    /// Twelve-digit account id, when it could be determined.
    pub account_id: Option<String>,
}

/// Whether `s` has the shape of an AWS account id: exactly twelve ASCII
/// digits.
pub open spec fn valid_account_id(s: Seq<char>) -> bool {
    s.len() == 12 && forall|i: int| 0 <= i < s.len() ==> '0' <= #[trigger] s[i] && s[i] <= '9'
}

/// Whether `s` has the shape of an AWS account id.
pub fn account_id_is_valid(s: &str) -> (r: bool)
    ensures
        r == valid_account_id(s@),
{
    let n = s.unicode_len();
    if n != 12 {
        return false;
    }
    let mut i: usize = 0;
    while i < n
        invariant
            n == s@.len(),
            0 <= i <= n,
            forall|k: int| 0 <= k < i ==> '0' <= #[trigger] s@[k] && s@[k] <= '9',
        decreases n - i,
    {
        let c = s.get_char(i);
        if !('0' <= c && c <= '9') {
            return false;
        }
        i = i + 1;
    }
    true
}

/// The message reported when the account id lookup fails, chosen from the
/// CLI's error output.
pub open spec fn account_id_error_text(stderr: Seq<char>, profile: Seq<char>) -> Seq<char> {
    if text::seq_contains_seq(stderr, "Unable to locate credentials"@) {
        "AWS credentials not found for profile '"@ + profile
            + "'. Please configure your AWS credentials."@
    } else if text::seq_contains_seq(stderr, "The config profile"@) && text::seq_contains_seq(
        stderr,
        "could not be found"@,
    ) {
        "AWS profile '"@ + profile + "' not found. Please check your AWS configuration."@
    } else if text::seq_contains_seq(stderr, "No such file or directory"@) {
        "AWS CLI is not installed or not in PATH"@
    } else if text::seq_contains_seq(stderr, "ExpiredToken"@) {
        "AWS credentials have expired. Please refresh your credentials."@
    } else if text::seq_contains_seq(stderr, "AccessDenied"@) {
        "Access denied. Please check your AWS permissions."@
    } else {
        "AWS CLI command failed: "@ + stderr
    }
}

/// Chooses the message reported when the account id lookup fails, from what
/// the CLI printed on its error stream.
pub fn classify_account_id_error(stderr: &str, profile: &str) -> (r: String)
    ensures
        r@ == account_id_error_text(stderr@, profile@),
{
    let mut out = String::new();
    if text::contains_str(stderr, "Unable to locate credentials") {
        out.append("AWS credentials not found for profile '");
        out.append(profile);
        out.append("'. Please configure your AWS credentials.");
    } else if text::contains_str(stderr, "The config profile") && text::contains_str(
        stderr,
        "could not be found",
    ) {
        out.append("AWS profile '");
        out.append(profile);
        out.append("' not found. Please check your AWS configuration.");
    } else if text::contains_str(stderr, "No such file or directory") {
        out.append("AWS CLI is not installed or not in PATH");
    } else if text::contains_str(stderr, "ExpiredToken") {
        out.append("AWS credentials have expired. Please refresh your credentials.");
    } else if text::contains_str(stderr, "AccessDenied") {
        out.append("Access denied. Please check your AWS permissions.");
    } else {
        out.append("AWS CLI command failed: ");
        out.append(stderr);
    }
    out
}

impl AwsContext {
    /// Builds the context from the pieces the environment gave: the profile
    /// defaults to `default`, and the account id is whatever the lookup
    /// produced.
    pub fn new(profile: Option<String>, region: String, account_id: Option<String>) -> (r:
        AwsContext)
        ensures
            r.profile@ == match profile {
                Some(p) => p@,
                None => "default"@,
            },
            r.region == region,
            r.account_id == account_id,
    {
        let profile_name = match profile {
            Some(p) => p,
            None => {
                let mut d = String::new();
                d.append("default");
                d
            },
        };
        AwsContext { profile: profile_name, region, account_id }
    }

    /// Formats the AWS context information for display to the user.
    pub fn format_for_display(&self) -> (r: String)
        ensures
            r@ == "AWS Profile: "@ + self.profile@ + "\nAWS Region: "@ + self.region@ + "\n"@
                + match self.account_id {
                Some(id) => "AWS Account ID: "@ + id@,
                None => "AWS Account ID: Unable to determine (check AWS CLI configuration)"@,
            },
    {
        let mut out = String::new();
        out.append("AWS Profile: ");
        out.append(self.profile.as_str());
        out.append("\nAWS Region: ");
        out.append(self.region.as_str());
        out.append("\n");
        match &self.account_id {
            Some(id) => {
                out.append("AWS Account ID: ");
                out.append(id.as_str());
            },
            None => {
                out.append("AWS Account ID: Unable to determine (check AWS CLI configuration)");
            },
        }
        out
    }

    /// Returns a detailed error message for context detection failures.
    pub fn format_error_message(profile: &str, region: &str, error: &str) -> (r: String)
        ensures
            r@ == "Failed to gather AWS context information:\nProfile: "@ + profile@
                + "\nRegion: "@ + region@ + "\nError: "@ + error@
                + "\n\nThis may indicate:\n\u{2022} AWS CLI is not installed or not in PATH\n\u{2022} AWS credentials are not configured for this profile\n\u{2022} Network connectivity issues\n\u{2022} Insufficient permissions for AWS STS operations\n\nYou can still proceed with the operation, but please verify your AWS configuration manually."@,
    {
        let mut out = String::new();
        out.append("Failed to gather AWS context information:\nProfile: ");
        out.append(profile);
        out.append("\nRegion: ");
        out.append(region);
        out.append("\nError: ");
        out.append(error);
        out.append(
            "\n\nThis may indicate:\n\u{2022} AWS CLI is not installed or not in PATH\n\u{2022} AWS credentials are not configured for this profile\n\u{2022} Network connectivity issues\n\u{2022} Insufficient permissions for AWS STS operations\n\nYou can still proceed with the operation, but please verify your AWS configuration manually.",
        );
        out
    }
}

} // verus!
