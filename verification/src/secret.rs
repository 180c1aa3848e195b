//! The credential loader's data shapes and its parsing step.
//!
//! The caller reads the credential file and hands its text here;
//! `parse_secret` checks it against the `Secret` shape and either returns
//! the pair or says exactly why it cannot.

use vstd::prelude::*;

use crate::errors::ConfigReason;
use crate::json::{json_as_str, json_get, json_parse, json_str_fields, json_wf};

verus! {

/// The client id/secret pair read from the credential file.
pub struct Secret {
    pub client_id: String,
    pub client_secret: String,
}

/// A bare bearer-token shape. It mirrors a serializable credential record;
/// the workflow itself never stores one.
pub struct Credentials {
    pub access_token: String,
}

/// The raw shape of the token endpoint's response. The workflow receives
/// its token through the OAuth client instead, so this schema is only
/// documented here, never parsed into.
pub struct CredentialsResponse {
    pub access_token: String,
    pub expires_in: isize,
    pub token_type: String,
}

/// What parsing a credential text yields: the id and secret when the text
/// is a JSON object holding both as strings, and otherwise the reason the
/// loader stops.
pub open spec fn spec_parse_secret(s: Seq<char>) -> Result<(Seq<char>, Seq<char>), ConfigReason> {
    if !json_wf(s) {
        Err(ConfigReason::InvalidJson)
    } else if json_str_fields(s).contains_key("client_id"@)
        && json_str_fields(s).contains_key("client_secret"@) {
        Ok((json_str_fields(s)["client_id"@], json_str_fields(s)["client_secret"@]))
    } else {
        Err(ConfigReason::MissingOrMistypedField)
    }
}

/// Parse a credential text into a `Secret`.
///
/// The text must be a JSON object with string members `client_id` and
/// `client_secret`; no other format is accepted, and there are no default
/// values or partial successes.
pub fn parse_secret(text: &str) -> (r: Result<Secret, ConfigReason>)
    ensures
        match r {
            Ok(sec) => spec_parse_secret(text@) == Ok::<_, ConfigReason>(
                (sec.client_id@, sec.client_secret@),
            ),
            Err(e) => spec_parse_secret(text@) == Err::<(Seq<char>, Seq<char>), _>(e),
        },
{
    let parsed = match json_parse(text) {
        Some(v) => v,
        None => {
            return Err(ConfigReason::InvalidJson);
        },
    };
    let client_id = match json_get(&parsed, "client_id") {
        Some(field) => match json_as_str(field) {
            Some(s) => s,
            None => {
                return Err(ConfigReason::MissingOrMistypedField);
            },
        },
        None => {
            return Err(ConfigReason::MissingOrMistypedField);
        },
    };
    let client_secret = match json_get(&parsed, "client_secret") {
        Some(field) => match json_as_str(field) {
            Some(s) => s,
            None => {
                return Err(ConfigReason::MissingOrMistypedField);
            },
        },
        None => {
            return Err(ConfigReason::MissingOrMistypedField);
        },
    };
    Ok(Secret { client_id, client_secret })
}

} // verus!
