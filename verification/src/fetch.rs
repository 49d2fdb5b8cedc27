//! The authenticated retrieval pipeline: building a bearer-authenticated
//! data request, the transparent-refresh gate, and the text/binary
//! handling of what comes back.
use vstd::prelude::*;

use crate::archive::{self, ArchiveError};
use crate::flow::LoginAction;
use crate::jsonio;
use crate::tokens::{token_expired, OAuth2TokenWrapper};
use crate::urls;

verus! {

/// A ready-to-send data request: the URL on the API host, the value of
/// the authorization header, and the query parameters.
#[derive(Debug, PartialEq, Eq)]
pub struct ApiRequest {
    pub url: String,
    pub bearer: String,
    pub params: Vec<(String, String)>,
}

/// Builds the bearer-authenticated GET for a data endpoint.
///
/// The pipeline must never send a request with an access token its own
/// expiry stamp calls expired: the caller checks `is_expired` (and
/// refreshes) first, and this precondition holds it to that.
pub fn build_api_request(
    token: &OAuth2TokenWrapper,
    endpoint: &str,
    params: Vec<(String, String)>,
    now: u64,
) -> (r: ApiRequest)
    requires
        !token_expired(*token, now),
    ensures
        r.url@ == urls::api_url_spec(endpoint@),
        r.bearer@ == urls::bearer_spec(token.oauth2_token.access_token@),
        r.params == params,
{
    ApiRequest {
        url: urls::build_api_url(endpoint),
        bearer: urls::bearer_header(token.oauth2_token.access_token.as_str()),
        params,
    }
}

/// The action of the transparent-refresh path: one more user-token
/// exchange, signed with the material retained from login. Its reply
/// goes through `parse_oauth2_response` to become the fresh wrapper.
pub fn refresh_action(
    consumer_key: &str,
    consumer_secret: &str,
    oauth_token: &str,
    oauth_token_secret: &str,
) -> (a: LoginAction)
    ensures
        a matches LoginAction::PostSigned {
            url,
            consumer_key: ck,
            consumer_secret: cs,
            token_key,
            token_secret,
        } && url@ == urls::exchange_url_spec() && ck@ == consumer_key@ && cs@ == consumer_secret@
            && (token_key matches Some(k) && k@ == oauth_token@) && (token_secret matches Some(s)
            && s@ == oauth_token_secret@),
{
    LoginAction::PostSigned {
        url: urls::exchange_url(),
        consumer_key: consumer_key.to_owned(),
        consumer_secret: consumer_secret.to_owned(),
        token_key: Some(oauth_token.to_owned()),
        token_secret: Some(oauth_token_secret.to_owned()),
    }
}

/// How the text path of a data response ends.
#[derive(Debug, PartialEq, Eq)]
pub enum TextOutcome {
    /// A file was asked for: write `pretty` to it.
    Saved { pretty: String },
    /// No file was asked for: the body stays available to the caller.
    Kept,
    /// A file was asked for but the body was empty: write nothing,
    /// succeed silently.
    EmptyBody,
    /// A file was asked for and the body is not a JSON object: a hard
    /// failure, since downstream consumers assume valid JSON.
    MalformedJson,
}

/// Decides the text path: when a file was asked for, the body is parsed
/// and re-rendered as pretty JSON, and a body that does not parse is a
/// hard failure rather than written as-is.
pub fn process_text_response(body: &str, save: bool) -> (r: TextOutcome)
    ensures
        match r {
            TextOutcome::Saved { pretty } => save && body@.len() > 0 && jsonio::json_pretty(body@)
                == Some(pretty@),
            TextOutcome::Kept => !save,
            TextOutcome::EmptyBody => save && body@.len() == 0,
            TextOutcome::MalformedJson => save && body@.len() > 0 && jsonio::json_pretty(body@)
                is None,
        },
{
    if !save {
        return TextOutcome::Kept;
    }
    if body.unicode_len() == 0 {
        return TextOutcome::EmptyBody;
    }
    match jsonio::json_pretty_object(body) {
        Some(pretty) => TextOutcome::Saved { pretty },
        None => TextOutcome::MalformedJson,
    }
}

/// How the binary path of a data response ends.
#[derive(Debug, PartialEq, Eq)]
pub enum BinaryOutcome {
    /// No file was asked for: binary data is dropped and the call
    /// reports failure.
    Discarded,
    /// Zero bytes arrived: nothing to extract, a warning rather than an
    /// error.
    Empty,
    /// The archive was opened and every member decompressed, in order.
    Extracted { members: Vec<(String, Vec<u8>)> },
    /// The archive could not be opened or a member could not be
    /// decompressed: a hard failure, and no member is handed out.
    ArchiveFailed { error: ArchiveError },
}

/// Decides the binary path: an empty download is only a warning, and a
/// nonempty one is a compressed archive whose members are all extracted
/// or none.
pub fn process_binary_response(data: &Vec<u8>, save: bool) -> (r: BinaryOutcome)
    ensures
        match r {
            BinaryOutcome::Discarded => !save,
            BinaryOutcome::Empty => save && data@.len() == 0,
            BinaryOutcome::Extracted { members } => {
                &&& save && data@.len() > 0
                &&& archive::zip_count(data@) == Some(members@.len() as int)
                &&& forall|i: int|
                    0 <= i < members@.len() ==> #[trigger] archive::zip_entry(data@, i) == Some(
                        (members@[i].0@, members@[i].1@),
                    )
            },
            BinaryOutcome::ArchiveFailed { error } => {
                &&& save && data@.len() > 0
                &&& match error {
                    ArchiveError::OpenFailed => archive::zip_count(data@) is None,
                    ArchiveError::ExtractFailed => archive::zip_count(data@) is Some
                        && exists|i: int|
                        0 <= i < archive::zip_count(data@)->Some_0 && #[trigger] archive::zip_entry(
                            data@,
                            i,
                        ) is None,
                }
            },
        },
{
    if !save {
        return BinaryOutcome::Discarded;
    }
    if data.len() == 0 {
        return BinaryOutcome::Empty;
    }
    match archive::extract_archive(data) {
        Ok(members) => BinaryOutcome::Extracted { members },
        Err(error) => BinaryOutcome::ArchiveFailed { error },
    }
}

} // verus!
