//! Token persistence: the refresh secret is kept in one file as a single
//! JSON string, with nothing else beside it.

use vstd::prelude::*;

verus! {

/// Path of the token file, relative to the working directory.
pub const TOKEN_FILE: &'static str = "refresh_token";

/// Why there is nothing to write to the token file.
#[derive(Clone, Debug, PartialEq, Eq)]
pub enum SaveError {
    /// The authorized client carries no refresh secret.
    MissingRefreshSecret,
    /// The secret could not be encoded; `reason` is the encoder's own
    /// description.
    Encoding { reason: String },
}

/// Mathematical value of a [`SaveError`].
pub enum SaveErrorModel {
    MissingRefreshSecret,
    Encoding { reason: Seq<char> },
}

impl View for SaveError {
    type V = SaveErrorModel;

    open spec fn view(&self) -> SaveErrorModel {
        match self {
            SaveError::MissingRefreshSecret => SaveErrorModel::MissingRefreshSecret,
            SaveError::Encoding { reason } => SaveErrorModel::Encoding { reason: reason@ },
        }
    }
}

impl SaveErrorModel {
    /// The description of the fault.
    pub open spec fn message(self) -> Seq<char> {
        match self {
            SaveErrorModel::MissingRefreshSecret => "New client should have a refresh token"@,
            SaveErrorModel::Encoding { reason } => reason,
        }
    }
}

impl SaveError {
    /// The description of the error.
    pub fn message(&self) -> (text: String)
        ensures
            text@ == self@.message(),
    {
        match self {
            SaveError::MissingRefreshSecret => "New client should have a refresh token".to_owned(),
            SaveError::Encoding { reason } => reason.clone(),
        }
    }
}

/// Why no refresh secret was loaded. Callers treat both alike: there is no
/// session to resume.
#[derive(Clone, Copy, Debug, PartialEq, Eq, Structural)]
pub enum LoadError {
    /// The token file is absent or could not be read.
    Unavailable,
    /// The token file does not hold exactly one JSON string.
    Malformed,
}

/// The JSON text that `serde_json` writes for the string `value`, as bytes,
/// or the display text of its error.
pub uninterp spec fn json_text(value: Seq<char>) -> Result<Seq<u8>, Seq<char>>;

/// The string that `serde_json` reads from the bytes `text`, if they are one
/// JSON string with nothing but whitespace around it.
pub uninterp spec fn json_string(text: Seq<u8>) -> Option<Seq<char>>;

/// Mathematical value of an encoder result.
pub open spec fn encoded_view(encoded: Result<Vec<u8>, String>) -> Result<Seq<u8>, Seq<char>> {
    match encoded {
        Ok(bytes) => Ok(bytes@),
        Err(reason) => Err(reason@),
    }
}

/// Serializes `value` with `serde_json::to_writer` into a vector of bytes.
/// Trusted: the bytes written are the ones that [`json_text`] names; an error
/// is handed on as its display text.
#[verifier::external_body]
fn encode_json_string(value: &str) -> (encoded: Result<Vec<u8>, String>)
    ensures
        encoded_view(encoded) == json_text(value@),
{
    let mut bytes: Vec<u8> = Vec::new();
    match serde_json::to_writer(&mut bytes, value) {
        Ok(()) => Ok(bytes),
        Err(error) => Err(error.to_string()),
    }
}

/// Deserializes a `String` from `text` with `serde_json::from_reader`, which
/// wants one JSON value followed by nothing but whitespace. Trusted: the
/// result is the one that [`json_string`] names; the error, which no caller
/// tells apart, is dropped.
#[verifier::external_body]
fn decode_json_string(text: &[u8]) -> (decoded: Option<String>)
    ensures
        decoded.deep_view() == json_string(text@),
{
    serde_json::from_reader::<&[u8], String>(text).ok()
}

/// What saving writes for a client whose token state holds `refresh_secret`.
pub open spec fn file_content(refresh_secret: Option<Seq<char>>) -> Result<
    Seq<u8>,
    SaveErrorModel,
> {
    match refresh_secret {
        None => Err(SaveErrorModel::MissingRefreshSecret),
        Some(secret) => match json_text(secret) {
            Ok(bytes) => Ok(bytes),
            Err(reason) => Err(SaveErrorModel::Encoding { reason }),
        },
    }
}

/// What loading makes of the token file, `None` standing for a file that is
/// absent or unreadable.
pub open spec fn stored_secret(file: Option<Seq<u8>>) -> Result<Seq<char>, LoadError> {
    match file {
        None => Err(LoadError::Unavailable),
        Some(bytes) => match json_string(bytes) {
            Some(secret) => Ok(secret),
            None => Err(LoadError::Malformed),
        },
    }
}

/// Mathematical value of what saving produced.
pub open spec fn content_view(content: Result<Vec<u8>, SaveError>) -> Result<
    Seq<u8>,
    SaveErrorModel,
> {
    match content {
        Ok(bytes) => Ok(bytes@),
        Err(error) => Err(error@),
    }
}

/// Mathematical value of what loading produced.
pub open spec fn secret_view(secret: Result<String, LoadError>) -> Result<Seq<char>, LoadError> {
    match secret {
        Ok(text) => Ok(text@),
        Err(error) => Err(error),
    }
}

/// Mathematical value of the token file as the caller read it.
pub open spec fn file_view(file: Option<&[u8]>) -> Option<Seq<u8>> {
    match file {
        Some(bytes) => Some(bytes@),
        None => None,
    }
}

/// The bytes to put in the token file for a freshly authorized client: its
/// refresh secret alone, as one JSON string. A client without a refresh
/// secret is an error.
pub fn token_file_content(refresh_secret: Option<&str>) -> (content: Result<Vec<u8>, SaveError>)
    ensures
        content_view(content) == file_content(refresh_secret.deep_view()),
{
    match refresh_secret {
        None => Err(SaveError::MissingRefreshSecret),
        Some(secret) => match encode_json_string(secret) {
            Ok(bytes) => Ok(bytes),
            Err(reason) => Err(SaveError::Encoding { reason }),
        },
    }
}

/// The refresh secret that the token file holds. `file` is the content of the
/// file, or `None` if it is absent or unreadable.
pub fn stored_refresh_secret(file: Option<&[u8]>) -> (secret: Result<String, LoadError>)
    ensures
        secret_view(secret) == stored_secret(file_view(file)),
{
    match file {
        None => Err(LoadError::Unavailable),
        Some(bytes) => match decode_json_string(bytes) {
            Some(secret) => Ok(secret),
            None => Err(LoadError::Malformed),
        },
    }
}

/// Loading gives back the secret that was saved wherever the decoder reads
/// back what the encoder wrote: the token file holds the encoder's bytes and
/// nothing else, and loading is the decoder's reading of the whole file.
pub proof fn load_inverts_save_where_decoding_inverts_encoding(
    secret: Seq<char>,
    content: Seq<u8>,
)
    requires
        json_text(secret) == Ok::<Seq<u8>, Seq<char>>(content),
        json_string(content) == Some(secret),
    ensures
        file_content(Some(secret)) == Ok::<Seq<u8>, SaveErrorModel>(content),
        stored_secret(Some(content)) == Ok::<Seq<char>, LoadError>(secret),
{
}

} // verus!
