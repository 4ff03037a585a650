use vstd::prelude::*;

verus! {

/// A per-request failure of the crypto codec: the ciphertext was not valid
/// Base64, the cipher input was not made of whole blocks or carried an
/// impossible padding length, or the unpadded bytes were not UTF-8.
#[derive(Clone, Copy, Debug, PartialEq, Eq, Structural)]
pub enum CryptoError {
    DecodeError,
    DecryptError,
    EncodingError,
}

impl CryptoError {
    pub fn message(&self) -> (r: &'static str)
        ensures
            self is DecodeError ==> r@ == "malformed base64 data"@,
            self is DecryptError ==> r@ == "block decryption failed"@,
            self is EncodingError ==> r@ == "decrypted data is not valid UTF-8"@,
    {
        match self {
            CryptoError::DecodeError => "malformed base64 data",
            CryptoError::DecryptError => "block decryption failed",
            CryptoError::EncodingError => "decrypted data is not valid UTF-8",
        }
    }
}

/// A protocol-level failure of one remote call. Transport failures are
/// retried below this layer; every value of this type is surfaced up.
#[derive(Clone, Debug)]
pub enum ClientError {
    /// The HTTP status was not the success status; carries status and body.
    RemoteStatusError { status: u16, body: String },
    /// The envelope code was not the success code; carries code and body.
    RemoteApiError { code: i64, body: String },
    /// The body or the decrypted data did not have the expected shape.
    RemoteSchemaError { raw: String },
    /// The envelope data could not be decrypted.
    Crypto(CryptoError),
}

/// A per-image failure of the picture pipeline: the downloaded bytes did
/// not decode as an image, or the processed picture would not encode.
#[derive(Clone, Copy, Debug, PartialEq, Eq, Structural)]
pub enum ImageError {
    DecodeError,
    EncodeError,
}

/// A failure of a registry operation on the download manager.
#[derive(Clone, Copy, Debug, PartialEq, Eq, Structural)]
pub enum TaskError {
    /// A task for this chapter id already exists and is still active.
    ConflictError,
    /// No task for this chapter id is registered.
    NotFoundError,
    /// The chapter had no matching chapter info.
    UnknownChapter,
    /// The chapter cannot complete: not every image was downloaded.
    IncompleteChapter,
}

/// An error as it is shown to a caller of a command: a short title and the
/// full message chain.
#[derive(Clone, Debug)]
pub struct CommandError {
    pub err_title: String,
    pub err_message: String,
}

impl CommandError {
    /// Pairs a title with the message chain of the failure it reports.
    pub fn from(err_title: &str, err_message: String) -> (r: CommandError)
        ensures
            r.err_title@ == err_title@,
            r.err_message == err_message,
    {
        CommandError { err_title: err_title.to_owned(), err_message }
    }
}

} // verus!
