//! Why an operation on stored files failed.

use crate::http::status_number;
use crate::http::status_text;
use crate::http::status_words;
use crate::paths::path_shown;
use crate::paths::path_to_shown;
use crate::text::decimal;
use crate::text::decimal_text;
use vstd::prelude::*;

verus! {

/// Why an operation on stored files failed. A cause from outside is given in
/// words.
#[derive(Debug)]
pub enum OpenAiFileError {
    AuthRequired,
    UnsupportedAuthMode,
    AuthToken { source: String },
    MissingPath { path: std::path::PathBuf },
    NotAFile { path: std::path::PathBuf },
    ReadFile { path: std::path::PathBuf, source: String },
    FileTooLarge { path: std::path::PathBuf, size_bytes: u64, limit_bytes: u64 },
    RemoteFileTooLarge { file_id: String, size_bytes: u64, limit_bytes: u64 },
    InvalidFileReference { reference: String },
    Request { url: String, source: String },
    UnexpectedStatus { url: String, status: reqwest::StatusCode, body: String },
    Decode { url: String, source: String },
    UploadNotReady { file_id: String },
    UploadFailed { file_id: String, message: String },
    CreateDirectory { path: std::path::PathBuf, source: String },
    WriteFile { path: std::path::PathBuf, source: String },
}

/// What an error holds.
pub ghost enum FileError {
    AuthRequired,
    UnsupportedAuthMode,
    AuthToken { source: Seq<char> },
    MissingPath { path: std::path::PathBuf },
    NotAFile { path: std::path::PathBuf },
    ReadFile { path: std::path::PathBuf, source: Seq<char> },
    FileTooLarge { path: std::path::PathBuf, size_bytes: u64, limit_bytes: u64 },
    RemoteFileTooLarge { file_id: Seq<char>, size_bytes: u64, limit_bytes: u64 },
    InvalidFileReference { reference: Seq<char> },
    Request { url: Seq<char>, source: Seq<char> },
    UnexpectedStatus { url: Seq<char>, status: reqwest::StatusCode, body: Seq<char> },
    Decode { url: Seq<char>, source: Seq<char> },
    UploadNotReady { file_id: Seq<char> },
    UploadFailed { file_id: Seq<char>, message: Seq<char> },
    CreateDirectory { path: std::path::PathBuf, source: Seq<char> },
    WriteFile { path: std::path::PathBuf, source: Seq<char> },
}

impl View for OpenAiFileError {
    type V = FileError;

    open spec fn view(&self) -> FileError {
        match self {
            OpenAiFileError::AuthRequired => FileError::AuthRequired,
            OpenAiFileError::UnsupportedAuthMode => FileError::UnsupportedAuthMode,
            OpenAiFileError::AuthToken { source } => FileError::AuthToken { source: source@ },
            OpenAiFileError::MissingPath { path } => FileError::MissingPath { path: *path },
            OpenAiFileError::NotAFile { path } => FileError::NotAFile { path: *path },
            OpenAiFileError::ReadFile { path, source } => FileError::ReadFile {
                path: *path,
                source: source@,
            },
            OpenAiFileError::FileTooLarge { path, size_bytes, limit_bytes } =>
                FileError::FileTooLarge {
                path: *path,
                size_bytes: *size_bytes,
                limit_bytes: *limit_bytes,
            },
            OpenAiFileError::RemoteFileTooLarge { file_id, size_bytes, limit_bytes } =>
                FileError::RemoteFileTooLarge {
                file_id: file_id@,
                size_bytes: *size_bytes,
                limit_bytes: *limit_bytes,
            },
            OpenAiFileError::InvalidFileReference { reference } =>
                FileError::InvalidFileReference { reference: reference@ },
            OpenAiFileError::Request { url, source } => FileError::Request {
                url: url@,
                source: source@,
            },
            OpenAiFileError::UnexpectedStatus { url, status, body } =>
                FileError::UnexpectedStatus { url: url@, status: *status, body: body@ },
            OpenAiFileError::Decode { url, source } => FileError::Decode {
                url: url@,
                source: source@,
            },
            OpenAiFileError::UploadNotReady { file_id } => FileError::UploadNotReady {
                file_id: file_id@,
            },
            OpenAiFileError::UploadFailed { file_id, message } => FileError::UploadFailed {
                file_id: file_id@,
                message: message@,
            },
            OpenAiFileError::CreateDirectory { path, source } => FileError::CreateDirectory {
                path: *path,
                source: source@,
            },
            OpenAiFileError::WriteFile { path, source } => FileError::WriteFile {
                path: *path,
                source: source@,
            },
        }
    }
}

/// What came of an operation on stored files.
pub open spec fn result_view<T: View>(result: Result<T, OpenAiFileError>) -> Result<
    T::V,
    FileError,
> {
    match result {
        Ok(value) => Ok(value@),
        Err(error) => Err(error@),
    }
}

/// An error in words.
pub open spec fn error_words(error: FileError) -> Seq<char> {
    match error {
        FileError::AuthRequired =>
            "chatgpt authentication is required to use OpenAI file storage"@,
        FileError::UnsupportedAuthMode =>
            "chatgpt authentication is required to use OpenAI file storage; api key auth is not supported"@,
        FileError::AuthToken { source } =>
            "failed to read chatgpt auth token for OpenAI file storage: "@ + source,
        FileError::MissingPath { path } => "path `"@ + path_shown(path) + "` does not exist"@,
        FileError::NotAFile { path } => "path `"@ + path_shown(path) + "` is not a file"@,
        FileError::ReadFile { path, source } => "path `"@ + path_shown(path)
            + "` cannot be read: "@ + source,
        FileError::FileTooLarge { path, size_bytes, limit_bytes } => "file `"@ + path_shown(path)
            + "` is too large: "@ + decimal(size_bytes as nat) + " bytes exceeds the limit of "@
            + decimal(limit_bytes as nat) + " bytes"@,
        FileError::RemoteFileTooLarge { file_id, size_bytes, limit_bytes } => "file `"@ + file_id
            + "` is too large to download automatically: "@ + decimal(size_bytes as nat)
            + " bytes exceeds the limit of "@ + decimal(limit_bytes as nat) + " bytes"@,
        FileError::InvalidFileReference { reference } => "invalid OpenAI file reference `"@
            + reference + "`"@,
        FileError::Request { url, source } => "failed to send OpenAI file request to "@ + url
            + ": "@ + source,
        FileError::UnexpectedStatus { url, status, body } => "OpenAI file request to "@ + url
            + " failed with status "@ + status_words(status_number(status)) + ": "@ + body,
        FileError::Decode { url, source } => "failed to parse OpenAI file response from "@ + url
            + ": "@ + source,
        FileError::UploadNotReady { file_id } => "OpenAI file upload for `"@ + file_id
            + "` is not ready yet"@,
        FileError::UploadFailed { file_id, message } => "OpenAI file upload for `"@ + file_id
            + "` failed: "@ + message,
        FileError::CreateDirectory { path, source } => "failed to create temp directory `"@
            + path_shown(path) + "`: "@ + source,
        FileError::WriteFile { path, source } => "failed to write downloaded file to `"@
            + path_shown(path) + "`: "@ + source,
    }
}

/// Four pieces of text, one after the other.
fn words(a: &str, b: &str, c: &str, d: &str) -> (r: String)
    ensures
        r@ == a@ + b@ + c@ + d@,
{
    let mut r: String = a.to_owned();
    r.append(b);
    r.append(c);
    r.append(d);
    r
}

/// Seven pieces of text, one after the other, the fourth and the sixth of
/// them numbers.
fn size_words(a: &str, b: &str, c: &str, size: u64, e: &str, limit: u64, g: &str) -> (r: String)
    ensures
        r@ == a@ + b@ + c@ + decimal(size as nat) + e@ + decimal(limit as nat) + g@,
{
    let mut r: String = words(a, b, c, decimal_text(size).as_str());
    r.append(e);
    r.append(decimal_text(limit).as_str());
    r.append(g);
    r
}

impl OpenAiFileError {
    /// The error in words.
    pub fn message(&self) -> (r: String)
        ensures
            r@ == error_words(self@),
    {
        match self {
            OpenAiFileError::AuthRequired =>
                "chatgpt authentication is required to use OpenAI file storage".to_owned(),
            OpenAiFileError::UnsupportedAuthMode =>
                "chatgpt authentication is required to use OpenAI file storage; api key auth is not supported".to_owned(),
            OpenAiFileError::AuthToken { source } => {
                let mut r: String =
                    "failed to read chatgpt auth token for OpenAI file storage: ".to_owned();
                r.append(source.as_str());
                r
            },
            OpenAiFileError::MissingPath { path } => {
                let mut r: String = "path `".to_owned();
                r.append(path_to_shown(path).as_str());
                r.append("` does not exist");
                r
            },
            OpenAiFileError::NotAFile { path } => {
                let mut r: String = "path `".to_owned();
                r.append(path_to_shown(path).as_str());
                r.append("` is not a file");
                r
            },
            OpenAiFileError::ReadFile { path, source } => words(
                "path `",
                path_to_shown(path).as_str(),
                "` cannot be read: ",
                source.as_str(),
            ),
            OpenAiFileError::FileTooLarge { path, size_bytes, limit_bytes } => size_words(
                "file `",
                path_to_shown(path).as_str(),
                "` is too large: ",
                *size_bytes,
                " bytes exceeds the limit of ",
                *limit_bytes,
                " bytes",
            ),
            OpenAiFileError::RemoteFileTooLarge { file_id, size_bytes, limit_bytes } => size_words(
                "file `",
                file_id.as_str(),
                "` is too large to download automatically: ",
                *size_bytes,
                " bytes exceeds the limit of ",
                *limit_bytes,
                " bytes",
            ),
            OpenAiFileError::InvalidFileReference { reference } => {
                let mut r: String = "invalid OpenAI file reference `".to_owned();
                r.append(reference.as_str());
                r.append("`");
                r
            },
            OpenAiFileError::Request { url, source } => words(
                "failed to send OpenAI file request to ",
                url.as_str(),
                ": ",
                source.as_str(),
            ),
            OpenAiFileError::UnexpectedStatus { url, status, body } => {
                let mut r: String = words(
                    "OpenAI file request to ",
                    url.as_str(),
                    " failed with status ",
                    status_text(status).as_str(),
                );
                r.append(": ");
                r.append(body.as_str());
                r
            },
            OpenAiFileError::Decode { url, source } => words(
                "failed to parse OpenAI file response from ",
                url.as_str(),
                ": ",
                source.as_str(),
            ),
            OpenAiFileError::UploadNotReady { file_id } => {
                let mut r: String = "OpenAI file upload for `".to_owned();
                r.append(file_id.as_str());
                r.append("` is not ready yet");
                r
            },
            OpenAiFileError::UploadFailed { file_id, message } => words(
                "OpenAI file upload for `",
                file_id.as_str(),
                "` failed: ",
                message.as_str(),
            ),
            OpenAiFileError::CreateDirectory { path, source } => words(
                "failed to create temp directory `",
                path_to_shown(path).as_str(),
                "`: ",
                source.as_str(),
            ),
            OpenAiFileError::WriteFile { path, source } => words(
                "failed to write downloaded file to `",
                path_to_shown(path).as_str(),
                "`: ",
                source.as_str(),
            ),
        }
    }
}

} // verus!
