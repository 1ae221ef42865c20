//! Who may use the file storage, and requests made in their name.

use crate::http::header_views;
use crate::http::Body;
use crate::http::HttpBody;
use crate::http::HttpMethod;
use crate::http::HttpRequest;
use crate::http::Request;
use crate::openai_files::error::result_view;
use crate::openai_files::error::FileError;
use crate::openai_files::error::OpenAiFileError;
use crate::text::copy_opt;
use crate::text::opt_text;
use vstd::prelude::*;

verus! {

/// How long a request may take, in seconds.
pub const OPENAI_FILE_REQUEST_TIMEOUT_SECS: u64 = 60;

/// The credentials at hand.
#[derive(Debug)]
pub struct CodexAuth {
    /// They are those of a ChatGPT account, not an API key.
    pub chatgpt: bool,
    /// The access token, or why it cannot be read.
    pub token: Result<String, String>,
    pub account_id: Option<String>,
}

/// What credentials hold.
pub ghost struct Auth {
    pub chatgpt: bool,
    pub token: Result<Seq<char>, Seq<char>>,
    pub account_id: Option<Seq<char>>,
}

impl View for CodexAuth {
    type V = Auth;

    open spec fn view(&self) -> Auth {
        Auth {
            chatgpt: self.chatgpt,
            token: match self.token {
                Ok(token) => Ok(token@),
                Err(reason) => Err(reason@),
            },
            account_id: opt_text(self.account_id),
        }
    }
}

/// What optional credentials hold.
pub open spec fn opt_auth(auth: Option<&CodexAuth>) -> Option<Auth> {
    match auth {
        Some(a) => Some(a@),
        None => None,
    }
}

/// Why `auth` does not admit to the file storage, if it does not.
pub open spec fn auth_refusal(auth: Option<Auth>) -> Option<FileError> {
    match auth {
        None => Some(FileError::AuthRequired),
        Some(a) => if a.chatgpt {
            None
        } else {
            Some(FileError::UnsupportedAuthMode)
        },
    }
}

/// The credentials, if they admit to the file storage.
pub fn ensure_chatgpt_auth<'a>(auth: Option<&'a CodexAuth>) -> (r: Result<
    &'a CodexAuth,
    OpenAiFileError,
>)
    ensures
        r is Ok <==> auth_refusal(opt_auth(auth)) is None,
        r matches Ok(a) ==> Some(a) == auth,
        r matches Err(e) ==> auth_refusal(opt_auth(auth)) == Some(e@),
{
    match auth {
        None => Err(OpenAiFileError::AuthRequired),
        Some(auth) => if auth.chatgpt {
            Ok(auth)
        } else {
            Err(OpenAiFileError::UnsupportedAuthMode)
        },
    }
}

/// The headers that name the account.
pub open spec fn account_headers(account_id: Option<Seq<char>>) -> Seq<(Seq<char>, Seq<char>)> {
    match account_id {
        Some(id) => seq![("chatgpt-account-id"@, id)],
        None => Seq::empty(),
    }
}

/// The request to `url` in the name of `auth`, or why there can be none.
pub open spec fn request_of(
    auth: Auth,
    method: HttpMethod,
    url: Seq<char>,
    body: Body,
) -> Result<Request, FileError> {
    match auth.token {
        Ok(token) => Ok(
            Request {
                method,
                url,
                timeout_secs: OPENAI_FILE_REQUEST_TIMEOUT_SECS,
                bearer_token: Some(token),
                headers: account_headers(auth.account_id),
                body,
            },
        ),
        Err(source) => Err(FileError::AuthToken { source }),
    }
}

/// A request in the name of `auth`.
pub fn authorized_request(auth: &CodexAuth, method: HttpMethod, url: &str, body: HttpBody) -> (r:
    Result<HttpRequest, OpenAiFileError>)
    ensures
        result_view(r) == request_of(auth@, method, url@, body@),
{
    match &auth.token {
        Ok(token) => {
            let mut headers: Vec<(String, String)> = Vec::new();
            if let Some(id) = copy_opt(&auth.account_id) {
                headers.push(("chatgpt-account-id".to_owned(), id));
            }
            assert(header_views(headers@) == account_headers(opt_text(auth.account_id)));
            Ok(
                HttpRequest {
                    method,
                    url: url.to_owned(),
                    timeout_secs: OPENAI_FILE_REQUEST_TIMEOUT_SECS,
                    bearer_token: Some(token.clone()),
                    headers,
                    body,
                },
            )
        },
        Err(source) => Err(OpenAiFileError::AuthToken { source: source.clone() }),
    }
}

/// A request that needs no credentials.
pub open spec fn plain_request(method: HttpMethod, url: Seq<char>, body: Body) -> Request {
    Request {
        method,
        url,
        timeout_secs: OPENAI_FILE_REQUEST_TIMEOUT_SECS,
        bearer_token: None,
        headers: Seq::empty(),
        body,
    }
}

/// A request that needs no credentials.
pub fn anonymous_request(method: HttpMethod, url: &str, body: HttpBody) -> (r: HttpRequest)
    ensures
        r@ == plain_request(method, url@, body@),
{
    let headers: Vec<(String, String)> = Vec::new();
    assert(header_views(headers@) == Seq::<(Seq<char>, Seq<char>)>::empty());
    HttpRequest {
        method,
        url: url.to_owned(),
        timeout_secs: OPENAI_FILE_REQUEST_TIMEOUT_SECS,
        bearer_token: None,
        headers,
        body,
    }
}

} // verus!
