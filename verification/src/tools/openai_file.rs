//! The tool that downloads a stored file on request.

use crate::openai_files::download::Downloaded;
use crate::openai_files::download::DownloadedOpenAiFile;
use crate::openai_files::error::error_words;
use crate::openai_files::error::result_view;
use crate::openai_files::error::FileError;
use crate::openai_files::error::OpenAiFileError;
use crate::openai_files::names::manual_scope;
use crate::openai_files::names::manual_scopes_are_plain;
use crate::openai_files::names::random_uuid;
use crate::openai_files::names::unique_manual_download_scope;
use crate::openai_files::reference::OPENAI_FILE_DOWNLOAD_LIMIT_BYTES;
use crate::paths::plain_relative;
use crate::text::opt_text;
use vstd::prelude::*;

verus! {

/// The tool that downloads a stored file on request.
#[derive(Debug)]
pub struct DownloadOpenAiFileHandler;

/// What kind of tool a handler serves.
#[derive(Debug, Clone, Copy, PartialEq, Eq, Structural)]
pub enum ToolKind {
    Function,
}

/// What a tool is called with.
#[derive(Debug)]
pub enum ToolPayload {
    Function { arguments: String },
    /// Anything that is not a function call.
    Other,
}

/// Why a call of a tool failed.
#[derive(Debug)]
pub enum FunctionCallError {
    /// The model is told.
    RespondToModel(String),
}

/// What the tool is called with, decoded.
#[derive(Debug)]
pub struct DownloadOpenAiFileArgs {
    pub file_id: String,
}

/// A download that is to be done.
#[derive(Debug)]
pub struct DownloadOrder {
    pub reference: String,
    pub scope: String,
    pub max_bytes: u64,
}

/// What the tool tells of a downloaded file.
#[derive(Debug)]
pub struct DownloadOpenAiFileResult {
    pub file_id: String,
    pub uri: String,
    pub file_name: String,
    pub mime_type: Option<String>,
    pub destination_path: std::path::PathBuf,
    pub bytes_written: u64,
}

/// What a tool gives back.
#[derive(Debug)]
pub struct FunctionToolOutput {
    pub body: String,
    pub success: Option<bool>,
}

/// What a download that is to be done holds.
pub ghost struct Order {
    pub reference: Seq<char>,
    pub scope: Seq<char>,
    pub max_bytes: u64,
}

impl View for FunctionCallError {
    type V = Seq<char>;

    /// What the model is told.
    open spec fn view(&self) -> Seq<char> {
        match self {
            FunctionCallError::RespondToModel(message) => message@,
        }
    }
}

impl View for DownloadOpenAiFileArgs {
    type V = Seq<char>;

    open spec fn view(&self) -> Seq<char> {
        self.file_id@
    }
}

impl View for DownloadOrder {
    type V = Order;

    open spec fn view(&self) -> Order {
        Order { reference: self.reference@, scope: self.scope@, max_bytes: self.max_bytes }
    }
}

impl View for DownloadOpenAiFileResult {
    type V = Downloaded;

    open spec fn view(&self) -> Downloaded {
        Downloaded {
            file_id: self.file_id@,
            uri: self.uri@,
            file_name: self.file_name@,
            mime_type: opt_text(self.mime_type),
            destination_path: self.destination_path,
            bytes_written: self.bytes_written,
        }
    }
}

impl View for FunctionToolOutput {
    type V = (Seq<char>, Option<bool>);

    open spec fn view(&self) -> (Seq<char>, Option<bool>) {
        (self.body@, self.success)
    }
}

/// What came of a step of a tool: a value, or what the model is told.
pub open spec fn call_view<T: View>(result: Result<T, FunctionCallError>) -> Result<
    T::V,
    Seq<char>,
> {
    match result {
        Ok(value) => Ok(value@),
        Err(error) => Err(error@),
    }
}

/// The arguments of a call, if it is one of a function.
pub open spec fn arguments_of(payload: ToolPayload) -> Result<Seq<char>, Seq<char>> {
    match payload {
        ToolPayload::Function { arguments } => Ok(arguments@),
        ToolPayload::Other => Err("download_openai_file handler received unsupported payload"@),
    }
}

/// The download that a call asks for, in the given scope.
pub open spec fn order_of(args: Result<Seq<char>, Seq<char>>, scope: Seq<char>) -> Result<
    Order,
    Seq<char>,
> {
    match args {
        Ok(file_id) => Ok(
            Order { reference: file_id, scope, max_bytes: OPENAI_FILE_DOWNLOAD_LIMIT_BYTES },
        ),
        Err(message) => Err(message),
    }
}

/// What the tool tells of a download.
pub open spec fn report_of(outcome: Result<Downloaded, FileError>) -> Result<
    Downloaded,
    Seq<char>,
> {
    match outcome {
        Ok(file) => Ok(file),
        Err(error) => Err(error_words(error)),
    }
}

impl FunctionToolOutput {
    /// An output of text.
    pub fn from_text(body: String, success: Option<bool>) -> (r: FunctionToolOutput)
        ensures
            r.body == body,
            r.success == success,
    {
        FunctionToolOutput { body, success }
    }
}

impl DownloadOpenAiFileHandler {
    /// The tool is a function.
    pub fn kind(&self) -> (r: ToolKind)
        ensures
            r == ToolKind::Function,
    {
        ToolKind::Function
    }

    /// Begins a call: its arguments are to be decoded.
    pub fn handle(&self, payload: ToolPayload) -> (r: Result<String, FunctionCallError>)
        ensures
            call_view(r) == arguments_of(payload),
    {
        match payload {
            ToolPayload::Function { arguments } => Ok(arguments),
            ToolPayload::Other => Err(
                FunctionCallError::RespondToModel(
                    "download_openai_file handler received unsupported payload".to_owned(),
                ),
            ),
        }
    }

    /// Takes the decoded arguments: the download that they ask for is to be
    /// done, in a scope of its own, which is a plain relative path.
    pub fn on_arguments(&self, args: Result<DownloadOpenAiFileArgs, FunctionCallError>) -> (r:
        Result<DownloadOrder, FunctionCallError>)
        ensures
            args is Ok ==> exists|uuid: Seq<char>| #[trigger]
                random_uuid(uuid) && call_view(r) == order_of(call_view(args), manual_scope(uuid)),
            args matches Err(error) ==> call_view(r) == Err::<Order, Seq<char>>(error@),
            r matches Ok(order) ==> plain_relative(order.scope@),
    {
        let args = match args {
            Ok(args) => args,
            Err(error) => {
                return Err(error);
            },
        };
        let scope = unique_manual_download_scope();
        let ghost uuid = choose|uuid: Seq<char>| #[trigger]
            random_uuid(uuid) && scope@ == manual_scope(uuid);
        proof {
            manual_scopes_are_plain(uuid);
        }
        let r = self.order_download(Ok(args), scope);
        assert(random_uuid(uuid) && call_view(r) == order_of(Ok(args@), manual_scope(uuid)));
        r
    }

    /// The download that the decoded arguments ask for, in the given scope.
    pub fn order_download(
        &self,
        args: Result<DownloadOpenAiFileArgs, FunctionCallError>,
        scope: String,
    ) -> (r: Result<DownloadOrder, FunctionCallError>)
        ensures
            call_view(r) == order_of(call_view(args), scope@),
    {
        match args {
            Ok(args) => Ok(
                DownloadOrder {
                    reference: args.file_id,
                    scope,
                    max_bytes: OPENAI_FILE_DOWNLOAD_LIMIT_BYTES,
                },
            ),
            Err(error) => Err(error),
        }
    }

    /// Takes what came of the download: what is told of it is to be encoded.
    pub fn on_downloaded(&self, outcome: Result<DownloadedOpenAiFile, OpenAiFileError>) -> (r:
        Result<DownloadOpenAiFileResult, FunctionCallError>)
        ensures
            call_view(r) == report_of(result_view(outcome)),
    {
        match outcome {
            Ok(downloaded) => Ok(
                DownloadOpenAiFileResult {
                    file_id: downloaded.file_id,
                    uri: downloaded.uri,
                    file_name: downloaded.file_name,
                    mime_type: downloaded.mime_type,
                    destination_path: downloaded.destination_path,
                    bytes_written: downloaded.bytes_written,
                },
            ),
            Err(error) => Err(FunctionCallError::RespondToModel(error.message())),
        }
    }

    /// Takes what came of the encoding.
    pub fn on_encoded(&self, body: Result<String, String>) -> (r: Result<
        FunctionToolOutput,
        FunctionCallError,
    >)
        ensures
            call_view(r) == (match body {
                Ok(body) => Ok::<(Seq<char>, Option<bool>), Seq<char>>((body@, Some(true))),
                Err(reason) => Err(reason@),
            }),
    {
        match body {
            Ok(body) => Ok(FunctionToolOutput::from_text(body, Some(true))),
            Err(reason) => Err(FunctionCallError::RespondToModel(reason)),
        }
    }
}

/// A call of the tool is a call of a function, whose arguments are taken as
/// they are; anything else is turned down.
pub proof fn calls_are_taken_as_they_are(payload: ToolPayload)
    ensures
        match payload {
            ToolPayload::Function { arguments } => arguments_of(payload) == Ok::<
                Seq<char>,
                Seq<char>,
            >(arguments@),
            ToolPayload::Other => arguments_of(payload) == Err::<Seq<char>, Seq<char>>(
                "download_openai_file handler received unsupported payload"@,
            ),
        },
{
}

/// What is ordered is the very file that the call names, in the given scope
/// and up to half a gibibyte; and where the arguments cannot be decoded, the
/// model is told why.
pub proof fn orders_are_for_the_file_that_was_named(
    args: Result<DownloadOpenAiFileArgs, FunctionCallError>,
    scope: Seq<char>,
)
    ensures
        match args {
            Ok(args) => order_of(call_view(Ok(args)), scope) == Ok::<Order, Seq<char>>(
                Order { reference: args.file_id@, scope, max_bytes: 0x2000_0000 },
            ),
            Err(FunctionCallError::RespondToModel(message)) => order_of(
                call_view(args),
                scope,
            ) == Err::<Order, Seq<char>>(message@),
        },
{
}

/// What is told of a download is what was downloaded, in every respect; and if
/// that failed, the model is told why, in the words of the error.
pub proof fn downloads_are_told_as_they_are(
    outcome: Result<DownloadedOpenAiFile, OpenAiFileError>,
    answer: Result<DownloadOpenAiFileResult, FunctionCallError>,
)
    requires
        call_view(answer) == report_of(result_view(outcome)),
    ensures
        match outcome {
            Ok(file) => {
                &&& answer matches Ok(result)
                &&& result.file_id@ == file.file_id@
                &&& result.uri@ == file.uri@
                &&& result.file_name@ == file.file_name@
                &&& result.mime_type is Some <==> file.mime_type is Some
                &&& result.mime_type is Some ==> result.mime_type->0@ == file.mime_type->0@
                &&& result.destination_path == file.destination_path
                &&& result.bytes_written == file.bytes_written
            },
            Err(error) => answer matches Err(FunctionCallError::RespondToModel(message))
                && message@ == error_words(error@),
        },
{
    match outcome {
        Ok(file) => {
            assert(report_of(result_view(outcome)) == Ok::<Downloaded, Seq<char>>(file@));
            assert(answer->Ok_0@ == file@);
            assert(opt_text(answer->Ok_0.mime_type) == opt_text(file.mime_type));
        },
        Err(_) => {},
    }
}

/// What the tool works on is seen as it is.
pub proof fn calls_are_seen_as_they_are(
    args: DownloadOpenAiFileArgs,
    order: DownloadOrder,
    told: DownloadOpenAiFileResult,
    output: FunctionToolOutput,
    error: FunctionCallError,
)
    ensures
        args@ == args.file_id@,
        order@.reference == order.reference@,
        order@.scope == order.scope@,
        order@.max_bytes == order.max_bytes,
        told@.file_id == told.file_id@,
        told@.uri == told.uri@,
        told@.file_name == told.file_name@,
        told@.mime_type is Some <==> told.mime_type is Some,
        told.mime_type is Some ==> told@.mime_type == Some(told.mime_type->0@),
        told@.destination_path == told.destination_path,
        told@.bytes_written == told.bytes_written,
        output@ == (output.body@, output.success),
        error matches FunctionCallError::RespondToModel(message) && error@ == message@,
        call_view(Ok(output)) == Ok::<(Seq<char>, Option<bool>), Seq<char>>(output@),
        call_view::<FunctionToolOutput>(Err(error)) == Err::<(Seq<char>, Option<bool>), Seq<char>>(
            error@,
        ),
{
}

} // verus!
