//! Finding the Codex executable that applies a patch, and the command that
//! has it do so.

use crate::paths::drive_like;
use crate::paths::ends_in_prefix;
use crate::paths::file_name_of;
use crate::paths::named_part;
use crate::paths::path_file_name;
use crate::paths::path_lossy;
use crate::paths::path_parts;
use crate::paths::path_renamed;
use crate::paths::path_to_text;
use crate::paths::path_with_file_name;
use crate::paths::plain_name;
use crate::paths::prefixless;
use crate::paths::same_prefix;
use crate::paths::without_file_name;
use crate::paths::PathPart;
use crate::text::joined;
use crate::text::same_text;
use crate::text::texts;
use crate::tools::apply_patch::request::ApplyPatchRequest;
use crate::tools::apply_patch::request::ApplyPatchRuntime;
use crate::tools::apply_patch::request::PermissionProfile;
use crate::tools::apply_patch::request::SandboxPermissions;
use vstd::prelude::*;
use vstd::utf8::encode_utf8;
use vstd::utf8::encode_utf8_decode_utf8;
use vstd::utf8::encode_utf8_valid_utf8;

verus! {

/// The argument with which the Codex executable applies the patch that
/// follows.
pub const CODEX_CORE_APPLY_PATCH_ARG1: &'static str = "--codex-run-as-apply-patch";

/// The platforms that name executables differently.
#[derive(Debug, Clone, Copy, PartialEq, Eq, Structural)]
pub enum Platform {
    Windows,
    Other,
}

/// Why the tool failed.
#[derive(Debug)]
pub enum ToolError {
    Rejected(String),
    Codex(String),
}

/// Where the search for the executable stands.
#[derive(Debug)]
pub enum ExeSearch {
    /// This is the one.
    Found(std::path::PathBuf),
    /// This one stands beside the configured one, if it is a file.
    BesideConfigured(std::path::PathBuf),
    /// The executable of this process is to be found out.
    AskCurrent,
    /// This one stands beside that of this process, if it is a file.
    BesideCurrent(std::path::PathBuf),
    /// There is none.
    NotFound,
}

/// The path names a Codex executable.
pub open spec fn names_codex_cli(path: std::path::PathBuf) -> bool {
    let name = file_name_of(path_parts(path));
    name == Some("codex"@) || name == Some("codex.exe"@)
}

/// What the Codex executable is called on the platform.
pub open spec fn codex_cli_name(platform: Platform) -> Seq<char> {
    match platform {
        Platform::Windows => "codex.exe"@,
        Platform::Other => "codex"@,
    }
}

/// The Codex executable that stands beside `path`.
pub open spec fn codex_cli_beside(
    path: std::path::PathBuf,
    platform: Platform,
) -> std::path::PathBuf {
    path_renamed(path, codex_cli_name(platform))
}

/// Where the search begins: with the configured executable, if that is a
/// Codex executable, else with the one beside it.
pub open spec fn search_start(
    codex_exe: Option<std::path::PathBuf>,
    platform: Platform,
) -> ExeSearch {
    match codex_exe {
        Some(exe) => if names_codex_cli(exe) {
            ExeSearch::Found(exe)
        } else {
            ExeSearch::BesideConfigured(codex_cli_beside(exe, platform))
        },
        None => ExeSearch::AskCurrent,
    }
}

/// Where the search stands once it is known whether the executable beside
/// another is a file.
pub open spec fn search_probed(search: ExeSearch, is_file: bool) -> ExeSearch {
    match search {
        ExeSearch::BesideConfigured(exe) => if is_file {
            ExeSearch::Found(exe)
        } else {
            ExeSearch::AskCurrent
        },
        ExeSearch::BesideCurrent(exe) => if is_file {
            ExeSearch::Found(exe)
        } else {
            ExeSearch::NotFound
        },
        other => other,
    }
}

/// Where the search stands once the executable of this process is known. On
/// Windows the one beside it is no candidate.
pub open spec fn search_current(current: std::path::PathBuf, platform: Platform) -> ExeSearch {
    if names_codex_cli(current) {
        ExeSearch::Found(current)
    } else {
        match platform {
            Platform::Windows => ExeSearch::NotFound,
            Platform::Other => ExeSearch::BesideCurrent(codex_cli_beside(current, platform)),
        }
    }
}

/// Whether `path` names a Codex executable.
pub fn is_codex_cli(path: &std::path::PathBuf) -> (r: bool)
    ensures
        r == names_codex_cli(*path),
{
    match path_file_name(path) {
        Some(name) => same_text(name.as_str(), "codex") || same_text(name.as_str(), "codex.exe"),
        None => false,
    }
}

proof fn lemma_codex_names_are_plain()
    ensures
        plain_name("codex"@),
        plain_name("codex.exe"@),
        !drive_like("codex"@),
        !drive_like("codex.exe"@),
{
    reveal_strlit("codex");
    reveal_strlit("codex.exe");
    reveal_strlit(".");
    reveal_strlit("..");
    assert("."@.len() == 1 && ".."@.len() == 2);
    assert("codex"@.len() == 5 && "codex.exe"@.len() == 9);
}

/// More than a prefix of the platform is left of `path` without its file name,
/// and `beside`, which stands beside it, begins with the same prefix.
pub open spec fn stands_plainly(path: std::path::PathBuf, beside: std::path::PathBuf) -> bool {
    !ends_in_prefix(without_file_name(path_parts(path))) && same_prefix(
        path_parts(beside),
        path_parts(path),
    )
}

/// The Codex executable that stands beside `path`, if it is a file. It names
/// a Codex executable wherever no prefix of the platform comes about.
pub fn resolve_adjacent_codex_cli(path: &std::path::PathBuf, platform: Platform) -> (r:
    std::path::PathBuf)
    ensures
        r == codex_cli_beside(*path, platform),
        stands_plainly(*path, r) ==> names_codex_cli(r),
{
    proof {
        lemma_codex_names_are_plain();
    }
    let r = match platform {
        Platform::Windows => path_with_file_name(path, "codex.exe"),
        Platform::Other => path_with_file_name(path, "codex"),
    };
    proof {
        let name = codex_cli_name(platform);
        encode_utf8_valid_utf8(name);
        encode_utf8_decode_utf8(name);
        if stands_plainly(*path, r) {
            assert(path_parts(r).last() == named_part(name));
        }
    }
    r
}

/// Begins the search for the Codex executable.
pub fn find_codex_cli(codex_exe: &Option<std::path::PathBuf>, platform: Platform) -> (r: ExeSearch)
    ensures
        r == search_start(*codex_exe, platform),
        r matches ExeSearch::BesideConfigured(exe) ==> stands_plainly(codex_exe->0, exe)
            ==> names_codex_cli(exe),
{
    match codex_exe {
        Some(exe) => if is_codex_cli(exe) {
            ExeSearch::Found(exe.clone())
        } else {
            ExeSearch::BesideConfigured(resolve_adjacent_codex_cli(exe, platform))
        },
        None => ExeSearch::AskCurrent,
    }
}

/// Takes what the executable of this process is, or why that cannot be told.
pub fn resolve_current_codex_cli(
    current: Result<std::path::PathBuf, String>,
    platform: Platform,
) -> (r: Result<ExeSearch, ToolError>)
    ensures
        current matches Ok(exe) ==> r == Ok::<ExeSearch, ToolError>(search_current(exe, platform)),
        current matches Err(reason) ==> (r matches Err(ToolError::Rejected(message)) && message@
            == "failed to determine codex exe: "@ + reason@),
        r matches Ok(ExeSearch::BesideCurrent(exe)) ==> stands_plainly(current->Ok_0, exe)
            ==> names_codex_cli(exe),
{
    match current {
        Ok(exe) => if is_codex_cli(&exe) {
            Ok(ExeSearch::Found(exe))
        } else {
            match platform {
                Platform::Windows => Ok(ExeSearch::NotFound),
                Platform::Other => Ok(
                    ExeSearch::BesideCurrent(resolve_adjacent_codex_cli(&exe, platform)),
                ),
            }
        },
        Err(reason) => Err(
            ToolError::Rejected(joined("failed to determine codex exe: ", reason.as_str())),
        ),
    }
}

impl ExeSearch {
    /// Takes whether the executable that the search stands at is a file.
    pub fn on_probed(self, is_file: bool) -> (r: ExeSearch)
        ensures
            r == search_probed(self, is_file),
    {
        match self {
            ExeSearch::BesideConfigured(exe) => if is_file {
                ExeSearch::Found(exe)
            } else {
                ExeSearch::AskCurrent
            },
            ExeSearch::BesideCurrent(exe) => if is_file {
                ExeSearch::Found(exe)
            } else {
                ExeSearch::NotFound
            },
            other => other,
        }
    }

    /// Takes what the executable of this process is. If that cannot be told,
    /// there is none.
    pub fn on_current(
        self,
        current: Result<std::path::PathBuf, String>,
        platform: Platform,
    ) -> (r: ExeSearch)
        ensures
            self is AskCurrent ==> r == (match current {
                Ok(exe) => search_current(exe, platform),
                Err(_) => ExeSearch::NotFound,
            }),
            !(self is AskCurrent) ==> r == self,
            self is AskCurrent ==> (r matches ExeSearch::BesideCurrent(exe) ==> stands_plainly(
                current->Ok_0,
                exe,
            ) ==> names_codex_cli(exe)),
    {
        match self {
            ExeSearch::AskCurrent => match resolve_current_codex_cli(current, platform) {
                Ok(search) => search,
                Err(_) => ExeSearch::NotFound,
            },
            other => other,
        }
    }
}

/// What a search finds out, of all that it may ask.
#[derive(Debug)]
pub struct ExeFindings {
    /// The one beside the configured executable is a file.
    pub beside_configured: bool,
    /// The executable of this process, or why it cannot be told.
    pub current: Result<std::path::PathBuf, String>,
    /// The one beside the executable of this process is a file.
    pub beside_current: bool,
}

/// The executable that a whole search comes to.
pub open spec fn found_exe(
    codex_exe: Option<std::path::PathBuf>,
    findings: ExeFindings,
    platform: Platform,
) -> Option<std::path::PathBuf> {
    match search_probed(search_start(codex_exe, platform), findings.beside_configured) {
        ExeSearch::Found(exe) => Some(exe),
        _ => match findings.current {
            Err(_) => None,
            Ok(own) => match search_probed(
                search_current(own, platform),
                findings.beside_current,
            ) {
                ExeSearch::Found(exe) => Some(exe),
                _ => None,
            },
        },
    }
}

/// The order of preference: a configured Codex executable, a file beside what
/// is configured, the executable of this process if it is a Codex executable,
/// and, but for Windows, a file beside that.
pub proof fn executables_are_preferred_in_order(
    codex_exe: Option<std::path::PathBuf>,
    findings: ExeFindings,
    platform: Platform,
)
    ensures
        ({
            let found = found_exe(codex_exe, findings, platform);
            let current = findings.current;
            if codex_exe matches Some(exe) && names_codex_cli(exe) {
                found == codex_exe
            } else if codex_exe is Some && findings.beside_configured {
                found == Some(codex_cli_beside(codex_exe->0, platform))
            } else if current matches Ok(own) && names_codex_cli(own) {
                found == Some(current->Ok_0)
            } else if platform == Platform::Other && current is Ok && findings.beside_current {
                found == Some(codex_cli_beside(current->Ok_0, platform))
            } else {
                found is None
            }
        }),
{
}

/// The executable that a whole search comes to, where everything is known
/// that it may ask. It names a Codex executable wherever paths have no
/// prefixes, and elsewhere too unless a prefix of the platform comes about.
pub fn search_codex_cli(
    codex_exe: &Option<std::path::PathBuf>,
    findings: ExeFindings,
    platform: Platform,
) -> (r: Option<std::path::PathBuf>)
    ensures
        r == found_exe(*codex_exe, findings, platform),
        r matches Some(exe) ==> prefixless() ==> names_codex_cli(exe),
        r matches Some(exe) ==> (*codex_exe matches Some(configured) ==> stands_plainly(
            configured,
            codex_cli_beside(configured, platform),
        )) && (findings.current matches Ok(own) ==> stands_plainly(
            own,
            codex_cli_beside(own, platform),
        )) ==> names_codex_cli(exe),
{
    proof {
        if prefixless() {
            assert forall|path: std::path::PathBuf, beside: std::path::PathBuf| #[trigger]
                stands_plainly(path, beside) by {
                lemma_stands_plainly(path, beside);
            }
        }
    }
    let search = find_codex_cli(codex_exe, platform).on_probed(findings.beside_configured);
    let search = search.on_current(findings.current, platform);
    match search.on_probed(findings.beside_current) {
        ExeSearch::Found(exe) => Some(exe),
        _ => None,
    }
}

proof fn lemma_stands_plainly(path: std::path::PathBuf, beside: std::path::PathBuf)
    requires
        prefixless(),
    ensures
        stands_plainly(path, beside),
{
    let a = path_parts(path);
    let b = path_parts(beside);
    let rest = without_file_name(a);
    assert(a.len() > 0 ==> !(a[0] is Prefix));
    assert(b.len() > 0 ==> !(b[0] is Prefix));
    assert(rest.len() > 0 ==> rest[rest.len() - 1] == a[rest.len() - 1]);
}

/// What is done with the output of a command.
#[derive(Debug, Clone, Copy, PartialEq, Eq, Structural)]
pub enum ExecCapturePolicy {
    ShellTool,
}

/// A command to be run.
#[derive(Debug)]
pub struct CommandSpec<'a> {
    pub program: String,
    pub args: Vec<String>,
    pub cwd: std::path::PathBuf,
    pub timeout_ms: Option<u64>,
    pub capture_policy: ExecCapturePolicy,
    pub env: Vec<(String, String)>,
    pub sandbox_permissions: SandboxPermissions,
    pub additional_permissions: Option<&'a PermissionProfile>,
    pub justification: Option<String>,
}

/// The command has `exe` apply the patch of the request, in the patch's
/// directory and in an empty environment.
pub open spec fn applies_patch_of(
    command: CommandSpec,
    request: ApplyPatchRequest,
    exe: std::path::PathBuf,
) -> bool {
    &&& command.program@ == path_lossy(exe)
    &&& texts(command.args@) == seq![CODEX_CORE_APPLY_PATCH_ARG1@, request.action.patch@]
    &&& command.cwd == request.action.cwd
    &&& command.timeout_ms == request.timeout_ms
    &&& command.capture_policy == ExecCapturePolicy::ShellTool
    &&& command.env@.len() == 0
    &&& command.sandbox_permissions == request.sandbox_permissions
    &&& command.additional_permissions is Some <==> request.additional_permissions is Some
    &&& command.additional_permissions matches Some(profile) ==> Some(*profile)
        == request.additional_permissions
    &&& command.justification is None
}

impl ApplyPatchRuntime {
    /// The command that has the executable which was found apply the patch;
    /// none if none was found.
    pub fn build_command_spec<'a>(
        req: &'a ApplyPatchRequest,
        exe: Option<std::path::PathBuf>,
    ) -> (r: Option<CommandSpec<'a>>)
        ensures
            r is Some <==> exe is Some,
            r matches Some(command) ==> applies_patch_of(command, *req, exe->0),
    {
        match exe {
            Some(exe) => {
                let mut args: Vec<String> = Vec::new();
                args.push(CODEX_CORE_APPLY_PATCH_ARG1.to_owned());
                args.push(req.action.patch.clone());
                assert(texts(args@) == seq![CODEX_CORE_APPLY_PATCH_ARG1@, req.action.patch@]);
                Some(
                    CommandSpec {
                        program: path_to_text(&exe),
                        args,
                        cwd: req.action.cwd.clone(),
                        timeout_ms: req.timeout_ms,
                        capture_policy: ExecCapturePolicy::ShellTool,
                        env: Vec::new(),
                        sandbox_permissions: req.sandbox_permissions,
                        additional_permissions: match &req.additional_permissions {
                            Some(profile) => Some(profile),
                            None => None,
                        },
                        justification: None,
                    },
                )
            },
            None => None,
        }
    }

    /// The command that has the Codex executable apply the patch, where
    /// everything is known that the search for it may ask: that of the first
    /// executable in the order of preference, none if there is none. The
    /// executable names a Codex executable wherever paths have no prefixes.
    pub fn find_command_spec<'a>(
        req: &'a ApplyPatchRequest,
        findings: ExeFindings,
        platform: Platform,
    ) -> (r: Option<CommandSpec<'a>>)
        ensures
            r is Some <==> found_exe(req.codex_exe, findings, platform) is Some,
            r matches Some(command) ==> {
                let exe = found_exe(req.codex_exe, findings, platform)->0;
                &&& applies_patch_of(command, *req, exe)
                &&& prefixless() ==> names_codex_cli(exe)
            },
    {
        let exe = search_codex_cli(&req.codex_exe, findings, platform);
        ApplyPatchRuntime::build_command_spec(req, exe)
    }
}

/// Whether a path is a Codex executable goes by its file name alone: that has
/// to be `codex` or `codex.exe`, on every platform; the one that stands beside
/// a path is called by the name of the platform.
pub proof fn executables_go_by_their_name(path: std::path::PathBuf, name: Seq<char>)
    ensures
        path_parts(path).len() > 0 && path_parts(path).last() == PathPart::Normal(encode_utf8(name))
            ==> (names_codex_cli(path) <==> name == "codex"@ || name == "codex.exe"@),
        path_parts(path).len() > 0 && !(path_parts(path).last() is Normal) ==> !names_codex_cli(
            path,
        ),
        path_parts(path).len() == 0 ==> !names_codex_cli(path),
        codex_cli_beside(path, Platform::Windows) == path_renamed(path, "codex.exe"@),
        codex_cli_beside(path, Platform::Other) == path_renamed(path, "codex"@),
{
    encode_utf8_valid_utf8(name);
    encode_utf8_decode_utf8(name);
}

/// A search takes the first that will do of these: what is configured, if it
/// is called `codex` or `codex.exe`; what stands beside that and is a file; the
/// executable of this process, if it is so called; and, but for Windows, what
/// stands beside that and is a file.
pub proof fn searches_take_the_first_that_will_do(
    codex_exe: Option<std::path::PathBuf>,
    findings: ExeFindings,
    platform: Platform,
)
    ensures
        ({
            let found = found_exe(codex_exe, findings, platform);
            let name = if platform == Platform::Windows {
                "codex.exe"@
            } else {
                "codex"@
            };
            let fits = |path: std::path::PathBuf|
                file_name_of(path_parts(path)) == Some("codex"@) || file_name_of(path_parts(path))
                    == Some("codex.exe"@);
            let configured_fits = codex_exe is Some && fits(codex_exe->0);
            let beside_configured = codex_exe is Some && findings.beside_configured;
            let current_fits = findings.current is Ok && fits(findings.current->Ok_0);
            let beside_current = findings.current is Ok && findings.beside_current && platform
                != Platform::Windows;
            &&& configured_fits ==> found == codex_exe
            &&& !configured_fits && beside_configured ==> found == Some(
                path_renamed(codex_exe->0, name),
            )
            &&& !configured_fits && !beside_configured && current_fits ==> found == Some(
                findings.current->Ok_0,
            )
            &&& !configured_fits && !beside_configured && !current_fits && beside_current ==> found
                == Some(path_renamed(findings.current->Ok_0, name))
            &&& !configured_fits && !beside_configured && !current_fits && !beside_current
                ==> found is None
        }),
{
}

/// A search goes step by step: it is over once something will do, and asks on
/// as long as nothing does.
pub proof fn searches_go_step_by_step(
    exe: std::path::PathBuf,
    platform: Platform,
    is_file: bool,
)
    ensures
        search_start(None, platform) == ExeSearch::AskCurrent,
        names_codex_cli(exe) ==> search_start(Some(exe), platform) == ExeSearch::Found(exe),
        names_codex_cli(exe) ==> search_current(exe, platform) == ExeSearch::Found(exe),
        !names_codex_cli(exe) ==> search_start(Some(exe), Platform::Windows)
            == ExeSearch::BesideConfigured(path_renamed(exe, "codex.exe"@)),
        !names_codex_cli(exe) ==> search_start(Some(exe), Platform::Other)
            == ExeSearch::BesideConfigured(path_renamed(exe, "codex"@)),
        !names_codex_cli(exe) ==> search_current(exe, Platform::Windows) == ExeSearch::NotFound,
        !names_codex_cli(exe) ==> search_current(exe, Platform::Other) == ExeSearch::BesideCurrent(
            path_renamed(exe, "codex"@),
        ),
        search_probed(ExeSearch::BesideConfigured(exe), true) == ExeSearch::Found(exe),
        search_probed(ExeSearch::BesideConfigured(exe), false) == ExeSearch::AskCurrent,
        search_probed(ExeSearch::BesideCurrent(exe), true) == ExeSearch::Found(exe),
        search_probed(ExeSearch::BesideCurrent(exe), false) == ExeSearch::NotFound,
        search_probed(ExeSearch::Found(exe), is_file) == ExeSearch::Found(exe),
        search_probed(ExeSearch::AskCurrent, is_file) == ExeSearch::AskCurrent,
        search_probed(ExeSearch::NotFound, is_file) == ExeSearch::NotFound,
{
}

/// A command that applies the patch of a request runs the executable with two
/// arguments, the patch as it is the second of them, where the patch is to be
/// applied, with the time and the permissions of the request, and hands no
/// environment on.
pub proof fn commands_hand_the_patch_on(
    command: CommandSpec,
    request: ApplyPatchRequest,
    exe: std::path::PathBuf,
)
    requires
        applies_patch_of(command, request, exe),
    ensures
        command.program@ == path_lossy(exe),
        command.args@.len() == 2,
        command.args@[0]@ == "--codex-run-as-apply-patch"@,
        command.args@[1]@ == request.action.patch@,
        command.cwd == request.action.cwd,
        command.timeout_ms == request.timeout_ms,
        command.capture_policy == ExecCapturePolicy::ShellTool,
        command.env@.len() == 0,
        command.sandbox_permissions == request.sandbox_permissions,
        match request.additional_permissions {
            Some(profile) => command.additional_permissions matches Some(handed) && *handed
                == profile,
            None => command.additional_permissions is None,
        },
        command.justification is None,
{
    let args = texts(command.args@);
    assert(args.len() == 2);
    assert(args[0] == command.args@[0]@);
    assert(args[1] == command.args@[1]@);
}

} // verus!
