use codex_bridge::tools::apply_patch::approval::ApprovalContext;
use codex_bridge::tools::apply_patch::approval::ApprovalStart;
use codex_bridge::tools::apply_patch::approval::AskForApproval;
use codex_bridge::tools::apply_patch::approval::GranularApprovalConfig;
use codex_bridge::tools::apply_patch::approval::GuardianApprovalRequest;
use codex_bridge::tools::apply_patch::approval::SandboxablePreference;
use codex_bridge::tools::apply_patch::exe::find_codex_cli;
use codex_bridge::tools::apply_patch::exe::is_codex_cli;
use codex_bridge::tools::apply_patch::exe::resolve_adjacent_codex_cli;
use codex_bridge::tools::apply_patch::exe::resolve_current_codex_cli;
use codex_bridge::tools::apply_patch::exe::search_codex_cli;
use codex_bridge::tools::apply_patch::exe::ExeFindings;
use codex_bridge::tools::apply_patch::exe::ExecCapturePolicy;
use codex_bridge::tools::apply_patch::exe::ExeSearch;
use codex_bridge::tools::apply_patch::exe::Platform;
use codex_bridge::tools::apply_patch::exe::ToolError;
use codex_bridge::tools::apply_patch::plan::apply_patch_in_process;
use codex_bridge::tools::apply_patch::plan::display_path_relative_to_cwd;
use codex_bridge::tools::apply_patch::plan::sorted_paths;
use codex_bridge::tools::apply_patch::plan::FsStep;
use codex_bridge::tools::apply_patch::request::AbsolutePathBuf;
use codex_bridge::tools::apply_patch::request::ApplyPatchAction;
use codex_bridge::tools::apply_patch::request::ApplyPatchFileChange;
use codex_bridge::tools::apply_patch::request::ApplyPatchRequest;
use codex_bridge::tools::apply_patch::request::ApplyPatchRuntime;
use codex_bridge::tools::apply_patch::request::ExecApprovalRequirement;
use codex_bridge::tools::apply_patch::request::FileChange;
use codex_bridge::tools::apply_patch::request::PermissionProfile;
use codex_bridge::tools::apply_patch::request::SandboxPermissions;
use codex_bridge::tools::apply_patch::run::in_process_output;
use codex_bridge::tools::apply_patch::run::RunStep;
use std::collections::BTreeMap;
use std::path::PathBuf;
use std::time::Duration;

fn path(text: &str) -> PathBuf {
    PathBuf::from(text)
}

fn add(content: &str) -> ApplyPatchFileChange {
    ApplyPatchFileChange::Add { content: content.to_string() }
}

fn delete() -> ApplyPatchFileChange {
    ApplyPatchFileChange::Delete { content: "old".to_string() }
}

fn update(move_path: Option<&str>, new_content: &str) -> ApplyPatchFileChange {
    ApplyPatchFileChange::Update {
        unified_diff: "@@".to_string(),
        move_path: move_path.map(path),
        new_content: new_content.to_string(),
    }
}

fn request(changes: Vec<(&str, ApplyPatchFileChange)>) -> ApplyPatchRequest {
    ApplyPatchRequest {
        action: ApplyPatchAction {
            changes: changes.into_iter().map(|(p, change)| (path(p), change)).collect(),
            patch: "*** Begin Patch".to_string(),
            cwd: path("/work"),
        },
        file_paths: vec![
            AbsolutePathBuf { path: path("/work/a") },
            AbsolutePathBuf { path: path("/work/b") },
        ],
        changes: vec![(path("/work/a"), FileChange::Add { content: "x".to_string() })],
        exec_approval_requirement: ExecApprovalRequirement::NeedsApproval(Some("why".to_string())),
        sandbox_permissions: SandboxPermissions::WithAdditionalPermissions,
        additional_permissions: Some(PermissionProfile {
            network: Some(true),
            read: Vec::new(),
            write: vec![AbsolutePathBuf { path: path("/work") }],
        }),
        permissions_preapproved: false,
        timeout_ms: Some(1500),
        codex_exe: None,
    }
}

fn steps(changes: Vec<(&str, ApplyPatchFileChange)>) -> Vec<String> {
    apply_patch_in_process(&request(changes))
        .steps
        .iter()
        .map(|step| match step {
            FsStep::CreateDirAll(dir) => format!("mkdir {}", dir.display()),
            FsStep::WriteFile { path, content } => format!("write {} {content}", path.display()),
            FsStep::RemoveFile(file) => format!("remove {}", file.display()),
        })
        .collect()
}

fn context(guarded: bool, retry_reason: Option<&str>) -> ApprovalContext {
    ApprovalContext {
        call_id: "call_1".to_string(),
        retry_reason: retry_reason.map(str::to_string),
        guarded,
    }
}

/// Follows a search to its end.
fn search(
    codex_exe: Option<&str>,
    files: &[&str],
    current: Result<&str, &str>,
    platform: Platform,
) -> Option<PathBuf> {
    let is_file = |candidate: &PathBuf| files.iter().any(|file| path(file) == *candidate);
    let mut search = find_codex_cli(&codex_exe.map(path), platform);
    loop {
        search = match search {
            ExeSearch::Found(exe) => return Some(exe),
            ExeSearch::NotFound => return None,
            ExeSearch::BesideConfigured(exe) => {
                let found = is_file(&exe);
                ExeSearch::BesideConfigured(exe).on_probed(found)
            }
            ExeSearch::BesideCurrent(exe) => {
                let found = is_file(&exe);
                ExeSearch::BesideCurrent(exe).on_probed(found)
            }
            ExeSearch::AskCurrent => ExeSearch::AskCurrent
                .on_current(current.map(path).map_err(str::to_string), platform),
        };
    }
}

/// The files once a plan for the changes has been carried out.
fn applied(
    files: &[(&str, &str)],
    changes: Vec<(&str, ApplyPatchFileChange)>,
) -> BTreeMap<PathBuf, String> {
    let mut files: BTreeMap<PathBuf, String> =
        files.iter().map(|(p, content)| (path(p), content.to_string())).collect();
    for step in apply_patch_in_process(&request(changes)).steps {
        match step {
            FsStep::CreateDirAll(_) => {}
            FsStep::WriteFile { path, content } => {
                files.insert(path, content);
            }
            FsStep::RemoveFile(file) => {
                files.remove(&file);
            }
        }
    }
    files
}

#[test]
fn every_change_takes_effect_and_other_files_are_left_alone() {
    let files = applied(
        &[("/work/a", "1"), ("/work/b", "2"), ("/work/c", "3"), ("/work/d", "4")],
        vec![
            ("/work/new", add("n")),
            ("/work/b", delete()),
            ("/work/c", update(Some("/work/moved"), "m")),
            ("/work/a", update(None, "u")),
        ],
    );
    let wanted: BTreeMap<PathBuf, String> = [
        ("/work/a", "u"),
        ("/work/d", "4"),
        ("/work/moved", "m"),
        ("/work/new", "n"),
    ]
    .into_iter()
    .map(|(p, content)| (path(p), content.to_string()))
    .collect();
    assert_eq!(files, wanted);
}

#[test]
fn of_changes_that_share_a_file_the_later_path_counts() {
    let files = applied(
        &[("/work/a", "1"), ("/work/b", "2")],
        vec![("/work/b", delete()), ("/work/a", update(Some("/work/b"), "m"))],
    );
    assert!(files.is_empty());
}

#[test]
fn the_current_executable_settles_the_search_only_when_it_is_asked_for() {
    match ExeSearch::AskCurrent.on_current(Ok(path("/a/b")), Platform::Other) {
        ExeSearch::BesideCurrent(exe) => assert!(is_codex_cli(&exe)),
        other => panic!("unexpected search: {other:?}"),
    }
    assert!(matches!(
        ExeSearch::NotFound.on_current(Ok(path("/a/codex")), Platform::Other),
        ExeSearch::NotFound
    ));
}

#[test]
fn codex_executables_go_by_their_names() {
    assert!(is_codex_cli(&path("/bin/codex")));
    assert!(is_codex_cli(&path("codex.exe")));
    for other in ["/bin/codex2", "/codex/", "/codex/run", "/bin/Codex", "/", "/bin/codex/.."] {
        assert_eq!(is_codex_cli(&path(other)), other == "/codex/", "{other}");
    }
    assert_eq!(
        resolve_adjacent_codex_cli(&path("/opt/app/server"), Platform::Other),
        path("/opt/app/codex")
    );
    assert_eq!(
        resolve_adjacent_codex_cli(&path("/opt/app/server"), Platform::Windows),
        path("/opt/app/codex.exe")
    );
}

#[test]
fn executables_are_searched_in_order() {
    let other = Platform::Other;
    let files = ["/conf/codex", "/cur/codex"];
    let found = |exe: &str| Some(path(exe));
    assert_eq!(search(Some("/x/codex"), &files, Ok("/cur/codex"), other), found("/x/codex"));
    assert_eq!(search(Some("/conf/ide"), &files, Ok("/own/codex"), other), found("/conf/codex"));
    assert_eq!(search(Some("/none/ide"), &files, Ok("/own/codex"), other), found("/own/codex"));
    assert_eq!(search(None, &files, Ok("/cur/test-runner"), other), found("/cur/codex"));
    assert_eq!(search(None, &files, Ok("/far/test-runner"), other), None);
    assert_eq!(search(None, &files, Err("gone"), other), None);
}

#[test]
fn a_whole_search_comes_to_what_its_steps_come_to() {
    let findings = |beside_configured: bool, current: Result<&str, &str>, beside_current: bool| ExeFindings {
        beside_configured,
        current: current.map(path).map_err(str::to_string),
        beside_current,
    };
    let search = |exe: Option<&str>, findings: ExeFindings| {
        search_codex_cli(&exe.map(path), findings, Platform::Other)
    };
    assert_eq!(
        search(Some("/x/codex"), findings(true, Ok("/cur/codex"), true)),
        Some(path("/x/codex"))
    );
    assert_eq!(
        search(Some("/x/ide"), findings(true, Ok("/cur/codex"), true)),
        Some(path("/x/codex"))
    );
    assert_eq!(
        search(Some("/x/ide"), findings(false, Ok("/cur/codex"), true)),
        Some(path("/cur/codex"))
    );
    assert_eq!(
        search(None, findings(true, Ok("/cur/runner"), true)),
        Some(path("/cur/codex"))
    );
    assert_eq!(search(None, findings(true, Ok("/cur/runner"), false)), None);
    assert_eq!(search(Some("/x/ide"), findings(false, Err("gone"), true)), None);

    let mut request = request(vec![]);
    request.codex_exe = Some(path("/x/ide"));
    let command =
        ApplyPatchRuntime::find_command_spec(&request, findings(true, Err("gone"), false), Platform::Other)
            .expect("command");
    assert_eq!(command.program, "/x/codex");
    assert!(command.env.is_empty());
    assert!(ApplyPatchRuntime::find_command_spec(
        &request,
        findings(false, Err("gone"), false),
        Platform::Other
    )
    .is_none());
}

#[test]
fn a_plan_that_stops_has_done_the_smaller_paths_in_full() {
    let changes = || {
        vec![
            ("/work/c", add("3")),
            ("/work/a", add("1")),
            ("/work/b", update(Some("/work/z"), "2")),
        ]
    };
    let all = steps(changes());
    assert_eq!(all[..2], steps(vec![("/work/a", add("1"))]));
    assert_eq!(all[2..5], steps(vec![("/work/b", update(Some("/work/z"), "2"))]));
    assert_eq!(all[5..], steps(vec![("/work/c", add("3"))]));
}

#[test]
fn on_windows_only_the_executable_itself_counts() {
    let files = ["/conf/codex.exe", "/cur/codex.exe"];
    assert_eq!(
        search(Some("/conf/ide"), &files, Ok("/cur/runner"), Platform::Windows),
        Some(path("/conf/codex.exe"))
    );
    assert_eq!(search(None, &files, Ok("/cur/runner"), Platform::Windows), None);
    assert_eq!(
        search(None, &files, Ok("/cur/codex.exe"), Platform::Windows),
        Some(path("/cur/codex.exe"))
    );
}

#[test]
fn an_unknown_current_executable_is_an_error_by_itself() {
    match resolve_current_codex_cli(Err("gone".to_string()), Platform::Other) {
        Err(ToolError::Rejected(message)) => {
            assert_eq!(message, "failed to determine codex exe: gone");
        }
        other => panic!("unexpected result: {other:?}"),
    }
    match resolve_current_codex_cli(Ok(path("/a/b")), Platform::Other) {
        Ok(ExeSearch::BesideCurrent(exe)) => assert_eq!(exe, path("/a/codex")),
        other => panic!("unexpected result: {other:?}"),
    }
}

#[test]
fn the_command_applies_the_patch_in_an_empty_environment() {
    let request = request(vec![]);
    let command = ApplyPatchRuntime::build_command_spec(&request, Some(path("/bin/codex")))
        .expect("command");
    assert_eq!(command.program, "/bin/codex");
    assert_eq!(command.args, vec!["--codex-run-as-apply-patch", "*** Begin Patch"]);
    assert_eq!(command.cwd, path("/work"));
    assert_eq!(command.timeout_ms, Some(1500));
    assert_eq!(command.capture_policy, ExecCapturePolicy::ShellTool);
    assert!(command.env.is_empty());
    assert_eq!(command.sandbox_permissions, SandboxPermissions::WithAdditionalPermissions);
    assert_eq!(command.additional_permissions.expect("profile").network, Some(true));
    assert_eq!(command.justification, None);
    assert!(ApplyPatchRuntime::build_command_spec(&request, None).is_none());
}

#[test]
fn patches_are_applied_by_the_executable_or_in_process() {
    let request = request(vec![("/work/new", add("n"))]);
    let runtime = ApplyPatchRuntime::new();
    match runtime.run(&request, Some(path("/bin/codex"))) {
        RunStep::Execute(command) => assert_eq!(command.program, "/bin/codex"),
        other => panic!("unexpected step: {other:?}"),
    }
    match ApplyPatchRuntime::default().run(&request, None) {
        RunStep::InProcess(plan) => {
            assert_eq!(plan.steps.len(), 2);
            assert_eq!(plan.affected.added, vec![path("new")]);
        }
        other => panic!("unexpected step: {other:?}"),
    }
}

#[test]
fn changes_are_done_in_the_order_of_their_paths() {
    assert_eq!(
        steps(vec![
            ("/work/z", delete()),
            ("/work/b/c", update(None, "new")),
            ("/work/b.txt", add("added")),
            ("/work/a", update(Some("/else/where"), "moved")),
        ]),
        vec![
            "mkdir /else",
            "write /else/where moved",
            "remove /work/a",
            "mkdir /work/b",
            "write /work/b/c new",
            "mkdir /work",
            "write /work/b.txt added",
            "remove /work/z",
        ]
    );
}

#[test]
fn a_file_moved_onto_itself_is_not_removed() {
    assert_eq!(
        steps(vec![("/work/a", update(Some("/work//a"), "same"))]),
        vec!["mkdir /work", "write /work//a same"]
    );
}

#[test]
fn a_path_without_a_parent_needs_no_directory() {
    assert_eq!(steps(vec![("/", add("x"))]), vec!["write / x"]);
    assert_eq!(steps(vec![("f", add("x"))]), vec!["mkdir ", "write f x"]);
}

#[test]
fn affected_files_are_listed_by_what_is_done_to_them() {
    let plan = apply_patch_in_process(&request(vec![
        ("/work/n2", add("")),
        ("/work/gone", delete()),
        ("/work/m", update(None, "")),
        ("/outside/n", add("")),
        ("/work/c", update(Some("/work/a/c"), "")),
        ("/work/n1", add("")),
    ]));
    assert_eq!(plan.affected.added, vec![path("/outside/n"), path("n1"), path("n2")]);
    assert_eq!(plan.affected.modified, vec![path("a/c"), path("m")]);
    assert_eq!(plan.affected.deleted, vec![path("gone")]);
}

#[test]
fn sorting_keeps_every_path_there_is() {
    let paths = vec![path("b"), path("a/z"), path("a"), path("b")];
    assert_eq!(
        sorted_paths(&paths),
        vec![path("a"), path("a/z"), path("b"), path("b")]
    );
}

#[test]
fn paths_are_shown_from_the_working_directory_on() {
    assert_eq!(display_path_relative_to_cwd(&path("/work/a/b"), &path("/work")), path("a/b"));
    assert_eq!(display_path_relative_to_cwd(&path("/worker/a"), &path("/work")), path("/worker/a"));
    assert_eq!(display_path_relative_to_cwd(&path("/work"), &path("/work")), path(""));
}

#[test]
fn the_guardian_reviews_where_it_watches() {
    let mut request = request(vec![]);
    request.permissions_preapproved = true;
    let runtime = ApplyPatchRuntime::new();
    match runtime.start_approval(&request, &context(true, Some("again"))) {
        ApprovalStart::Review { action, retry_reason } => {
            assert_eq!(retry_reason.as_deref(), Some("again"));
            let GuardianApprovalRequest::ApplyPatch { id, cwd, files, change_count, patch } = action;
            assert_eq!(id, "call_1");
            assert_eq!(cwd, path("/work"));
            assert_eq!(files.len(), 2);
            assert_eq!(files[1].path, path("/work/b"));
            assert_eq!(change_count, 1);
            assert_eq!(patch, "*** Begin Patch");
        }
        other => panic!("unexpected start: {other:?}"),
    }
}

#[test]
fn approved_patches_are_not_asked_about_unless_tried_again() {
    let mut request = request(vec![]);
    let runtime = ApplyPatchRuntime::new();
    match runtime.start_approval(&request, &context(false, None)) {
        ApprovalStart::AskUnlessCached { tool, keys, approval } => {
            assert_eq!(tool, "apply_patch");
            assert_eq!(keys.len(), 2);
            assert_eq!(keys[0].path, path("/work/a"));
            assert_eq!(approval.call_id, "call_1");
            assert_eq!(approval.reason, None);
            assert_eq!(approval.grant_root, None);
            assert_eq!(approval.changes.len(), 1);
            assert_eq!(approval.changes[0].0, path("/work/a"));
        }
        other => panic!("unexpected start: {other:?}"),
    }
    request.permissions_preapproved = true;
    assert!(matches!(
        runtime.start_approval(&request, &context(false, None)),
        ApprovalStart::Approved
    ));
    match runtime.start_approval(&request, &context(false, Some("sandbox denied"))) {
        ApprovalStart::Ask(approval) => {
            assert_eq!(approval.reason.as_deref(), Some("sandbox denied"));
        }
        other => panic!("unexpected start: {other:?}"),
    }
}

#[test]
fn leaving_the_sandbox_goes_by_policy() {
    let runtime = ApplyPatchRuntime::new();
    let granular = |sandbox_approval: bool| AskForApproval::Granular(GranularApprovalConfig { sandbox_approval });
    for (policy, wanted) in [
        (AskForApproval::Never, false),
        (granular(false), false),
        (granular(true), true),
        (AskForApproval::OnFailure, true),
        (AskForApproval::OnRequest, true),
        (AskForApproval::UnlessTrusted, true),
    ] {
        assert_eq!(runtime.wants_no_sandbox_approval(policy), wanted, "{policy:?}");
    }
    assert_eq!(runtime.sandbox_preference(), SandboxablePreference::Auto);
    assert!(runtime.escalate_on_failure());
}

#[test]
fn what_was_settled_before_stays_settled() {
    let mut request = request(vec![]);
    let runtime = ApplyPatchRuntime::new();
    assert!(matches!(
        runtime.exec_approval_requirement(&request),
        Some(ExecApprovalRequirement::NeedsApproval(Some(reason))) if reason == "why"
    ));
    request.exec_approval_requirement = ExecApprovalRequirement::Forbidden("no".to_string());
    assert!(matches!(
        runtime.exec_approval_requirement(&request),
        Some(ExecApprovalRequirement::Forbidden(reason)) if reason == "no"
    ));
    assert_eq!(runtime.approval_keys(&request).len(), 2);
}

#[test]
fn output_is_reported_under_the_turn_and_the_call() {
    let stream = ApplyPatchRuntime::stdout_stream("sub_1", "call_1").expect("stream");
    assert_eq!(stream.sub_id, "sub_1");
    assert_eq!(stream.call_id, "call_1");
}

#[test]
fn output_within_the_process_tells_success_and_failure() {
    let duration = Duration::from_millis(7);
    let done = in_process_output(Ok(()), b"done\n".to_vec(), Vec::new(), duration);
    assert_eq!(done.exit_code, 0);
    assert_eq!(done.stdout.text, "done\n");
    assert_eq!(done.stderr.text, "");
    assert_eq!(done.aggregated_output.text, "done\n");
    assert_eq!(done.duration, duration);
    assert!(!done.timed_out);

    let failed = in_process_output(
        Err("no space \u{2014} left".to_string()),
        b"begun ".to_vec(),
        b"warn\n".to_vec(),
        duration,
    );
    assert_eq!(failed.exit_code, 1);
    assert_eq!(failed.stderr.text, "warn\nno space \u{2014} left\n");
    assert_eq!(failed.aggregated_output.text, "begun warn\nno space \u{2014} left\n");
}

#[test]
fn output_that_is_not_utf8_is_replaced() {
    let output = in_process_output(
        Err("bad".to_string()),
        vec![b'a', 0xff, b'b'],
        vec![0xc3],
        Duration::ZERO,
    );
    assert_eq!(output.stdout.text, "a\u{fffd}b");
    assert_eq!(output.stderr.text, "\u{fffd}bad\n");
}
