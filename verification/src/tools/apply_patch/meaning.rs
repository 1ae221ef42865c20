//! What a plan for a patch comes to, told by the patch itself and the steps
//! of the plan.

use crate::paths::is_path_order;
use crate::paths::parts_ordered;
use crate::paths::path_above;
use crate::paths::path_below;
use crate::paths::path_parts;
use crate::paths::PathPart;
use crate::tools::apply_patch::laws::after_deeds;
use crate::tools::apply_patch::laws::directories_are_created_before_their_files;
use crate::tools::apply_patch::laws::every_changed_file_is_listed;
use crate::tools::apply_patch::laws::lemma_after_deeds_concat;
use crate::tools::apply_patch::laws::lemma_change_deeds;
use crate::tools::apply_patch::laws::lemma_order_takes_all;
use crate::tools::apply_patch::laws::other_files_are_left_alone;
use crate::tools::apply_patch::laws::sorting_keeps_every_path;
use crate::tools::apply_patch::plan::carries_out;
use crate::tools::apply_patch::plan::change_deeds;
use crate::tools::apply_patch::plan::changed_paths;
use crate::tools::apply_patch::plan::deeds;
use crate::tools::apply_patch::plan::files_of_kind;
use crate::tools::apply_patch::plan::patch_deeds;
use crate::tools::apply_patch::plan::paths_at;
use crate::tools::apply_patch::plan::sorts;
use crate::tools::apply_patch::plan::Deed;
use crate::tools::apply_patch::plan::FsStep;
use crate::tools::apply_patch::plan::Kind;
use crate::tools::apply_patch::plan::PatchPlan;
use crate::tools::apply_patch::request::ApplyPatchAction;
use crate::tools::apply_patch::request::ApplyPatchFileChange;
use vstd::prelude::*;

verus! {

/// What the files hold once a step is done: a written file its new content, a
/// removed file nothing, and any other file what it held before.
pub open spec fn files_then(
    files: Map<Seq<PathPart>, Seq<char>>,
    step: FsStep,
) -> Map<Seq<PathPart>, Seq<char>> {
    match step {
        FsStep::CreateDirAll(_) => files,
        FsStep::WriteFile { path, content } => files.insert(path_parts(path), content@),
        FsStep::RemoveFile(path) => files.remove(path_parts(path)),
    }
}

/// What the files hold once all the steps are done, one after the other.
pub open spec fn files_after(
    files: Map<Seq<PathPart>, Seq<char>>,
    steps: Seq<FsStep>,
) -> Map<Seq<PathPart>, Seq<char>>
    decreases steps.len(),
{
    if steps.len() == 0 {
        files
    } else {
        files_then(files_after(files, steps.drop_last()), steps.last())
    }
}

/// The change is about the file: it is done to it, or moves another there.
pub open spec fn is_about(
    change: (std::path::PathBuf, ApplyPatchFileChange),
    file: Seq<PathPart>,
) -> bool {
    ||| path_parts(change.0) == file
    ||| match change.1 {
        ApplyPatchFileChange::Update { move_path: Some(target), .. } => path_parts(target) == file,
        _ => false,
    }
}

/// No change that is taken after the one at `k` is about the file.
pub open spec fn left_alone_after(
    changes: Seq<(std::path::PathBuf, ApplyPatchFileChange)>,
    order: Seq<usize>,
    k: int,
    file: Seq<PathPart>,
) -> bool {
    forall|m: int|
        k < m < order.len() ==> !is_about(changes[#[trigger] order[m] as int], file)
}

/// The steps of a plan change files just as their views do.
proof fn lemma_steps_do_their_deeds(files: Map<Seq<PathPart>, Seq<char>>, steps: Seq<FsStep>)
    ensures
        files_after(files, steps) == after_deeds(files, deeds(steps)),
    decreases steps.len(),
{
    if steps.len() > 0 {
        lemma_steps_do_their_deeds(files, steps.drop_last());
        assert(deeds(steps).drop_last() == deeds(steps.drop_last()));
        assert(deeds(steps).last() == steps.last()@);
    }
}

/// Changes that are not about a file leave it as the ones before left it.
proof fn lemma_last_change_decides(
    files: Map<Seq<PathPart>, Seq<char>>,
    changes: Seq<(std::path::PathBuf, ApplyPatchFileChange)>,
    order: Seq<usize>,
    k: int,
    file: Seq<PathPart>,
)
    requires
        0 <= k < order.len(),
        left_alone_after(changes, order, k, file),
    ensures
        after_deeds(files, patch_deeds(changes, order)).get(file) == after_deeds(
            files,
            patch_deeds(changes, order.take(k + 1)),
        ).get(file),
    decreases order.len(),
{
    if k + 1 == order.len() {
        assert(order.take(k + 1) == order);
    } else {
        let init = order.drop_last();
        let change = changes[order.last() as int];
        assert(order[order.len() - 1] == order.last());
        assert forall|m: int| k < m < init.len() implies !is_about(
            changes[#[trigger] init[m] as int],
            file,
        ) by {
            assert(init[m] == order[m]);
        }
        lemma_last_change_decides(files, changes, init, k, file);
        assert(init.take(k + 1) == order.take(k + 1));
        let before = patch_deeds(changes, init);
        lemma_after_deeds_concat(files, before, change_deeds(change.0, change.1));
        lemma_change_deeds(after_deeds(files, before), change, file);
    }
}

/// What the files hold right after the change at `k`.
proof fn lemma_after_change(
    files: Map<Seq<PathPart>, Seq<char>>,
    changes: Seq<(std::path::PathBuf, ApplyPatchFileChange)>,
    order: Seq<usize>,
    k: int,
)
    requires
        0 <= k < order.len(),
    ensures
        ({
            let change = changes[order[k] as int];
            after_deeds(files, patch_deeds(changes, order.take(k + 1))) == after_deeds(
                after_deeds(files, patch_deeds(changes, order.take(k))),
                change_deeds(change.0, change.1),
            )
        }),
{
    let change = changes[order[k] as int];
    assert(order.take(k + 1).drop_last() == order.take(k));
    assert(order.take(k + 1).last() == order[k]);
    lemma_after_deeds_concat(
        files,
        patch_deeds(changes, order.take(k)),
        change_deeds(change.0, change.1),
    );
}

/// Once a plan is done, every file is as the last change that is about it
/// wants it. An added file holds its content, and a deleted file is gone. An
/// updated file holds its new content: under the path that the change moves it
/// to, and then no longer under its own unless that is the same; and under its
/// own path if the change moves it nowhere. What the difference to the old
/// content is said to be makes no difference.
pub proof fn changes_are_in_effect_after_the_plan(
    files: Map<Seq<PathPart>, Seq<char>>,
    plan: PatchPlan,
    action: ApplyPatchAction,
    order: Seq<usize>,
    k: int,
)
    requires
        carries_out(plan, action, order),
        0 <= k < order.len(),
    ensures
        ({
            let changes = action.changes@;
            let (path, change) = changes[order[k] as int];
            let after = files_after(files, plan.steps@);
            let own = path_parts(path);
            match change {
                ApplyPatchFileChange::Add { content } => left_alone_after(changes, order, k, own)
                    ==> after.get(own) == Some(content@),
                ApplyPatchFileChange::Delete { .. } => left_alone_after(changes, order, k, own)
                    ==> !after.contains_key(own),
                ApplyPatchFileChange::Update { unified_diff: _, move_path: None, new_content } =>
                    left_alone_after(changes, order, k, own) ==> after.get(own) == Some(
                    new_content@,
                ),
                ApplyPatchFileChange::Update {
                    unified_diff: _,
                    move_path: Some(target),
                    new_content,
                } => {
                    &&& left_alone_after(changes, order, k, path_parts(target)) ==> after.get(
                        path_parts(target),
                    ) == Some(new_content@)
                    &&& left_alone_after(changes, order, k, own) && path_parts(target) != own
                        ==> !after.contains_key(own)
                },
            }
        }),
{
    let changes = action.changes@;
    let change = changes[order[k] as int];
    lemma_steps_do_their_deeds(files, plan.steps@);
    lemma_after_change(files, changes, order, k);
    let own = path_parts(change.0);
    lemma_change_deeds(
        after_deeds(files, patch_deeds(changes, order.take(k))),
        change,
        own,
    );
    if left_alone_after(changes, order, k, own) {
        lemma_last_change_decides(files, changes, order, k, own);
    }
    if let ApplyPatchFileChange::Update { move_path: Some(target), .. } = change.1 {
        if left_alone_after(changes, order, k, path_parts(target)) {
            lemma_last_change_decides(files, changes, order, k, path_parts(target));
        }
    }
}

/// A change that shares none of its files with another is in effect once the
/// plan for the patch is done, wherever in the patch it stands: an updated file
/// holds its new content under the path that it is moved to, and nothing is left
/// under its own if that is another, or under its own path if it is moved
/// nowhere; an added file holds its content, and a deleted one is gone.
pub proof fn patches_are_in_effect_after_the_plan(
    files: Map<Seq<PathPart>, Seq<char>>,
    plan: PatchPlan,
    action: ApplyPatchAction,
    i: usize,
)
    requires
        exists|order: Seq<usize>| #[trigger]
            is_path_order(changed_paths(action.changes@), order) && carries_out(
                plan,
                action,
                order,
            ),
        i < action.changes@.len(),
        forall|j: int|
            0 <= j < action.changes@.len() && j != i ==> !is_about(
                #[trigger] action.changes@[j],
                path_parts(action.changes@[i as int].0),
            ),
        action.changes@[i as int].1 matches ApplyPatchFileChange::Update {
            unified_diff: _,
            move_path: Some(target),
            new_content: _,
        } ==> forall|j: int|
            0 <= j < action.changes@.len() && j != i ==> !is_about(
                #[trigger] action.changes@[j],
                path_parts(target),
            ),
    ensures
        ({
            let (path, change) = action.changes@[i as int];
            let after = files_after(files, plan.steps@);
            match change {
                ApplyPatchFileChange::Add { content } => after.get(path_parts(path)) == Some(
                    content@,
                ),
                ApplyPatchFileChange::Delete { .. } => !after.contains_key(path_parts(path)),
                ApplyPatchFileChange::Update { unified_diff: _, move_path: None, new_content } =>
                    after.get(path_parts(path)) == Some(new_content@),
                ApplyPatchFileChange::Update {
                    unified_diff: _,
                    move_path: Some(target),
                    new_content,
                } => {
                    &&& after.get(path_parts(target)) == Some(new_content@)
                    &&& path_parts(target) != path_parts(path) ==> !after.contains_key(
                        path_parts(path),
                    )
                },
            }
        }),
{
    let changes = action.changes@;
    let paths = changed_paths(changes);
    let order = choose|order: Seq<usize>| #[trigger]
        is_path_order(paths, order) && carries_out(plan, action, order);
    let k = lemma_order_takes_all(paths.len() as int, order, i as int);
    assert forall|m: int| k < m < order.len() implies 0 <= #[trigger] order[m] < changes.len()
        && order[m] != i by {
        assert(0 <= order[m] < paths.len());
        assert(order[m] != order[k]);
    }
    changes_are_in_effect_after_the_plan(files, plan, action, order, k);
}

/// A file that no change is about is, once a plan is done, as it was.
pub proof fn plans_leave_other_files_alone(
    files: Map<Seq<PathPart>, Seq<char>>,
    plan: PatchPlan,
    action: ApplyPatchAction,
    order: Seq<usize>,
    file: Seq<PathPart>,
)
    requires
        is_path_order(changed_paths(action.changes@), order),
        carries_out(plan, action, order),
        forall|i: int|
            0 <= i < action.changes@.len() ==> !is_about(#[trigger] action.changes@[i], file),
    ensures
        files_after(files, plan.steps@).get(file) == files.get(file),
{
    lemma_steps_do_their_deeds(files, plan.steps@);
    let paths = changed_paths(action.changes@);
    assert forall|k: int| 0 <= k < order.len() implies !is_about(
        action.changes@[#[trigger] order[k] as int],
        file,
    ) by {
        assert(0 <= order[k] < paths.len());
    }
    other_files_are_left_alone(files, action.changes@, order, file);
}

/// A plan takes every change of the patch once, in the order of their paths.
pub proof fn plans_take_every_change_once(action: ApplyPatchAction, order: Seq<usize>)
    requires
        is_path_order(changed_paths(action.changes@), order),
    ensures
        order.len() == action.changes@.len(),
        forall|a: int| 0 <= a < order.len() ==> #[trigger] order[a] < action.changes@.len(),
        forall|a: int, b: int|
            0 <= a < b < order.len() ==> {
                let left = path_parts(action.changes@[#[trigger] order[a] as int].0);
                let right = path_parts(action.changes@[#[trigger] order[b] as int].0);
                order[a] != order[b] && parts_ordered(left, right) && (left == right ==> order[a]
                    < order[b])
            },
{
    let paths = changed_paths(action.changes@);
    assert forall|a: int, b: int| 0 <= a < b < order.len() implies {
        let left = path_parts(action.changes@[#[trigger] order[a] as int].0);
        let right = path_parts(action.changes@[#[trigger] order[b] as int].0);
        order[a] != order[b] && parts_ordered(left, right) && (left == right ==> order[a]
            < order[b])
    } by {
        assert(paths[order[a] as int] == action.changes@[order[a] as int].0);
        assert(paths[order[b] as int] == action.changes@[order[b] as int].0);
    }
}

/// A file that a plan writes stands in a directory that the plan creates right
/// before.
pub proof fn plans_create_the_directory_of_what_they_write(
    plan: PatchPlan,
    action: ApplyPatchAction,
    order: Seq<usize>,
    k: int,
)
    requires
        carries_out(plan, action, order),
        0 <= k < plan.steps@.len(),
    ensures
        plan.steps@[k] matches FsStep::WriteFile { path, content: _ } ==> (path_above(
            path,
        ) matches Some(dir) ==> k > 0 && plan.steps@[k - 1] == FsStep::CreateDirAll(dir)),
{
    directories_are_created_before_their_files(action.changes@, order, k);
    assert(deeds(plan.steps@)[k] == plan.steps@[k]@);
    if k > 0 {
        assert(deeds(plan.steps@)[k - 1] == plan.steps@[k - 1]@);
    }
}

/// The steps for a change: what it adds is written, what it deletes removed,
/// and what it updates written where it is moved to, or else where it is, and
/// then removed where it was if that is elsewhere. A directory is created
/// before what is written in it, and nothing else is done.
pub proof fn changes_are_done_step_by_step(path: std::path::PathBuf, change: ApplyPatchFileChange)
    ensures
        ({
            let done = change_deeds(path, change);
            match change {
                ApplyPatchFileChange::Delete { .. } => done == seq![Deed::RemoveFile(path)],
                ApplyPatchFileChange::Add { content } => match path_above(path) {
                    Some(dir) => done == seq![
                        Deed::CreateDirAll(dir),
                        Deed::WriteFile(path, content@),
                    ],
                    None => done == seq![Deed::WriteFile(path, content@)],
                },
                ApplyPatchFileChange::Update { unified_diff: _, move_path: None, new_content } =>
                    match path_above(path) {
                    Some(dir) => done == seq![
                        Deed::CreateDirAll(dir),
                        Deed::WriteFile(path, new_content@),
                    ],
                    None => done == seq![Deed::WriteFile(path, new_content@)],
                },
                ApplyPatchFileChange::Update {
                    unified_diff: _,
                    move_path: Some(target),
                    new_content,
                } => match (path_above(target), path_parts(target) == path_parts(path)) {
                    (Some(dir), true) => done == seq![
                        Deed::CreateDirAll(dir),
                        Deed::WriteFile(target, new_content@),
                    ],
                    (Some(dir), false) => done == seq![
                        Deed::CreateDirAll(dir),
                        Deed::WriteFile(target, new_content@),
                        Deed::RemoveFile(path),
                    ],
                    (None, true) => done == seq![Deed::WriteFile(target, new_content@)],
                    (None, false) => done == seq![
                        Deed::WriteFile(target, new_content@),
                        Deed::RemoveFile(path),
                    ],
                },
            }
        }),
{
}

/// Steps are seen as they are.
pub proof fn steps_are_seen_as_they_are(steps: Seq<FsStep>, k: int)
    requires
        0 <= k < steps.len(),
    ensures
        deeds(steps).len() == steps.len(),
        match steps[k] {
            FsStep::CreateDirAll(path) => deeds(steps)[k] == Deed::CreateDirAll(path),
            FsStep::WriteFile { path, content } => deeds(steps)[k] == Deed::WriteFile(
                path,
                content@,
            ),
            FsStep::RemoveFile(path) => deeds(steps)[k] == Deed::RemoveFile(path),
        },
{
}

/// A path as it is told: from the directory on, where it lies below it, else
/// in full.
pub open spec fn told(path: std::path::PathBuf, cwd: std::path::PathBuf) -> std::path::PathBuf {
    if path_below(path, cwd) is Some {
        path_below(path, cwd)->0
    } else {
        path
    }
}

/// Every change of the patch is told: what it adds under the added files, what
/// it deletes under the deleted ones, and what it updates under the modified
/// ones, by the path that it moves it to if it does.
pub proof fn every_change_is_told(
    plan: PatchPlan,
    action: ApplyPatchAction,
    order: Seq<usize>,
    i: usize,
)
    requires
        is_path_order(changed_paths(action.changes@), order),
        carries_out(plan, action, order),
        i < action.changes@.len(),
    ensures
        ({
            let (path, change) = action.changes@[i as int];
            let affected = plan.affected;
            match change {
                ApplyPatchFileChange::Add { .. } => affected.added@.contains(
                    told(path, action.cwd),
                ),
                ApplyPatchFileChange::Delete { .. } => affected.deleted@.contains(
                    told(path, action.cwd),
                ),
                ApplyPatchFileChange::Update { move_path: Some(target), .. } =>
                    affected.modified@.contains(told(target, action.cwd)),
                ApplyPatchFileChange::Update { move_path: None, .. } =>
                    affected.modified@.contains(told(path, action.cwd)),
            }
        }),
        plan.affected.added@.len() + plan.affected.modified@.len() + plan.affected.deleted@.len()
            == action.changes@.len(),
{
    let changes = action.changes@;
    every_changed_file_is_listed(changes, order, action.cwd, i);
    let added = files_of_kind(changes, order, action.cwd, Kind::Added);
    let modified = files_of_kind(changes, order, action.cwd, Kind::Modified);
    let deleted = files_of_kind(changes, order, action.cwd, Kind::Deleted);
    sorting_keeps_every_path(plan.affected.added@, added);
    sorting_keeps_every_path(plan.affected.modified@, modified);
    sorting_keeps_every_path(plan.affected.deleted@, deleted);
}

/// The change adds a file that is told as `path`.
pub open spec fn adds(
    change: (std::path::PathBuf, ApplyPatchFileChange),
    cwd: std::path::PathBuf,
    path: std::path::PathBuf,
) -> bool {
    change.1 is Add && path == told(change.0, cwd)
}

/// The change deletes a file that is told as `path`.
pub open spec fn deletes(
    change: (std::path::PathBuf, ApplyPatchFileChange),
    cwd: std::path::PathBuf,
    path: std::path::PathBuf,
) -> bool {
    change.1 is Delete && path == told(change.0, cwd)
}

/// The change updates a file that is then told as `path`.
pub open spec fn modifies(
    change: (std::path::PathBuf, ApplyPatchFileChange),
    cwd: std::path::PathBuf,
    path: std::path::PathBuf,
) -> bool {
    match change.1 {
        ApplyPatchFileChange::Update { move_path: Some(target), .. } => path == told(target, cwd),
        ApplyPatchFileChange::Update { move_path: None, .. } => path == told(change.0, cwd),
        _ => false,
    }
}

proof fn lemma_listed_files_are_changed(
    changes: Seq<(std::path::PathBuf, ApplyPatchFileChange)>,
    order: Seq<usize>,
    cwd: std::path::PathBuf,
    kind: Kind,
    path: std::path::PathBuf,
)
    requires
        files_of_kind(changes, order, cwd, kind).contains(path),
    ensures
        exists|k: int|
            0 <= k < order.len() && {
                let change = changes[#[trigger] order[k] as int];
                match kind {
                    Kind::Added => adds(change, cwd, path),
                    Kind::Modified => modifies(change, cwd, path),
                    Kind::Deleted => deletes(change, cwd, path),
                }
            },
    decreases order.len(),
{
    if order.len() > 0 {
        let init = order.drop_last();
        let before = files_of_kind(changes, init, cwd, kind);
        if before.contains(path) {
            lemma_listed_files_are_changed(changes, init, cwd, kind, path);
            let k = choose|k: int|
                0 <= k < init.len() && {
                    let change = changes[#[trigger] init[k] as int];
                    match kind {
                        Kind::Added => adds(change, cwd, path),
                        Kind::Modified => modifies(change, cwd, path),
                        Kind::Deleted => deletes(change, cwd, path),
                    }
                };
            assert(order[k] == init[k]);
        } else {
            let all = files_of_kind(changes, order, cwd, kind);
            let at = choose|at: int| 0 <= at < all.len() && all[at] == path;
            if at < before.len() {
                assert(before[at] == path);
            }
            assert(order[order.len() - 1] == order.last());
        }
    }
}

/// Nothing is told but what a change does: what stands under the added files
/// is added by a change, and so for those that are deleted and modified.
pub proof fn nothing_else_is_told(
    plan: PatchPlan,
    action: ApplyPatchAction,
    order: Seq<usize>,
    path: std::path::PathBuf,
)
    requires
        is_path_order(changed_paths(action.changes@), order),
        carries_out(plan, action, order),
    ensures
        plan.affected.added@.contains(path) ==> exists|i: int|
            0 <= i < action.changes@.len() && adds(
                #[trigger] action.changes@[i],
                action.cwd,
                path,
            ),
        plan.affected.deleted@.contains(path) ==> exists|i: int|
            0 <= i < action.changes@.len() && deletes(
                #[trigger] action.changes@[i],
                action.cwd,
                path,
            ),
        plan.affected.modified@.contains(path) ==> exists|i: int|
            0 <= i < action.changes@.len() && modifies(
                #[trigger] action.changes@[i],
                action.cwd,
                path,
            ),
{
    let changes = action.changes@;
    let cwd = action.cwd;
    let added = files_of_kind(changes, order, cwd, Kind::Added);
    let modified = files_of_kind(changes, order, cwd, Kind::Modified);
    let deleted = files_of_kind(changes, order, cwd, Kind::Deleted);
    sorting_keeps_every_path(plan.affected.added@, added);
    sorting_keeps_every_path(plan.affected.modified@, modified);
    sorting_keeps_every_path(plan.affected.deleted@, deleted);
    let paths = changed_paths(changes);
    assert(forall|k: int| 0 <= k < order.len() ==> 0 <= #[trigger] order[k] < paths.len());
    if added.contains(path) {
        lemma_listed_files_are_changed(changes, order, cwd, Kind::Added, path);
    }
    if modified.contains(path) {
        lemma_listed_files_are_changed(changes, order, cwd, Kind::Modified, path);
    }
    if deleted.contains(path) {
        lemma_listed_files_are_changed(changes, order, cwd, Kind::Deleted, path);
    }
}

/// What is told is told in the order of the paths.
pub proof fn files_are_told_in_the_order_of_their_paths(
    plan: PatchPlan,
    action: ApplyPatchAction,
    order: Seq<usize>,
    a: int,
    b: int,
)
    requires
        carries_out(plan, action, order),
        0 <= a < b,
    ensures
        b < plan.affected.added@.len() ==> parts_ordered(
            path_parts(plan.affected.added@[a]),
            path_parts(plan.affected.added@[b]),
        ),
        b < plan.affected.modified@.len() ==> parts_ordered(
            path_parts(plan.affected.modified@[a]),
            path_parts(plan.affected.modified@[b]),
        ),
        b < plan.affected.deleted@.len() ==> parts_ordered(
            path_parts(plan.affected.deleted@[a]),
            path_parts(plan.affected.deleted@[b]),
        ),
{
    let changes = action.changes@;
    let cwd = action.cwd;
    lemma_sorted_in_order(
        plan.affected.added@,
        files_of_kind(changes, order, cwd, Kind::Added),
        a,
        b,
    );
    lemma_sorted_in_order(
        plan.affected.modified@,
        files_of_kind(changes, order, cwd, Kind::Modified),
        a,
        b,
    );
    lemma_sorted_in_order(
        plan.affected.deleted@,
        files_of_kind(changes, order, cwd, Kind::Deleted),
        a,
        b,
    );
}

proof fn lemma_sorted_in_order(
    sorted: Seq<std::path::PathBuf>,
    paths: Seq<std::path::PathBuf>,
    a: int,
    b: int,
)
    requires
        sorts(sorted, paths),
        0 <= a < b,
    ensures
        b < sorted.len() ==> parts_ordered(path_parts(sorted[a]), path_parts(sorted[b])),
{
    let order = choose|order: Seq<usize>| #[trigger]
        is_path_order(paths, order) && sorted == paths_at(paths, order);
    if b < sorted.len() {
        assert(sorted[a] == paths[order[a] as int]);
        assert(sorted[b] == paths[order[b] as int]);
    }
}

} // verus!
