//! Applying a patch within this process: what is to be done to the file
//! system, in which order, and which files it affects.

use crate::paths::has_prefix;
use crate::paths::is_path_order;
use crate::paths::path_above;
use crate::paths::path_below;
use crate::paths::path_order;
use crate::paths::path_parent;
use crate::paths::path_parts;
use crate::paths::path_same;
use crate::paths::path_strip_prefix;
use crate::tools::apply_patch::request::ApplyPatchAction;
use crate::tools::apply_patch::request::ApplyPatchFileChange;
use crate::tools::apply_patch::request::ApplyPatchRequest;
use vstd::prelude::*;

verus! {

/// Something to be done to the file system.
#[derive(Debug)]
pub enum FsStep {
    /// A directory is created, and whatever leads to it.
    CreateDirAll(std::path::PathBuf),
    /// A file is written anew.
    WriteFile { path: std::path::PathBuf, content: String },
    /// A file is removed.
    RemoveFile(std::path::PathBuf),
}

/// What a step does.
pub ghost enum Deed {
    CreateDirAll(std::path::PathBuf),
    WriteFile(std::path::PathBuf, Seq<char>),
    RemoveFile(std::path::PathBuf),
}

impl View for FsStep {
    type V = Deed;

    open spec fn view(&self) -> Deed {
        match self {
            FsStep::CreateDirAll(path) => Deed::CreateDirAll(*path),
            FsStep::WriteFile { path, content } => Deed::WriteFile(*path, content@),
            FsStep::RemoveFile(path) => Deed::RemoveFile(*path),
        }
    }
}

/// What a list of steps does.
pub open spec fn deeds(steps: Seq<FsStep>) -> Seq<Deed> {
    steps.map_values(|step: FsStep| step@)
}

/// The files that a patch affects, as they are shown.
#[derive(Debug)]
pub struct AffectedPaths {
    pub added: Vec<std::path::PathBuf>,
    pub modified: Vec<std::path::PathBuf>,
    pub deleted: Vec<std::path::PathBuf>,
}

/// What is to be done for a patch, and what is to be told once it is done.
#[derive(Debug)]
pub struct PatchPlan {
    pub steps: Vec<FsStep>,
    pub affected: AffectedPaths,
}

/// What a change does to a file.
pub ghost enum Kind {
    Added,
    Modified,
    Deleted,
}

/// What the change does to a file.
pub open spec fn kind_of(change: ApplyPatchFileChange) -> Kind {
    match change {
        ApplyPatchFileChange::Add { .. } => Kind::Added,
        ApplyPatchFileChange::Delete { .. } => Kind::Deleted,
        ApplyPatchFileChange::Update { .. } => Kind::Modified,
    }
}

/// Where the file ends up: where it was, unless the change moves it.
pub open spec fn destination_of(
    path: std::path::PathBuf,
    change: ApplyPatchFileChange,
) -> std::path::PathBuf {
    match change {
        ApplyPatchFileChange::Update { move_path: Some(target), .. } => target,
        _ => path,
    }
}

/// The change moves the file to another place.
pub open spec fn moves_away(path: std::path::PathBuf, change: ApplyPatchFileChange) -> bool {
    change is Update && path_parts(destination_of(path, change)) != path_parts(path)
}

/// Writing a file, after the directory that it is in.
pub open spec fn write_deeds(path: std::path::PathBuf, content: Seq<char>) -> Seq<Deed> {
    match path_above(path) {
        Some(dir) => seq![Deed::CreateDirAll(dir), Deed::WriteFile(path, content)],
        None => seq![Deed::WriteFile(path, content)],
    }
}

/// What is done for a change.
pub open spec fn change_deeds(path: std::path::PathBuf, change: ApplyPatchFileChange) -> Seq<Deed> {
    match change {
        ApplyPatchFileChange::Add { content } => write_deeds(path, content@),
        ApplyPatchFileChange::Delete { .. } => seq![Deed::RemoveFile(path)],
        ApplyPatchFileChange::Update { new_content, .. } => write_deeds(
            destination_of(path, change),
            new_content@,
        ) + if moves_away(path, change) {
            seq![Deed::RemoveFile(path)]
        } else {
            Seq::empty()
        },
    }
}

/// What is done for a list of changes, taken in the given order.
pub open spec fn patch_deeds(
    changes: Seq<(std::path::PathBuf, ApplyPatchFileChange)>,
    order: Seq<usize>,
) -> Seq<Deed>
    decreases order.len(),
{
    if order.len() == 0 {
        Seq::empty()
    } else {
        let change = changes[order.last() as int];
        patch_deeds(changes, order.drop_last()) + change_deeds(change.0, change.1)
    }
}

/// A path as it is shown: from `cwd` on where it lies below it, else in full.
pub open spec fn shown_path(path: std::path::PathBuf, cwd: std::path::PathBuf) -> std::path::PathBuf {
    match path_below(path, cwd) {
        Some(rest) => rest,
        None => path,
    }
}

/// How a changed file is shown.
pub open spec fn shown_change(
    change: (std::path::PathBuf, ApplyPatchFileChange),
    cwd: std::path::PathBuf,
) -> std::path::PathBuf {
    shown_path(destination_of(change.0, change.1), cwd)
}

/// The files to which changes of one kind are done, in the order in which
/// they are done.
pub open spec fn files_of_kind(
    changes: Seq<(std::path::PathBuf, ApplyPatchFileChange)>,
    order: Seq<usize>,
    cwd: std::path::PathBuf,
    kind: Kind,
) -> Seq<std::path::PathBuf>
    decreases order.len(),
{
    if order.len() == 0 {
        Seq::empty()
    } else {
        let change = changes[order.last() as int];
        let before = files_of_kind(changes, order.drop_last(), cwd, kind);
        if kind_of(change.1) == kind {
            before.push(shown_change(change, cwd))
        } else {
            before
        }
    }
}

/// The paths at the given positions.
pub open spec fn paths_at(paths: Seq<std::path::PathBuf>, order: Seq<usize>) -> Seq<
    std::path::PathBuf,
> {
    order.map_values(|i: usize| paths[i as int])
}

/// `sorted` holds what `paths` holds, in the order of the paths.
pub open spec fn sorts(sorted: Seq<std::path::PathBuf>, paths: Seq<std::path::PathBuf>) -> bool {
    exists|order: Seq<usize>| #[trigger]
        is_path_order(paths, order) && sorted == paths_at(paths, order)
}

/// The paths of a list of changes.
pub open spec fn changed_paths(changes: Seq<(std::path::PathBuf, ApplyPatchFileChange)>) -> Seq<
    std::path::PathBuf,
> {
    changes.map_values(|change: (std::path::PathBuf, ApplyPatchFileChange)| change.0)
}

/// The plan does the changes of the patch in the given order, and lists the
/// files that it affects by what is done to them, each list in the order of
/// the paths.
pub open spec fn carries_out(plan: PatchPlan, action: ApplyPatchAction, order: Seq<usize>) -> bool {
    let changes = action.changes@;
    let cwd = action.cwd;
    &&& deeds(plan.steps@) == patch_deeds(changes, order)
    &&& sorts(plan.affected.added@, files_of_kind(changes, order, cwd, Kind::Added))
    &&& sorts(plan.affected.modified@, files_of_kind(changes, order, cwd, Kind::Modified))
    &&& sorts(plan.affected.deleted@, files_of_kind(changes, order, cwd, Kind::Deleted))
}

/// `path` as it is shown: from `cwd` on where it lies below it, else in full.
pub fn display_path_relative_to_cwd(path: &std::path::PathBuf, cwd: &std::path::PathBuf) -> (r:
    std::path::PathBuf)
    ensures
        r == shown_path(*path, *cwd),
        path_parts(*cwd).is_prefix_of(path_parts(*path)) && !has_prefix(path_parts(*path))
            && !has_prefix(path_parts(r)) ==> path_parts(r) == path_parts(*path).skip(path_parts(*cwd).len() as int),
        !path_parts(*cwd).is_prefix_of(path_parts(*path)) ==> r == *path,
{
    match path_strip_prefix(path, cwd) {
        Some(rest) => rest,
        None => path.clone(),
    }
}

/// The paths in their order.
pub fn sorted_paths(paths: &Vec<std::path::PathBuf>) -> (r: Vec<std::path::PathBuf>)
    ensures
        sorts(r@, paths@),
{
    let order = path_order(paths);
    let mut r: Vec<std::path::PathBuf> = Vec::new();
    let mut i: usize = 0;
    while i < order.len()
        invariant
            i <= order@.len(),
            is_path_order(paths@, order@),
            r@ == paths_at(paths@, order@.take(i as int)),
        decreases order@.len() - i,
    {
        r.push(paths[order[i]].clone());
        i = i + 1;
        assert(r@ == paths_at(paths@, order@.take(i as int)));
    }
    assert(order@.take(i as int) == order@);
    r
}

/// Adds the writing of a file, after the directory that it is in.
fn push_write(steps: &mut Vec<FsStep>, path: &std::path::PathBuf, content: &String)
    ensures
        deeds(final(steps)@) == deeds(old(steps)@) + write_deeds(*path, content@),
{
    if let Some(dir) = path_parent(path) {
        steps.push(FsStep::CreateDirAll(dir));
    }
    steps.push(FsStep::WriteFile { path: path.clone(), content: content.clone() });
    assert(deeds(steps@) == deeds(old(steps)@) + write_deeds(*path, content@));
}

/// Adds what is done for a change, and gives where the file ends up.
fn push_change(
    steps: &mut Vec<FsStep>,
    path: &std::path::PathBuf,
    change: &ApplyPatchFileChange,
) -> (r: std::path::PathBuf)
    ensures
        deeds(final(steps)@) == deeds(old(steps)@) + change_deeds(*path, *change),
        r == destination_of(*path, *change),
{
    match change {
        ApplyPatchFileChange::Add { content } => {
            push_write(steps, path, content);
            path.clone()
        },
        ApplyPatchFileChange::Delete { .. } => {
            steps.push(FsStep::RemoveFile(path.clone()));
            assert(deeds(steps@) == deeds(old(steps)@) + change_deeds(*path, *change));
            path.clone()
        },
        ApplyPatchFileChange::Update { move_path, new_content, .. } => {
            let destination = match move_path {
                Some(target) => target,
                None => path,
            };
            push_write(steps, destination, new_content);
            let ghost written = deeds(steps@);
            if let Some(target) = move_path {
                if !path_same(target, path) {
                    steps.push(FsStep::RemoveFile(path.clone()));
                    assert(deeds(steps@) == written.push(Deed::RemoveFile(*path)));
                }
            }
            assert(deeds(steps@) == deeds(old(steps)@) + change_deeds(*path, *change));
            destination.clone()
        },
    }
}

/// What is to be done to apply the patch of the request within this process,
/// the changes in the order of their paths.
pub fn apply_patch_in_process(req: &ApplyPatchRequest) -> (r: PatchPlan)
    ensures
        exists|order: Seq<usize>| #[trigger]
            is_path_order(changed_paths(req.action.changes@), order) && carries_out(
                r,
                req.action,
                order,
            ),
{
    let changes = &req.action.changes;
    let cwd = &req.action.cwd;
    let mut paths: Vec<std::path::PathBuf> = Vec::new();
    let mut i: usize = 0;
    while i < changes.len()
        invariant
            i <= changes@.len(),
            paths@ == changed_paths(changes@.take(i as int)),
        decreases changes@.len() - i,
    {
        paths.push(changes[i].0.clone());
        i = i + 1;
        assert(paths@ == changed_paths(changes@.take(i as int)));
    }
    assert(changes@.take(i as int) == changes@);
    let order = path_order(&paths);
    let mut steps: Vec<FsStep> = Vec::new();
    let mut added: Vec<std::path::PathBuf> = Vec::new();
    let mut modified: Vec<std::path::PathBuf> = Vec::new();
    let mut deleted: Vec<std::path::PathBuf> = Vec::new();
    let mut done: usize = 0;
    assert(deeds(steps@) == Seq::<Deed>::empty());
    while done < order.len()
        invariant
            done <= order@.len(),
            is_path_order(changed_paths(changes@), order@),
            deeds(steps@) == patch_deeds(changes@, order@.take(done as int)),
            added@ == files_of_kind(changes@, order@.take(done as int), *cwd, Kind::Added),
            modified@ == files_of_kind(changes@, order@.take(done as int), *cwd, Kind::Modified),
            deleted@ == files_of_kind(changes@, order@.take(done as int), *cwd, Kind::Deleted),
        decreases order@.len() - done,
    {
        let at: usize = order[done];
        let destination = push_change(&mut steps, &changes[at].0, &changes[at].1);
        let shown = display_path_relative_to_cwd(&destination, cwd);
        match &changes[at].1 {
            ApplyPatchFileChange::Add { .. } => {
                added.push(shown);
            },
            ApplyPatchFileChange::Delete { .. } => {
                deleted.push(shown);
            },
            ApplyPatchFileChange::Update { .. } => {
                modified.push(shown);
            },
        }
        done = done + 1;
        assert(order@.take(done as int).drop_last() == order@.take(done - 1));
    }
    assert(order@.take(done as int) == order@);
    PatchPlan {
        steps,
        affected: AffectedPaths {
            added: sorted_paths(&added),
            modified: sorted_paths(&modified),
            deleted: sorted_paths(&deleted),
        },
    }
}

} // verus!
