//! What holds of every plan for a patch.

use crate::paths::is_path_order;
use crate::paths::path_above;
use crate::paths::path_parts;
use crate::paths::PathPart;
use crate::tools::apply_patch::plan::change_deeds;
use crate::tools::apply_patch::plan::changed_paths;
use crate::tools::apply_patch::plan::destination_of;
use crate::tools::apply_patch::plan::files_of_kind;
use crate::tools::apply_patch::plan::kind_of;
use crate::tools::apply_patch::plan::moves_away;
use crate::tools::apply_patch::plan::patch_deeds;
use crate::tools::apply_patch::plan::paths_at;
use crate::tools::apply_patch::plan::shown_change;
use crate::tools::apply_patch::plan::sorts;
use crate::tools::apply_patch::plan::write_deeds;
use crate::tools::apply_patch::plan::Deed;
use crate::tools::apply_patch::plan::Kind;
use crate::tools::apply_patch::request::paths_once;
use crate::tools::apply_patch::request::ApplyPatchAction;
use crate::tools::apply_patch::request::ApplyPatchFileChange;
use vstd::prelude::*;
use vstd::set_lib::lemma_int_range;
use vstd::set_lib::lemma_subset_equality;
use vstd::set_lib::set_int_range;

verus! {

/// The deed at `k` removes a file that the change at `i` deletes, or that it
/// moves away and has written at its new place just before.
pub open spec fn removes_for(
    changes: Seq<(std::path::PathBuf, ApplyPatchFileChange)>,
    all: Seq<Deed>,
    k: int,
    i: usize,
) -> bool {
    let (path, change) = changes[i as int];
    &&& all[k] == Deed::RemoveFile(path)
    &&& change is Update ==> moves_away(path, change) && k > 0 && all[k - 1] == Deed::WriteFile(
        destination_of(path, change),
        change->new_content@,
    )
    &&& change is Update || change is Delete
}

/// The deeds for the change at `i` stand together from `at` on.
pub open spec fn done_at(
    changes: Seq<(std::path::PathBuf, ApplyPatchFileChange)>,
    all: Seq<Deed>,
    i: usize,
    at: int,
) -> bool {
    let part = change_deeds(changes[i as int].0, changes[i as int].1);
    0 <= at && at + part.len() <= all.len() && all.subrange(at, at + part.len()) == part
}

/// Nothing is removed but what a change deletes, or moves away; and what is
/// moved away is written at its new place before it is removed from the old
/// one.
pub proof fn files_are_removed_only_when_deleted_or_moved(
    changes: Seq<(std::path::PathBuf, ApplyPatchFileChange)>,
    order: Seq<usize>,
    k: int,
)
    requires
        0 <= k < patch_deeds(changes, order).len(),
        patch_deeds(changes, order)[k] is RemoveFile,
    ensures
        exists|i: usize| #[trigger]
            order.contains(i) && removes_for(changes, patch_deeds(changes, order), k, i),
    decreases order.len(),
{
    let last = order.last();
    let init = order.drop_last();
    let before = patch_deeds(changes, init);
    let all = patch_deeds(changes, order);
    if k < before.len() {
        assert(all[k] == before[k]);
        files_are_removed_only_when_deleted_or_moved(changes, init, k);
        let i = choose|i: usize| #[trigger]
            init.contains(i) && removes_for(changes, before, k, i);
        let j = choose|j: int| 0 <= j < init.len() && init[j] == i;
        assert(order[j] == i);
        assert(order.contains(i));
        if k > 0 {
            assert(all[k - 1] == before[k - 1]);
        }
        assert(removes_for(changes, all, k, i));
    } else {
        let (path, change) = changes[last as int];
        let part = change_deeds(path, change);
        assert(all[k] == part[k - before.len()]);
        assert(order[order.len() - 1] == last);
        assert(order.contains(last));
        if change is Update {
            assert(k - before.len() == part.len() - 1);
            assert(all[k - 1] == part[part.len() - 2]);
        }
        assert(removes_for(changes, all, k, last));
    }
}

/// A file is never written before the directory that it is in is created.
pub proof fn directories_are_created_before_their_files(
    changes: Seq<(std::path::PathBuf, ApplyPatchFileChange)>,
    order: Seq<usize>,
    k: int,
)
    requires
        0 <= k < patch_deeds(changes, order).len(),
    ensures
        patch_deeds(changes, order)[k] matches Deed::WriteFile(path, _) ==> (path_above(
            path,
        ) matches Some(dir) ==> k > 0 && patch_deeds(changes, order)[k - 1] == Deed::CreateDirAll(
            dir,
        )),
    decreases order.len(),
{
    let init = order.drop_last();
    let before = patch_deeds(changes, init);
    let all = patch_deeds(changes, order);
    if k < before.len() {
        directories_are_created_before_their_files(changes, init, k);
        assert(all[k] == before[k]);
        if k > 0 {
            assert(all[k - 1] == before[k - 1]);
        }
    } else {
        let (path, change) = changes[order.last() as int];
        let part = change_deeds(path, change);
        assert(all[k] == part[k - before.len()]);
        if k > before.len() {
            assert(all[k - 1] == part[k - 1 - before.len()]);
        }
    }
}

/// Every change that is taken is done in full, its deeds together.
pub proof fn every_change_is_done_in_full(
    changes: Seq<(std::path::PathBuf, ApplyPatchFileChange)>,
    order: Seq<usize>,
    i: usize,
)
    requires
        is_path_order(changed_paths(changes), order),
        i < changes.len(),
    ensures
        exists|at: int| #[trigger] done_at(changes, patch_deeds(changes, order), i, at),
{
    let k = lemma_order_takes_all(changed_paths(changes).len() as int, order, i as int);
    assert(order[k] == i);
    lemma_taken_change_is_done(changes, order, i);
}

proof fn lemma_taken_change_is_done(
    changes: Seq<(std::path::PathBuf, ApplyPatchFileChange)>,
    order: Seq<usize>,
    i: usize,
)
    requires
        order.contains(i),
    ensures
        exists|at: int| #[trigger] done_at(changes, patch_deeds(changes, order), i, at),
    decreases order.len(),
{
    let init = order.drop_last();
    let before = patch_deeds(changes, init);
    let all = patch_deeds(changes, order);
    let part = change_deeds(changes[i as int].0, changes[i as int].1);
    if order.last() == i {
        assert(all.subrange(before.len() as int, all.len() as int) == part);
        assert(done_at(changes, all, i, before.len() as int));
    } else {
        let j = choose|j: int| 0 <= j < order.len() && order[j] == i;
        assert(init[j] == i);
        lemma_taken_change_is_done(changes, init, i);
        let at = choose|at: int| #[trigger] done_at(changes, before, i, at);
        assert(all.subrange(at, at + part.len()) == before.subrange(at, at + part.len()));
        assert(done_at(changes, all, i, at));
    }
}

/// Every changed file is listed under what is done to it, and as many files
/// are listed as there are changes.
pub proof fn every_changed_file_is_listed(
    changes: Seq<(std::path::PathBuf, ApplyPatchFileChange)>,
    order: Seq<usize>,
    cwd: std::path::PathBuf,
    i: usize,
)
    requires
        is_path_order(changed_paths(changes), order),
    ensures
        files_of_kind(changes, order, cwd, Kind::Added).len() + files_of_kind(
            changes,
            order,
            cwd,
            Kind::Modified,
        ).len() + files_of_kind(changes, order, cwd, Kind::Deleted).len() == changes.len(),
        i < changes.len() ==> files_of_kind(
            changes,
            order,
            cwd,
            kind_of(changes[i as int].1),
        ).contains(shown_change(changes[i as int], cwd)),
{
    lemma_kinds_add_up(changes, order, cwd);
    if i < changes.len() {
        let k = lemma_order_takes_all(changed_paths(changes).len() as int, order, i as int);
        assert(order[k] == i);
        lemma_taken_file_is_listed(changes, order, cwd, i);
    }
}

proof fn lemma_kinds_add_up(
    changes: Seq<(std::path::PathBuf, ApplyPatchFileChange)>,
    order: Seq<usize>,
    cwd: std::path::PathBuf,
)
    ensures
        files_of_kind(changes, order, cwd, Kind::Added).len() + files_of_kind(
            changes,
            order,
            cwd,
            Kind::Modified,
        ).len() + files_of_kind(changes, order, cwd, Kind::Deleted).len() == order.len(),
    decreases order.len(),
{
    if order.len() > 0 {
        lemma_kinds_add_up(changes, order.drop_last(), cwd);
    }
}

proof fn lemma_taken_file_is_listed(
    changes: Seq<(std::path::PathBuf, ApplyPatchFileChange)>,
    order: Seq<usize>,
    cwd: std::path::PathBuf,
    i: usize,
)
    requires
        order.contains(i),
    ensures
        files_of_kind(changes, order, cwd, kind_of(changes[i as int].1)).contains(
            shown_change(changes[i as int], cwd),
        ),
    decreases order.len(),
{
    let init = order.drop_last();
    let kind = kind_of(changes[i as int].1);
    let shown = shown_change(changes[i as int], cwd);
    let before = files_of_kind(changes, init, cwd, kind);
    let all = files_of_kind(changes, order, cwd, kind);
    if order.last() == i {
        assert(all.last() == shown);
    } else {
        let j = choose|j: int| 0 <= j < order.len() && order[j] == i;
        assert(init[j] == i);
        lemma_taken_file_is_listed(changes, init, cwd, i);
        let at = choose|at: int| 0 <= at < before.len() && before[at] == shown;
        assert(all[at] == shown);
    }
}

/// Sorting keeps every path, and as often as it was there.
pub proof fn sorting_keeps_every_path(
    sorted: Seq<std::path::PathBuf>,
    paths: Seq<std::path::PathBuf>,
)
    requires
        sorts(sorted, paths),
    ensures
        sorted.len() == paths.len(),
        forall|path: std::path::PathBuf| sorted.contains(path) <==> paths.contains(path),
        sorted.to_multiset() == paths.to_multiset(),
{
    let order = choose|order: Seq<usize>| #[trigger]
        is_path_order(paths, order) && sorted == paths_at(paths, order);
    assert forall|path: std::path::PathBuf| sorted.contains(path) <==> paths.contains(path) by {
        if sorted.contains(path) {
            let k = choose|k: int| 0 <= k < sorted.len() && sorted[k] == path;
            assert(paths[order[k] as int] == path);
        }
        if paths.contains(path) {
            let i = choose|i: int| 0 <= i < paths.len() && paths[i] == path;
            let k = lemma_order_takes_all(paths.len() as int, order, i);
            assert(sorted[k] == path);
        }
    }
    lemma_reordered_multiset(paths, order);
}

/// Taking distinct positions of a list, all of them, takes what it holds.
proof fn lemma_reordered_multiset(paths: Seq<std::path::PathBuf>, order: Seq<usize>)
    requires
        order.len() == paths.len(),
        order.no_duplicates(),
        forall|i: int| 0 <= i < order.len() ==> 0 <= #[trigger] order[i] < paths.len(),
    ensures
        paths_at(paths, order).to_multiset() == paths.to_multiset(),
    decreases paths.len(),
{
    broadcast use vstd::seq_lib::group_to_multiset_ensures;

    if paths.len() > 0 {
        let n = paths.len() - 1;
        let k = lemma_order_takes_all(paths.len() as int, order, n);
        let rest = order.remove(k);
        let init = paths.drop_last();
        assert forall|i: int| 0 <= i < rest.len() implies 0 <= #[trigger] rest[i] < init.len() by {
            let j = if i < k {
                i
            } else {
                i + 1
            };
            assert(rest[i] == order[j]);
            assert(order[j] != order[k]);
        }
        assert(rest.no_duplicates()) by {
            assert forall|a: int, b: int|
                0 <= a < rest.len() && 0 <= b < rest.len() && a != b implies rest[a] != rest[b] by {
                let c = if a < k {
                    a
                } else {
                    a + 1
                };
                let d = if b < k {
                    b
                } else {
                    b + 1
                };
                assert(rest[a] == order[c] && rest[b] == order[d]);
            }
        }
        lemma_reordered_multiset(init, rest);
        let all = paths_at(paths, order);
        assert(paths_at(init, rest) == all.remove(k));
        assert(all[k] == paths[n]);
        assert(all.to_multiset() == all.remove(k).to_multiset().insert(all[k]));
        assert(paths == init.push(paths[n]));
        assert(paths.to_multiset() == init.to_multiset().insert(paths[n]));
    } else {
        assert(paths_at(paths, order) == paths);
    }
}

/// Files and what they hold, each under the components of its path.
pub type Files = Map<Seq<PathPart>, Seq<char>>;

/// The files once a deed has been done.
pub open spec fn after_deed(files: Files, deed: Deed) -> Files {
    match deed {
        Deed::CreateDirAll(_) => files,
        Deed::WriteFile(path, content) => files.insert(path_parts(path), content),
        Deed::RemoveFile(path) => files.remove(path_parts(path)),
    }
}

/// The files once deeds have been done, one after the other.
pub open spec fn after_deeds(files: Files, all: Seq<Deed>) -> Files
    decreases all.len(),
{
    if all.len() == 0 {
        files
    } else {
        after_deed(after_deeds(files, all.drop_last()), all.last())
    }
}

/// The change is about the file with these components: it stands there, or
/// ends up there.
pub open spec fn touches(
    change: (std::path::PathBuf, ApplyPatchFileChange),
    file: Seq<PathPart>,
) -> bool {
    file == path_parts(change.0) || file == path_parts(destination_of(change.0, change.1))
}

/// No file is touched by both changes.
pub open spec fn apart(
    a: (std::path::PathBuf, ApplyPatchFileChange),
    b: (std::path::PathBuf, ApplyPatchFileChange),
) -> bool {
    &&& !touches(a, path_parts(b.0))
    &&& !touches(a, path_parts(destination_of(b.0, b.1)))
}

/// The files are as the change wants them: what it adds or updates holds the
/// new content where it ends up, and what it deletes or moves away is gone.
pub open spec fn in_effect(
    files: Files,
    change: (std::path::PathBuf, ApplyPatchFileChange),
) -> bool {
    let (path, what) = change;
    match what {
        ApplyPatchFileChange::Add { content } => files.get(path_parts(path)) == Some(content@),
        ApplyPatchFileChange::Delete { .. } => !files.contains_key(path_parts(path)),
        ApplyPatchFileChange::Update { new_content, .. } => {
            &&& files.get(path_parts(destination_of(path, what))) == Some(new_content@)
            &&& moves_away(path, what) ==> !files.contains_key(path_parts(path))
        },
    }
}

pub(crate) proof fn lemma_after_deeds_concat(files: Files, a: Seq<Deed>, b: Seq<Deed>)
    ensures
        after_deeds(files, a + b) == after_deeds(after_deeds(files, a), b),
    decreases b.len(),
{
    if b.len() == 0 {
        assert(a + b == a);
    } else {
        assert((a + b).drop_last() == a + b.drop_last());
        assert((a + b).last() == b.last());
        lemma_after_deeds_concat(files, a, b.drop_last());
    }
}

/// What the deeds of a single change do to files.
pub(crate) proof fn lemma_change_deeds(
    files: Files,
    change: (std::path::PathBuf, ApplyPatchFileChange),
    file: Seq<PathPart>,
)
    ensures
        in_effect(after_deeds(files, change_deeds(change.0, change.1)), change),
        !touches(change, file) ==> after_deeds(files, change_deeds(change.0, change.1)).get(file)
            == files.get(file),
{
    reveal_with_fuel(after_deeds, 4);
    let (path, what) = change;
    let part = change_deeds(path, what);
    match what {
        ApplyPatchFileChange::Add { content } => {
            lemma_write_deeds(files, path, content@);
        },
        ApplyPatchFileChange::Delete { .. } => {
            assert(part.drop_last() == Seq::<Deed>::empty());
        },
        ApplyPatchFileChange::Update { new_content, .. } => {
            let destination = destination_of(path, what);
            let written = write_deeds(destination, new_content@);
            lemma_write_deeds(files, destination, new_content@);
            if moves_away(path, what) {
                assert(part.drop_last() == written);
                assert(part.last() == Deed::RemoveFile(path));
            } else {
                assert(part == written);
            }
        },
    }
}

proof fn lemma_write_deeds(files: Files, path: std::path::PathBuf, content: Seq<char>)
    ensures
        after_deeds(files, write_deeds(path, content)) == files.insert(path_parts(path), content),
{
    reveal_with_fuel(after_deeds, 3);
    let written = write_deeds(path, content);
    assert(written.last() == Deed::WriteFile(path, content));
    if let Some(dir) = path_above(path) {
        assert(written.drop_last() == seq![Deed::CreateDirAll(dir)]);
        assert(written.drop_last().drop_last() == Seq::<Deed>::empty());
    } else {
        assert(written.drop_last() == Seq::<Deed>::empty());
    }
}

/// A plan touches no file but those that its changes are about.
pub proof fn other_files_are_left_alone(
    files: Files,
    changes: Seq<(std::path::PathBuf, ApplyPatchFileChange)>,
    order: Seq<usize>,
    file: Seq<PathPart>,
)
    requires
        forall|k: int|
            0 <= k < order.len() ==> !touches(changes[#[trigger] order[k] as int], file),
    ensures
        after_deeds(files, patch_deeds(changes, order)).get(file) == files.get(file),
    decreases order.len(),
{
    if order.len() > 0 {
        let init = order.drop_last();
        let change = changes[order.last() as int];
        let before = patch_deeds(changes, init);
        assert(order[order.len() - 1] == order.last());
        assert forall|k: int| 0 <= k < init.len() implies !touches(
            changes[#[trigger] init[k] as int],
            file,
        ) by {
            assert(init[k] == order[k]);
        }
        other_files_are_left_alone(files, changes, init, file);
        lemma_after_deeds_concat(files, before, change_deeds(change.0, change.1));
        lemma_change_deeds(after_deeds(files, before), change, file);
    }
}

/// A change is in effect at the end unless a later one is about one of its
/// files.
pub proof fn changes_stay_in_effect(
    files: Files,
    changes: Seq<(std::path::PathBuf, ApplyPatchFileChange)>,
    order: Seq<usize>,
    k: int,
)
    requires
        0 <= k < order.len(),
        forall|m: int|
            k < m < order.len() ==> apart(
                changes[#[trigger] order[m] as int],
                changes[order[k] as int],
            ),
    ensures
        in_effect(after_deeds(files, patch_deeds(changes, order)), changes[order[k] as int]),
    decreases order.len(),
{
    let init = order.drop_last();
    let change = changes[order.last() as int];
    let ours = changes[order[k] as int];
    let before = after_deeds(files, patch_deeds(changes, init));
    let part = change_deeds(change.0, change.1);
    lemma_after_deeds_concat(files, patch_deeds(changes, init), part);
    if k == order.len() - 1 {
        lemma_change_deeds(before, change, path_parts(change.0));
    } else {
        assert(init[k] == order[k]);
        assert forall|m: int| k < m < init.len() implies apart(
            changes[#[trigger] init[m] as int],
            changes[init[k] as int],
        ) by {
            assert(init[m] == order[m]);
        }
        changes_stay_in_effect(files, changes, init, k);
        assert(order[order.len() - 1] == order.last());
        assert(apart(change, ours));
        let destination = path_parts(destination_of(ours.0, ours.1));
        lemma_change_deeds(before, change, path_parts(ours.0));
        lemma_change_deeds(before, change, destination);
        let after = after_deeds(before, part);
        assert(after.get(path_parts(ours.0)) == before.get(path_parts(ours.0)));
        assert(after.get(destination) == before.get(destination));
        assert(in_effect(after, ours));
    }
}

/// A plan puts every change of the patch into effect that shares no file with
/// another.
pub proof fn separate_changes_take_effect(
    files: Files,
    changes: Seq<(std::path::PathBuf, ApplyPatchFileChange)>,
    order: Seq<usize>,
    i: usize,
)
    requires
        is_path_order(changed_paths(changes), order),
        i < changes.len(),
        forall|j: int|
            0 <= j < changes.len() && j != i ==> apart(#[trigger] changes[j], changes[i as int]),
    ensures
        in_effect(after_deeds(files, patch_deeds(changes, order)), changes[i as int]),
{
    let k = lemma_order_takes_all(changed_paths(changes).len() as int, order, i as int);
    assert forall|m: int| k < m < order.len() implies apart(
        changes[#[trigger] order[m] as int],
        changes[order[k] as int],
    ) by {
        assert(order[m] != order[k]);
        assert(0 <= order[m] < changed_paths(changes).len());
    }
    changes_stay_in_effect(files, changes, order, k);
}

/// A patch that moves nothing and changes no file twice is put into effect
/// as a whole.
pub proof fn patches_without_moves_take_effect(
    files: Files,
    action: ApplyPatchAction,
    order: Seq<usize>,
    i: usize,
)
    requires
        is_path_order(changed_paths(action.changes@), order),
        i < action.changes@.len(),
        action.well_formed(),
        forall|j: int|
            0 <= j < action.changes@.len() ==> !moves_away(
                (#[trigger] action.changes@[j]).0,
                action.changes@[j].1,
            ),
    ensures
        in_effect(
            after_deeds(files, patch_deeds(action.changes@, order)),
            action.changes@[i as int],
        ),
{
    let changes = action.changes@;
    assert forall|j: int| 0 <= j < changes.len() && j != i implies apart(
        #[trigger] changes[j],
        changes[i as int],
    ) by {
        let ours = changes[i as int];
        assert(!moves_away(ours.0, ours.1));
        assert(!moves_away(changes[j].0, changes[j].1));
    }
    separate_changes_take_effect(files, changes, order, i);
}

/// The first `done` deeds of a plan are those of the first `k` changes that it
/// takes, in full, and behind them some of those of the next, but not all.
pub open spec fn cut_within(
    changes: Seq<(std::path::PathBuf, ApplyPatchFileChange)>,
    order: Seq<usize>,
    done: int,
    k: int,
) -> bool {
    let full = patch_deeds(changes, order.take(k));
    let (path, change) = changes[order[k] as int];
    let next = change_deeds(path, change);
    &&& 0 <= k < order.len()
    &&& full.len() <= done < full.len() + next.len()
    &&& patch_deeds(changes, order).take(done) == full + next.take(done - full.len())
}

/// A plan takes its changes one by one: the deeds of the first `k` of them
/// come first, and those of the next right behind.
pub proof fn plans_go_change_by_change(
    changes: Seq<(std::path::PathBuf, ApplyPatchFileChange)>,
    order: Seq<usize>,
    k: int,
)
    requires
        0 <= k < order.len(),
    ensures
        patch_deeds(changes, order.take(k + 1)) == patch_deeds(changes, order.take(k))
            + change_deeds(changes[order[k] as int].0, changes[order[k] as int].1),
        patch_deeds(changes, order.take(k + 1)).is_prefix_of(patch_deeds(changes, order)),
    decreases order.len(),
{
    assert(order.take(k + 1).drop_last() == order.take(k));
    assert(order.take(k + 1).last() == order[k]);
    let all = patch_deeds(changes, order);
    if k + 1 == order.len() {
        assert(order.take(k + 1) == order);
        assert(all.subrange(0, all.len() as int) == all);
    } else {
        let init = order.drop_last();
        plans_go_change_by_change(changes, init, k);
        assert(init.take(k + 1) == order.take(k + 1));
        let front = patch_deeds(changes, order.take(k + 1));
        let before = patch_deeds(changes, init);
        assert(all.subrange(0, front.len() as int) == before.subrange(0, front.len() as int));
    }
}

/// A plan that stops at a deed that fails has done some number of its changes
/// in full and at most a part of the next; of those that come after, in the
/// order of the paths, it has done nothing.
pub proof fn stopped_plans_have_done_the_first_changes(
    changes: Seq<(std::path::PathBuf, ApplyPatchFileChange)>,
    order: Seq<usize>,
    done: int,
)
    requires
        0 <= done < patch_deeds(changes, order).len(),
    ensures
        exists|k: int| #[trigger] cut_within(changes, order, done, k),
    decreases order.len(),
{
    let init = order.drop_last();
    let before = patch_deeds(changes, init);
    let all = patch_deeds(changes, order);
    let n = order.len() - 1;
    let (path, change) = changes[order.last() as int];
    let part = change_deeds(path, change);
    if done < before.len() {
        stopped_plans_have_done_the_first_changes(changes, init, done);
        let k = choose|k: int| #[trigger] cut_within(changes, init, done, k);
        assert(init.take(k) == order.take(k));
        assert(init[k] == order[k]);
        assert(all.take(done) == before.take(done));
        assert(cut_within(changes, order, done, k));
    } else {
        assert(order.take(n) == init);
        assert(order[n] == order.last());
        assert(all.take(done) == before + part.take(done - before.len()));
        assert(cut_within(changes, order, done, n));
    }
}

/// Files that only later changes are about are as they were when a plan stops.
pub proof fn stopped_plans_leave_later_files_alone(
    files: Files,
    changes: Seq<(std::path::PathBuf, ApplyPatchFileChange)>,
    order: Seq<usize>,
    done: int,
    k: int,
    file: Seq<PathPart>,
)
    requires
        cut_within(changes, order, done, k),
        forall|m: int| 0 <= m <= k ==> !touches(changes[#[trigger] order[m] as int], file),
    ensures
        after_deeds(files, patch_deeds(changes, order).take(done)).get(file) == files.get(file),
{
    let front = order.take(k);
    let full = patch_deeds(changes, front);
    let change = changes[order[k] as int];
    let next = change_deeds(change.0, change.1);
    assert forall|m: int| 0 <= m < front.len() implies !touches(
        changes[#[trigger] front[m] as int],
        file,
    ) by {
        assert(front[m] == order[m]);
    }
    other_files_are_left_alone(files, changes, front, file);
    lemma_after_deeds_concat(files, full, next.take(done - full.len()));
    lemma_part_of_change(after_deeds(files, full), change, done - full.len(), file);
}

proof fn lemma_part_of_change(
    files: Files,
    change: (std::path::PathBuf, ApplyPatchFileChange),
    t: int,
    file: Seq<PathPart>,
)
    requires
        0 <= t <= change_deeds(change.0, change.1).len(),
        !touches(change, file),
    ensures
        after_deeds(files, change_deeds(change.0, change.1).take(t)).get(file) == files.get(file),
    decreases t,
{
    let part = change_deeds(change.0, change.1);
    if t > 0 {
        lemma_part_of_change(files, change, t - 1, file);
        assert(part.take(t).drop_last() == part.take(t - 1));
        assert(part.take(t).last() == part[t - 1]);
    }
}

/// Where a patch changes no file twice, neither does a plan: no two of the
/// paths that it takes are the same.
pub proof fn every_path_is_taken_once(action: ApplyPatchAction, order: Seq<usize>)
    requires
        is_path_order(changed_paths(action.changes@), order),
        action.well_formed(),
    ensures
        paths_once(order.map_values(|i: usize| action.changes@[i as int])),
{
    let changes = action.changes@;
    let taken = order.map_values(|i: usize| changes[i as int]);
    assert forall|a: int, b: int| 0 <= a < b < taken.len() implies path_parts(
        (#[trigger] taken[a]).0,
    ) != path_parts((#[trigger] taken[b]).0) by {
        assert(order[a] != order[b]);
        assert(0 <= order[a] < changed_paths(changes).len());
        assert(0 <= order[b] < changed_paths(changes).len());
        let i = order[a] as int;
        let j = order[b] as int;
        assert(taken[a] == changes[i] && taken[b] == changes[j]);
        if i < j {
            assert(path_parts(changes[i].0) != path_parts(changes[j].0));
        } else {
            assert(path_parts(changes[j].0) != path_parts(changes[i].0));
        }
    }
}

/// As many distinct positions as there are take every one of them.
pub(crate) proof fn lemma_order_takes_all(n: int, order: Seq<usize>, i: int) -> (k: int)
    requires
        order.len() == n,
        order.no_duplicates(),
        forall|k: int| 0 <= k < order.len() ==> 0 <= #[trigger] order[k] < n,
        0 <= i < n,
    ensures
        0 <= k < order.len(),
        order[k] == i,
{
    let ints = order.map_values(|x: usize| x as int);
    assert(ints.no_duplicates());
    ints.unique_seq_to_set();
    let all = set_int_range(0, n);
    lemma_int_range(0, n);
    assert forall|x: int| ints.to_set().contains(x) implies all.contains(x) by {
        let k = choose|k: int| 0 <= k < ints.len() && ints[k] == x;
        assert(ints[k] == order[k]);
    }
    lemma_subset_equality(ints.to_set(), all);
    assert(ints.to_set().contains(i));
    choose|k: int| 0 <= k < ints.len() && ints[k] == i
}

} // verus!
