//! Where downloaded files are put, and under which names.

use crate::paths::brings_no_prefix;
use crate::paths::ends_in_prefix;
use crate::paths::has_prefix;
use crate::paths::lemma_one_piece;
use crate::paths::lemma_piece_more;
use crate::paths::named_part;
use crate::paths::named_parts;
use crate::paths::path_join;
use crate::paths::path_joined;
use crate::paths::path_parts;
use crate::paths::plain_name;
use crate::paths::plain_relative;
use crate::paths::prefixless;
use crate::paths::slash_pieces;
use crate::paths::PathPart;
use crate::text::chars_of;
use crate::text::equal_to;
use crate::text::joined;
use crate::text::trim_end_while;
use crate::text::trim_start_while;
use crate::text::trim_text_of;
use crate::text::trimmed_of;
use crate::text::trimming_leaves_the_middle;
use vstd::prelude::*;

verus! {

/// The name of a downloaded file that has no name of its own.
pub const UNNAMED_DOWNLOAD: &'static str = "downloaded-file";

/// A slash of either kind, or an ASCII control character.
pub open spec fn unfit_for_names(c: char) -> bool {
    c == '/' || c == '\\' || c as int <= 0x1f || c as int == 0x7f
}

/// The character that stands for `c` in names.
pub open spec fn fit_char(c: char) -> char {
    if unfit_for_names(c) {
        '_'
    } else {
        c
    }
}

/// `name` with an underscore for each character that is unfit for names.
pub open spec fn fit_for_names(name: Seq<char>) -> Seq<char> {
    name.map_values(|c: char| fit_char(c))
}

/// The name under which a file called `name` is kept: fit for names, without
/// dots at either end, and never empty.
pub open spec fn sanitized_name(name: Seq<char>) -> Seq<char> {
    let trimmed = trimmed_of(fit_for_names(name), '.');
    if trimmed.len() == 0 {
        UNNAMED_DOWNLOAD@
    } else {
        trimmed
    }
}

/// Whether `c` is a slash of either kind or an ASCII control character.
pub fn is_unfit_for_names(c: char) -> (r: bool)
    ensures
        r == unfit_for_names(c),
{
    let n: u32 = c as u32;
    c == '/' || c == '\\' || n <= 0x1f || n == 0x7f
}

/// The name under which a file called `file_name` is kept.
pub fn sanitize_download_file_name(file_name: &str) -> (r: String)
    ensures
        r@ == sanitized_name(file_name@),
{
    let chars = chars_of(file_name);
    let mut sanitized: String = String::new();
    let mut i: usize = 0;
    while i < chars.len()
        invariant
            i <= chars@.len(),
            sanitized@ == fit_for_names(chars@.take(i as int)),
        decreases chars@.len() - i,
    {
        let c: char = chars[i];
        if is_unfit_for_names(c) {
            sanitized.push('_');
        } else {
            sanitized.push(c);
        }
        i = i + 1;
        assert(sanitized@ == fit_for_names(chars@.take(i as int)));
    }
    assert(chars@.take(i as int) == file_name@);
    let trimmed = trim_text_of(sanitized.as_str(), '.');
    if trimmed.as_str().is_empty() {
        UNNAMED_DOWNLOAD.to_owned()
    } else {
        trimmed
    }
}

/// The directory in which the downloads of a scope are kept.
pub open spec fn managed_dir(cwd: std::path::PathBuf, scope: Seq<char>) -> std::path::PathBuf {
    path_joined(
        path_joined(path_joined(path_joined(cwd, ".codex"@), "tmp"@), "openai-files"@),
        scope,
    )
}

/// The components of the directory in which the downloads of a scope are
/// kept.
pub open spec fn managed_parts(cwd: Seq<PathPart>, scope: Seq<char>) -> Seq<PathPart> {
    cwd + seq![named_part(".codex"@), named_part("tmp"@), named_part("openai-files"@)]
        + named_parts(slash_pieces(scope))
}

/// Adjoining `part` to `base` brings no prefix of the platform about.
pub open spec fn joins_plainly(base: std::path::PathBuf, part: Seq<char>) -> bool {
    brings_no_prefix(path_parts(base), part, path_parts(path_joined(base, part)))
}

/// Nowhere on the way to the directory of a scope does a prefix of the
/// platform come about.
pub open spec fn managed_plainly(cwd: std::path::PathBuf, scope: Seq<char>) -> bool {
    let settings = path_joined(cwd, ".codex"@);
    let tmp = path_joined(settings, "tmp"@);
    let files = path_joined(tmp, "openai-files"@);
    &&& !ends_in_prefix(path_parts(cwd))
    &&& joins_plainly(cwd, ".codex"@)
    &&& joins_plainly(settings, "tmp"@)
    &&& joins_plainly(tmp, "openai-files"@)
    &&& joins_plainly(files, scope)
}

/// The directory in which the downloads of `scope` are kept. Where the scope
/// is made of plain names, and no prefix of the platform comes about, it lies
/// below `cwd`.
pub fn managed_download_dir(cwd: &std::path::PathBuf, scope: &str) -> (r: std::path::PathBuf)
    ensures
        r == managed_dir(*cwd, scope@),
        plain_relative(scope@) && managed_plainly(*cwd, scope@) ==> path_parts(r) == managed_parts(
            path_parts(*cwd),
            scope@,
        ) && !ends_in_prefix(path_parts(r)),
{
    proof {
        reveal_strlit(".codex");
        reveal_strlit("tmp");
        reveal_strlit("openai-files");
        reveal_strlit(".");
        reveal_strlit("..");
        lemma_plain_name_alone(".codex"@);
        lemma_plain_name_alone("tmp"@);
        lemma_plain_name_alone("openai-files"@);
    }
    let settings = path_join(cwd, ".codex");
    let tmp = path_join(&settings, "tmp");
    let files = path_join(&tmp, "openai-files");
    let r = path_join(&files, scope);
    proof {
        if plain_relative(scope@) && managed_plainly(*cwd, scope@) {
            assert(path_parts(files) == path_parts(*cwd) + seq![
                named_part(".codex"@),
                named_part("tmp"@),
                named_part("openai-files"@),
            ]);
            lemma_some_piece(scope@);
            assert(path_parts(r).last() is Normal);
        }
    }
    r
}

proof fn lemma_some_piece(text: Seq<char>)
    ensures
        slash_pieces(text).len() > 0,
    decreases text.len(),
{
    if text.len() > 0 {
        lemma_some_piece(text.drop_last());
    }
}

/// A plain name is, by itself, a relative path of one component.
proof fn lemma_plain_name_alone(name: Seq<char>)
    requires
        plain_name(name),
    ensures
        plain_relative(name),
        named_parts(slash_pieces(name)) == seq![named_part(name)],
{
    lemma_one_piece(name);
    assert(named_parts(seq![name]) == seq![named_part(name)]);
}

/// Where a download goes.
#[derive(Debug)]
pub struct DownloadPlace {
    pub dir: std::path::PathBuf,
    pub file_name: String,
    pub destination: std::path::PathBuf,
}

/// What the place of a download holds.
pub ghost struct Place {
    pub dir: std::path::PathBuf,
    pub file_name: Seq<char>,
    pub destination: std::path::PathBuf,
}

impl View for DownloadPlace {
    type V = Place;

    open spec fn view(&self) -> Place {
        Place { dir: self.dir, file_name: self.file_name@, destination: self.destination }
    }
}

/// Where a file called `name` goes.
pub open spec fn place_of(cwd: std::path::PathBuf, scope: Seq<char>, name: Seq<char>) -> Place {
    Place {
        dir: managed_dir(cwd, scope),
        file_name: sanitized_name(name),
        destination: path_joined(managed_dir(cwd, scope), sanitized_name(name)),
    }
}

/// The place lies in the scope's directory below `cwd`, directly under the
/// file name, unless the scope is no plain relative path or a prefix of the
/// platform comes about on the way.
pub open spec fn stays_below(cwd: std::path::PathBuf, scope: Seq<char>, place: Place) -> bool {
    plain_relative(scope) && managed_plainly(cwd, scope) ==> {
        &&& path_parts(place.dir) == managed_parts(path_parts(cwd), scope)
        &&& joins_plainly(place.dir, place.file_name) ==> path_parts(place.destination)
            == path_parts(place.dir).push(named_part(place.file_name))
    }
}

/// Where paths have no prefixes, every download into a plain scope lies in the
/// scope's directory below the working directory, directly under its name.
pub proof fn downloads_stay_below_where_no_path_has_a_prefix(
    cwd: std::path::PathBuf,
    scope: Seq<char>,
    place: Place,
)
    requires
        prefixless(),
        plain_relative(scope),
        stays_below(cwd, scope, place),
    ensures
        path_parts(place.dir) == managed_parts(path_parts(cwd), scope),
        path_parts(place.destination) == managed_parts(path_parts(cwd), scope).push(
            named_part(place.file_name),
        ),
        path_parts(cwd).is_prefix_of(path_parts(place.destination)),
{
    assert forall|path: std::path::PathBuf| !has_prefix(#[trigger] path_parts(path))
        && !ends_in_prefix(path_parts(path)) by {
        let parts = path_parts(path);
        if parts.len() > 0 {
            assert(!(parts[0] is Prefix) && !(parts[parts.len() - 1] is Prefix));
        }
    }
    let base = path_parts(cwd);
    let end = path_parts(place.destination);
    assert(end.subrange(0, base.len() as int) == base);
}

/// Where a file called `name` goes.
pub fn download_place(cwd: &std::path::PathBuf, scope: &str, name: &str) -> (r: DownloadPlace)
    ensures
        r@ == place_of(*cwd, scope@, name@),
        stays_below(*cwd, scope@, r@),
{
    let dir = managed_download_dir(cwd, scope);
    let file_name = sanitize_download_file_name(name);
    let destination = path_join(&dir, file_name.as_str());
    proof {
        sanitized_names_are_plain(name@);
        lemma_plain_name_alone(file_name@);
        assert(path_parts(dir) + seq![named_part(file_name@)] == path_parts(dir).push(
            named_part(file_name@),
        ));
    }
    DownloadPlace { dir, file_name, destination }
}

/// A name that files are kept under is never empty, holds no slash and no
/// control character, and has no dot at either end; so it is a plain name.
pub proof fn sanitized_names_are_plain(name: Seq<char>)
    ensures
        sanitized_name(name).len() > 0,
        sanitized_name(name).first() != '.',
        sanitized_name(name).last() != '.',
        forall|i: int|
            0 <= i < sanitized_name(name).len() ==> !unfit_for_names(
                #[trigger] sanitized_name(name)[i],
            ),
        plain_name(sanitized_name(name)),
{
    reveal_strlit("downloaded-file");
    reveal_strlit(".");
    reveal_strlit("..");
    let fit = fit_for_names(name);
    let (from, to) = trimming_leaves_the_middle(fit, '.');
    let kept = sanitized_name(name);
    if from < to {
        assert(kept == fit.subrange(from, to));
        assert forall|i: int| 0 <= i < kept.len() implies !unfit_for_names(#[trigger] kept[i]) by {
            assert(kept[i] == fit[from + i]);
        }
    }
    assert(!kept.contains('/') && !kept.contains('\\'));
}

/// A name that files are kept under stays as it is when it is sanitized again.
pub proof fn sanitizing_is_idempotent(name: Seq<char>)
    ensures
        sanitized_name(sanitized_name(name)) == sanitized_name(name),
{
    let kept = sanitized_name(name);
    sanitized_names_are_plain(name);
    assert(fit_for_names(kept) == kept);
    assert(trim_start_while(kept, equal_to('.')) == kept);
    assert(trim_end_while(kept, equal_to('.')) == kept);
}

/// A decimal digit or a letter from a to f.
pub open spec fn lower_hex(c: char) -> bool {
    '0' <= c <= '9' || 'a' <= c <= 'f'
}

/// The text is a random UUID, hyphenated and in lower case.
pub open spec fn random_uuid(text: Seq<char>) -> bool {
    &&& text.len() == 36
    &&& forall|i: int|
        0 <= i < 36 ==> if i == 8 || i == 13 || i == 18 || i == 23 {
            #[trigger] text[i] == '-'
        } else {
            lower_hex(text[i])
        }
    &&& text[14] == '4'
    &&& text[19] == '8' || text[19] == '9' || text[19] == 'a' || text[19] == 'b'
}

/// `uuid::Uuid::new_v4` makes a random UUID, which is shown hyphenated and in
/// lower case. That no two are the same is left unsaid: it is only
/// overwhelmingly likely. It panics where the system has no randomness to
/// give, which no argument can rule out.
#[verifier::external_body]
fn new_random_uuid() -> (r: String)
    ensures
        random_uuid(r@),
{
    uuid::Uuid::new_v4().to_string()
}

/// The scope of a download that was asked for by hand.
pub open spec fn manual_scope(uuid: Seq<char>) -> Seq<char> {
    "manual/"@ + uuid
}

/// The scope of a download that was asked for by hand, told apart by `uuid`.
pub fn manual_download_scope(uuid: &str) -> (r: String)
    ensures
        r@ == manual_scope(uuid@),
{
    joined("manual/", uuid)
}

/// A scope for a download that was asked for by hand.
pub fn unique_manual_download_scope() -> (r: String)
    ensures
        exists|uuid: Seq<char>| #[trigger] random_uuid(uuid) && r@ == manual_scope(uuid),
{
    let uuid = new_random_uuid();
    manual_download_scope(uuid.as_str())
}

/// The scope of a download that was asked for by hand is a plain relative
/// path of two names, so that such downloads stay below the working
/// directory.
pub proof fn manual_scopes_are_plain(uuid: Seq<char>)
    requires
        random_uuid(uuid),
    ensures
        plain_relative(manual_scope(uuid)),
        slash_pieces(manual_scope(uuid)) == seq!["manual"@, uuid],
{
    reveal_strlit("manual/");
    reveal_strlit("manual");
    reveal_strlit(".");
    reveal_strlit("..");
    assert forall|i: int| 0 <= i < uuid.len() implies #[trigger] uuid[i] != '/' && uuid[i] != '\\'
        && uuid[i] != ':' by {}
    lemma_one_piece("manual"@);
    lemma_piece_more("manual"@, uuid);
    assert("manual/"@ == "manual"@.push('/'));
    assert(slash_pieces(manual_scope(uuid)) == seq!["manual"@, uuid]);
    assert(plain_name("manual"@));
    assert(plain_name(uuid));
}

} // verus!
