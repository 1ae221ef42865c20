//! Paths of `std::path`, seen as the components they are made of.

use crate::text::opt_text;
use vstd::prelude::*;
use vstd::utf8::decode_utf8;
use vstd::utf8::encode_utf8;
use vstd::utf8::valid_utf8;

verus! {

/// An owned path of the platform.
#[verifier::external_type_specification]
#[verifier::external_body]
pub struct ExPathBuf(std::path::PathBuf);

/// A component of a path, as `std::path::Path::components` tells them apart.
/// A name is given by its bytes, which for a Unicode name are its UTF-8.
pub ghost enum PathPart {
    Prefix(Seq<u8>),
    Root,
    Current,
    Parent,
    Normal(Seq<u8>),
}

/// The components of a path.
pub uninterp spec fn path_parts(path: std::path::PathBuf) -> Seq<PathPart>;

/// A path as text, with whatever is not valid Unicode in it replaced.
pub uninterp spec fn path_lossy(path: std::path::PathBuf) -> Seq<char>;

/// A path as it is shown to people.
pub uninterp spec fn path_shown(path: std::path::PathBuf) -> Seq<char>;

/// The order in which `std` puts paths with these components.
pub uninterp spec fn parts_ordered(a: Seq<PathPart>, b: Seq<PathPart>) -> bool;

/// A path with the path `part` adjoined.
pub uninterp spec fn path_joined(base: std::path::PathBuf, part: Seq<char>) -> std::path::PathBuf;

/// A path without its final component, where that can be taken off.
pub uninterp spec fn path_above(path: std::path::PathBuf) -> Option<std::path::PathBuf>;

/// A path with `name` for a file name.
pub uninterp spec fn path_renamed(path: std::path::PathBuf, name: Seq<char>) -> std::path::PathBuf;

/// What follows `base` in a path, where the path begins with it.
pub uninterp spec fn path_below(
    path: std::path::PathBuf,
    base: std::path::PathBuf,
) -> Option<std::path::PathBuf>;

/// The component with the name `name`.
pub open spec fn named_part(name: Seq<char>) -> PathPart {
    PathPart::Normal(encode_utf8(name))
}

/// The components with the names `names`.
pub open spec fn named_parts(names: Seq<Seq<char>>) -> Seq<PathPart> {
    names.map_values(|n: Seq<char>| named_part(n))
}

/// `name` is the name of a single component, wherever it does not begin a
/// path that a platform reads as one on a drive.
pub open spec fn plain_name(name: Seq<char>) -> bool {
    &&& name.len() > 0
    &&& name != "."@
    &&& name != ".."@
    &&& !name.contains('/')
    &&& !name.contains('\\')
}

/// The text begins as a path on a drive does.
pub open spec fn drive_like(text: Seq<char>) -> bool {
    text.len() >= 2 && text[1] == ':'
}

/// The pieces of `text` between its slashes.
pub open spec fn slash_pieces(text: Seq<char>) -> Seq<Seq<char>>
    decreases text.len(),
{
    if text.len() == 0 {
        seq![Seq::empty()]
    } else {
        let rest = slash_pieces(text.drop_last());
        if text.last() == '/' {
            rest.push(Seq::empty())
        } else {
            rest.update(rest.len() - 1, rest.last().push(text.last()))
        }
    }
}

/// `text` is a relative path made of plain names.
pub open spec fn plain_relative(text: Seq<char>) -> bool {
    forall|i: int| 0 <= i < slash_pieces(text).len() ==> plain_name(#[trigger] slash_pieces(text)[i])
}

/// The path is no more than a prefix of the platform, such as a drive.
pub open spec fn ends_in_prefix(parts: Seq<PathPart>) -> bool {
    parts.len() > 0 && parts.last() is Prefix
}

/// The path begins with a prefix of the platform, such as a drive.
pub open spec fn has_prefix(parts: Seq<PathPart>) -> bool {
    parts.len() > 0 && parts.first() is Prefix
}

/// The prefix of the platform with which the path begins, if it does.
pub open spec fn prefix_of(parts: Seq<PathPart>) -> Option<PathPart> {
    if has_prefix(parts) {
        Some(parts.first())
    } else {
        None
    }
}

/// Both begin with the same prefix of the platform, or neither with one.
pub open spec fn same_prefix(a: Seq<PathPart>, b: Seq<PathPart>) -> bool {
    prefix_of(a) == prefix_of(b)
}

/// No path has a prefix, as on every platform but Windows.
pub open spec fn prefixless() -> bool {
    forall|path: std::path::PathBuf, i: int|
        0 <= i < path_parts(path).len() ==> !(#[trigger] path_parts(path)[i] is Prefix)
}

/// No prefix of the platform comes about, or is exchanged for another, when
/// `text` is put behind `base` and the path becomes `result`.
pub open spec fn brings_no_prefix(
    base: Seq<PathPart>,
    text: Seq<char>,
    result: Seq<PathPart>,
) -> bool {
    same_prefix(result, base) && (drive_like(text) ==> !has_prefix(result))
}

/// The name of the last component, where that is a name and valid Unicode.
pub open spec fn file_name_of(parts: Seq<PathPart>) -> Option<Seq<char>> {
    if parts.len() == 0 {
        None
    } else {
        match parts.last() {
            PathPart::Normal(bytes) => if valid_utf8(bytes) {
                Some(decode_utf8(bytes))
            } else {
                None
            },
            _ => None,
        }
    }
}

/// The last component can be taken off.
pub open spec fn has_parent(parts: Seq<PathPart>) -> bool {
    parts.len() > 0 && !(parts.last() is Root) && !(parts.last() is Prefix)
}

/// The components without the file name, where there is one.
pub open spec fn without_file_name(parts: Seq<PathPart>) -> Seq<PathPart> {
    if parts.len() > 0 && parts.last() is Normal {
        parts.drop_last()
    } else {
        parts
    }
}

/// Text without a slash is a single piece.
pub proof fn lemma_one_piece(text: Seq<char>)
    requires
        !text.contains('/'),
    ensures
        slash_pieces(text) == seq![text],
    decreases text.len(),
{
    if text.len() > 0 {
        let init = text.drop_last();
        assert forall|i: int| 0 <= i < init.len() implies #[trigger] init[i] != '/' by {
            assert(text.contains(text[i]));
        }
        lemma_one_piece(init);
        assert(text.contains(text.last()));
        assert(init.push(text.last()) == text);
        assert(slash_pieces(text) == seq![text]);
    } else {
        assert(text == Seq::<char>::empty());
        assert(slash_pieces(text) == seq![text]);
    }
}

/// Text behind a slash, without another one in it, is a piece more.
pub proof fn lemma_piece_more(front: Seq<char>, piece: Seq<char>)
    requires
        !piece.contains('/'),
    ensures
        slash_pieces(front.push('/') + piece) == slash_pieces(front).push(piece),
    decreases piece.len(),
{
    let text = front.push('/') + piece;
    if piece.len() > 0 {
        let init = piece.drop_last();
        assert forall|i: int| 0 <= i < init.len() implies #[trigger] init[i] != '/' by {
            assert(piece.contains(piece[i]));
        }
        lemma_piece_more(front, init);
        assert(piece.contains(piece.last()));
        assert(text.drop_last() == front.push('/') + init);
        assert(init.push(piece.last()) == piece);
        assert(slash_pieces(text) == slash_pieces(front).push(piece));
    } else {
        assert(piece == Seq::<char>::empty());
        assert(text == front.push('/'));
        assert(text.drop_last() == front);
        assert(slash_pieces(text) == slash_pieces(front).push(piece));
    }
}

/// `std::path::PathBuf::clone` duplicates the path.
pub assume_specification[ <std::path::PathBuf as Clone>::clone ](path: &std::path::PathBuf) -> (r:
    std::path::PathBuf)
    ensures
        r == *path,
;

/// `std::path::Path::join` adjoins a path. What comes of it is stated for
/// plain names between slashes, adjoined to a path that is more than a prefix,
/// where the platform reads no other prefix out of the result than out of the
/// base. What an absolute path, or one with special components, makes of it,
/// and what a prefix that comes about makes of it, depends on the platform and
/// is left to the name.
#[verifier::external_body]
pub(crate) fn path_join(base: &std::path::PathBuf, part: &str) -> (r: std::path::PathBuf)
    ensures
        r == path_joined(*base, part@),
        plain_relative(part@) && !ends_in_prefix(path_parts(*base)) && brings_no_prefix(
            path_parts(*base),
            part@,
            path_parts(r),
        ) ==> path_parts(r) == path_parts(*base) + named_parts(slash_pieces(part@)),
{
    base.join(part)
}

/// `std::path::Path::file_name` gives the final component if it is a name,
/// and `std::ffi::OsStr::to_str` its text if it is valid Unicode.
#[verifier::external_body]
pub(crate) fn path_file_name(path: &std::path::PathBuf) -> (r: Option<String>)
    ensures
        opt_text(r) == file_name_of(path_parts(*path)),
{
    path.file_name().and_then(|name| name.to_str()).map(|name| name.to_string())
}

/// `std::path::Path::parent` gives the path without its final component; none
/// if the path ends in a root or a prefix, or is empty.
#[verifier::external_body]
pub(crate) fn path_parent(path: &std::path::PathBuf) -> (r: Option<std::path::PathBuf>)
    ensures
        r == path_above(*path),
        r is Some <==> has_parent(path_parts(*path)),
        r matches Some(parent) ==> path_parts(parent) == path_parts(*path).drop_last(),
{
    path.parent().map(|parent| parent.to_path_buf())
}

/// `std::path::Path::with_file_name` puts a name in place of the file name,
/// or behind the path where it has none. What comes of it is stated for plain
/// names and for paths of which more than a prefix is left, where the platform
/// reads no other prefix out of the result than out of the path.
#[verifier::external_body]
pub(crate) fn path_with_file_name(path: &std::path::PathBuf, name: &str) -> (r: std::path::PathBuf)
    ensures
        r == path_renamed(*path, name@),
        plain_name(name@) && !ends_in_prefix(without_file_name(path_parts(*path)))
            && brings_no_prefix(path_parts(*path), name@, path_parts(r)) ==> path_parts(r)
            == without_file_name(path_parts(*path)).push(named_part(name@)),
{
    path.with_file_name(name)
}

/// `std::path::Path::strip_prefix` gives what follows the components of
/// `base`, if the path begins with them. How the rest splits into components
/// is stated where the platform reads a prefix neither out of the path nor out
/// of the rest, since a prefix changes how what follows it is read.
#[verifier::external_body]
pub(crate) fn path_strip_prefix(path: &std::path::PathBuf, base: &std::path::PathBuf) -> (r: Option<
    std::path::PathBuf,
>)
    ensures
        r == path_below(*path, *base),
        r is Some <==> path_parts(*base).is_prefix_of(path_parts(*path)),
        r matches Some(rest) ==> !has_prefix(path_parts(*path)) && !has_prefix(path_parts(rest))
            ==> path_parts(rest) == path_parts(*path).skip(path_parts(*base).len() as int),
{
    path.strip_prefix(base).ok().map(|rest| rest.to_path_buf())
}

/// `==` on `std::path::PathBuf` compares components.
#[verifier::external_body]
pub(crate) fn path_same(a: &std::path::PathBuf, b: &std::path::PathBuf) -> (r: bool)
    ensures
        r == (path_parts(*a) == path_parts(*b)),
{
    a == b
}

/// `<=` on `std::path::PathBuf` is the total order that `Ord` gives paths,
/// in which only equal paths stand together. Which total order it is, `std`
/// does not document; it is left to the name.
#[verifier::external_body]
pub(crate) fn path_at_most(a: &std::path::PathBuf, b: &std::path::PathBuf) -> (r: bool)
    ensures
        r == parts_ordered(path_parts(*a), path_parts(*b)),
        r || parts_ordered(path_parts(*b), path_parts(*a)),
        path_parts(*a) == path_parts(*b) ==> r,
        r && parts_ordered(path_parts(*b), path_parts(*a)) ==> path_parts(*a) == path_parts(*b),
        forall|c: Seq<PathPart>|
            !r && #[trigger] parts_ordered(path_parts(*a), c) ==> parts_ordered(path_parts(*b), c),
{
    a <= b
}

/// `std::path::Path::to_string_lossy` gives the path as text, with U+FFFD for
/// whatever is not valid Unicode.
#[verifier::external_body]
pub(crate) fn path_to_text(path: &std::path::PathBuf) -> (r: String)
    ensures
        r@ == path_lossy(*path),
{
    path.to_string_lossy().to_string()
}

/// `std::path::Path::display` shows the path.
#[verifier::external_body]
pub(crate) fn path_to_shown(path: &std::path::PathBuf) -> (r: String)
    ensures
        r@ == path_shown(*path),
{
    path.display().to_string()
}

/// `order` lists the positions of `paths` in the order of the paths, equal
/// paths in the order in which they stand.
pub open spec fn is_path_order(paths: Seq<std::path::PathBuf>, order: Seq<usize>) -> bool {
    &&& order.len() == paths.len()
    &&& order.no_duplicates()
    &&& forall|i: int| 0 <= i < order.len() ==> 0 <= #[trigger] order[i] < paths.len()
    &&& forall|i: int, j: int|
        0 <= i < j < order.len() ==> precedes(paths, #[trigger] order[i], #[trigger] order[j])
}

/// The path at position `a` belongs before the one at position `b`.
pub open spec fn precedes(paths: Seq<std::path::PathBuf>, a: usize, b: usize) -> bool {
    let left = path_parts(paths[a as int]);
    let right = path_parts(paths[b as int]);
    parts_ordered(left, right) && (left == right ==> a < b)
}

/// The positions of `paths` in the order of the paths.
pub fn path_order(paths: &Vec<std::path::PathBuf>) -> (r: Vec<usize>)
    ensures
        is_path_order(paths@, r@),
{
    let mut order: Vec<usize> = Vec::new();
    let mut next: usize = 0;
    while next < paths.len()
        invariant
            next <= paths@.len(),
            order@.len() == next,
            order@.no_duplicates(),
            forall|i: int| 0 <= i < order@.len() ==> 0 <= #[trigger] order@[i] < next,
            forall|i: int, j: int|
                0 <= i < j < order@.len() ==> precedes(
                    paths@,
                    #[trigger] order@[i],
                    #[trigger] order@[j],
                ),
        decreases paths@.len() - next,
    {
        let ghost new_parts = path_parts(paths@[next as int]);
        let mut at: usize = 0;
        while at < order.len() && path_at_most(&paths[order[at]], &paths[next])
            invariant
                next < paths@.len(),
                at <= order@.len(),
                new_parts == path_parts(paths@[next as int]),
                forall|i: int| 0 <= i < order@.len() ==> 0 <= #[trigger] order@[i] < next,
                forall|i: int|
                    0 <= i < at ==> parts_ordered(
                        path_parts(paths@[#[trigger] order@[i] as int]),
                        new_parts,
                    ),
            decreases order@.len() - at,
        {
            at = at + 1;
        }
        let ghost was = order@;
        order.insert(at, next);
        proof {
            let now = order@;
            assert(now == was.insert(at as int, next));
            assert forall|i: int| 0 <= i < now.len() implies 0 <= #[trigger] now[i] < next + 1 by {
                if i < at {
                    assert(now[i] == was[i]);
                } else if i > at {
                    assert(now[i] == was[i - 1]);
                }
            }
            assert forall|i: int, j: int| 0 <= i < j < now.len() implies precedes(
                paths@,
                #[trigger] now[i],
                #[trigger] now[j],
            ) by {
                if j < at {
                    assert(now[i] == was[i] && now[j] == was[j]);
                } else if j == at {
                    assert(now[i] == was[i]);
                } else if i < at {
                    assert(now[i] == was[i] && now[j] == was[j - 1]);
                } else if i > at {
                    assert(now[i] == was[i - 1] && now[j] == was[j - 1]);
                } else {
                    let first = path_parts(paths@[was[at as int] as int]);
                    let other = path_parts(paths@[was[j - 1] as int]);
                    assert(now[j] == was[j - 1]);
                    if j - 1 > at {
                        assert(precedes(paths@, was[at as int], was[j - 1]));
                    } else {
                        assert(other == first);
                    }
                }
            }
            assert(now.no_duplicates()) by {
                assert forall|i: int, j: int|
                    0 <= i < now.len() && 0 <= j < now.len() && i != j implies now[i] != now[j] by {
                    let a = if i < at {
                        i
                    } else {
                        i - 1
                    };
                    let b = if j < at {
                        j
                    } else {
                        j - 1
                    };
                    if i != at {
                        assert(now[i] == was[a]);
                    }
                    if j != at {
                        assert(now[j] == was[b]);
                    }
                }
            }
        }
        next = next + 1;
    }
    order
}

} // verus!
