//! What a path has for a file name, here and on other machines.

use crate::text::{
    last_position, lemma_last_position, lemma_last_position_lowered, lower, lowered, view_of,
};
use vstd::prelude::*;

verus! {

/// What lies between the separators of a path, in order, as far as it is not
/// empty.
pub open spec fn segments(path: Seq<char>, separator: char) -> Seq<Seq<char>>
    decreases path.len(),
{
    match last_position(path, separator) {
        Some(i) if 0 <= i < path.len() => {
            let before = segments(path.take(i), separator);
            let last = path.skip(i + 1);
            if last.len() > 0 {
                before.push(last)
            } else {
                before
            }
        },
        _ => if path.len() > 0 {
            seq![path]
        } else {
            Seq::empty()
        },
    }
}

/// The segments but for those that are `.`.
pub open spec fn without_dots(list: Seq<Seq<char>>) -> Seq<Seq<char>>
    decreases list.len(),
{
    if list.len() == 0 {
        Seq::empty()
    } else if list.last() == "."@ {
        without_dots(list.drop_last())
    } else {
        without_dots(list.drop_last()).push(list.last())
    }
}

/// The components of a path where `/` alone separates them. Empty ones, and
/// `.`, do not count.
pub open spec fn components(path: Seq<char>) -> Seq<Seq<char>> {
    without_dots(segments(path, '/'))
}

/// The file name of a path where `/` alone separates components: the last one,
/// unless that is `..`.
pub open spec fn file_name_of(path: Seq<char>) -> Option<Seq<char>> {
    let list = components(path);
    if list.len() > 0 && list.last() != ".."@ {
        Some(list.last())
    } else {
        None
    }
}

/// A path with each `\` turned into `/`.
pub open spec fn slashed(path: Seq<char>) -> Seq<char> {
    Seq::new(
        path.len(),
        |i: int|
            if path[i] == '\\' {
                '/'
            } else {
                path[i]
            },
    )
}

/// Whether a path starts with a drive, such as `C:`.
pub open spec fn has_drive(path: Seq<char>) -> bool {
    path.len() >= 2 && path[1] == ':' && ('A' <= path[0] <= 'Z' || 'a' <= path[0] <= 'z')
}

/// A path without the drive that it starts with.
pub open spec fn without_drive(path: Seq<char>) -> Seq<char> {
    if has_drive(path) {
        path.skip(2)
    } else {
        path
    }
}

/// Whether a path starts with two separators of either kind. Where `\`
/// separates too, such a path names a share or a device first.
pub open spec fn starts_with_two_separators(path: Seq<char>) -> bool {
    path.len() >= 2 && (path[0] == '/' || path[0] == '\\') && (path[1] == '/' || path[1] == '\\')
}

/// Whether a path starts with `\\?\`. Where `\` separates too, such a path is
/// taken as it stands, and `/` in it need not separate.
pub open spec fn is_verbatim(path: Seq<char>) -> bool {
    "\\\\?\\"@.is_prefix_of(path)
}

/// Whether `name` may be the file name of a path that is taken as it stands:
/// at most the end of what follows the last `\`, and all of that where it is
/// plain and does not belong to the start of the path, which takes up four
/// segments at most, as in `\\?\UNC\server\share`.
pub open spec fn may_be_verbatim_name(path: Seq<char>, name: Option<Seq<char>>) -> bool {
    let list = segments(path, '\\');
    let last = list.last();
    &&& name matches Some(piece) ==> piece.len() > 0 && piece != ".."@ && piece.is_suffix_of(last)
    &&& list.len() >= 5 && last != "."@ && last != ".."@ && !last.contains('/') ==> name == Some(
        last,
    )
}

/// Whether a machine on which `/` and `\` separate, and on which paths start
/// with drives, shares and devices, may take `name` for the file name of a
/// path. A share or a device takes up two components at most.
pub open spec fn may_be_name_with_prefixes(path: Seq<char>, name: Option<Seq<char>>) -> bool {
    if !starts_with_two_separators(path) {
        name == file_name_of(slashed(without_drive(path)))
    } else if is_verbatim(path) {
        may_be_verbatim_name(path, name)
    } else {
        ||| name == file_name_of(slashed(path))
        ||| name is None && components(slashed(path)).len() < 3
    }
}

/// Whether a machine may take `name` for the file name of a path: either `/`
/// alone separates there, or `\` does too.
pub open spec fn may_be_file_name(path: Seq<char>, name: Option<Seq<char>>) -> bool {
    name == file_name_of(path) || may_be_name_with_prefixes(path, name)
}

/// Whether every machine reads a path alike: it has no `\`, no drive and no
/// second `/` at its start.
pub open spec fn portable(path: Seq<char>) -> bool {
    !path.contains('\\') && !has_drive(path) && !starts_with_two_separators(path)
}

/// Calls `std::path::Path::file_name`: the final component of a path, unless
/// that is `..`. Components are separated by `/`, and on Windows by `\` too;
/// empty ones, and `.`, do not count. On Windows a drive, a share or a device
/// at the start of a path is no component, and a path that starts with `\\?\` is
/// not normalized. Which of the two readings is taken depends on the machine; a
/// path that is portable has the same file name under both. Where the start of
/// a path with two leading separators ends is left open: such a path may have no
/// file name while it is short.
#[verifier::external_body]
pub(crate) fn file_name(path: &str) -> (r: Option<String>)
    ensures
        may_be_file_name(path@, view_of(r)),
{
    std::path::Path::new(path).file_name().and_then(|name| name.to_str()).map(str::to_owned)
}

/// A path without `\` reads the same after each `\` has been turned.
proof fn lemma_slashed(path: Seq<char>)
    requires
        !path.contains('\\'),
    ensures
        slashed(path) == path,
{
    assert forall|i: int| 0 <= i < path.len() implies slashed(path)[i] == #[trigger] path[i] by {
        assert(path[i] != '\\');
    }
    assert(slashed(path) =~= path);
}

/// A portable path has one file name: the same on every machine.
pub proof fn law_portable_paths_have_one_name(path: Seq<char>, name: Option<Seq<char>>)
    requires
        portable(path),
    ensures
        may_be_file_name(path, name) <==> name == file_name_of(path),
{
    lemma_slashed(path);
}

/// A path that starts with `//` and has no `\` has on every machine its last
/// component for a file name, or none; it has the last component once there
/// are three of them.
pub proof fn law_names_after_two_slashes(path: Seq<char>, name: Option<Seq<char>>)
    requires
        "//"@.is_prefix_of(path),
        !path.contains('\\'),
        may_be_file_name(path, name),
    ensures
        name == file_name_of(path) || name is None,
        components(path).len() >= 3 ==> name == file_name_of(path),
{
    reveal_strlit("//");
    reveal_strlit("\\\\?\\");
    lemma_slashed(path);
    assert("//"@ =~= path.subrange(0, 2));
    assert(path[0] == '/' && path[1] == '/') by {
        assert(path.subrange(0, 2)[0] == path[0]);
        assert(path.subrange(0, 2)[1] == path[1]);
    }
    if is_verbatim(path) {
        assert(path.subrange(0, 4)[0] == path[0]);
    }
}

/// A path that does not start with two separators and does not end with a
/// separator, a `.` or a `:` has a file name on every machine, and that name
/// is the end of the path.
pub proof fn law_name_ends_the_path(path: Seq<char>, name: Option<Seq<char>>)
    requires
        path.len() > 0,
        !starts_with_two_separators(path),
        path.last() != '/' && path.last() != '\\' && path.last() != '.' && path.last() != ':',
        may_be_file_name(path, name),
    ensures
        name is Some,
        name->0.is_suffix_of(path),
{
    lemma_name_is_the_last_segment(path);
    let rest = without_drive(path);
    let turned = slashed(rest);
    assert(rest.len() > 0);
    assert(rest.last() == path.last());
    assert(turned.last() == rest.last());
    lemma_name_is_the_last_segment(turned);
    let start = after_last_slash(turned);
    lemma_last_position(turned, '/');
    assert forall|j: int| start <= j < turned.len() implies turned[j] == #[trigger] rest[j] by {
        assert(turned[j] != '/');
    }
    assert(turned.skip(start) =~= path.subrange(
        path.len() - (turned.len() - start),
        path.len() as int,
    ));
    let own = after_last_slash(path);
    lemma_last_position(path, '/');
    assert(path.skip(own) =~= path.subrange(
        path.len() - (path.len() - own),
        path.len() as int,
    ));
}

/// Where a path goes on behind its last `/`.
spec fn after_last_slash(path: Seq<char>) -> int {
    match last_position(path, '/') {
        Some(i) => i + 1,
        None => 0,
    }
}

/// A path that does not end with `/` or `.` has what follows its last `/` for
/// a file name.
proof fn lemma_name_is_the_last_segment(path: Seq<char>)
    requires
        path.len() > 0,
        path.last() != '/',
        path.last() != '.',
    ensures
        file_name_of(path) == Some(path.skip(after_last_slash(path))),
{
    reveal_strlit(".");
    reveal_strlit("..");
    lemma_last_position(path, '/');
    let last = path.skip(after_last_slash(path));
    assert(last.len() > 0 && last.last() == path.last());
    assert("."@.last() == '.' && ".."@.last() == '.');
    assert(path.skip(0) =~= path);
    let list = segments(path, '/');
    assert(list.len() > 0 && list.last() == last);
}

/// Each of these texts in lower case.
pub open spec fn lowered_each(list: Seq<Seq<char>>) -> Seq<Seq<char>> {
    Seq::new(list.len(), |i: int| lowered(list[i]))
}

/// Lower case changes the components of a path as it changes the path.
pub proof fn lemma_components_lowered(path: Seq<char>)
    ensures
        components(lowered(path)) == lowered_each(components(path)),
{
    lemma_segments_lowered(path);
    lemma_without_dots_lowered(segments(path, '/'));
}

/// Lower case changes the segments of a path as it changes the path.
proof fn lemma_segments_lowered(path: Seq<char>)
    ensures
        segments(lowered(path), '/') == lowered_each(segments(path, '/')),
    decreases path.len(),
{
    let low = lowered(path);
    lemma_last_position_lowered(path, '/');
    lemma_last_position(path, '/');
    match last_position(path, '/') {
        Some(i) => {
            assert(low.take(i) =~= lowered(path.take(i)));
            assert(low.skip(i + 1) =~= lowered(path.skip(i + 1)));
            lemma_segments_lowered(path.take(i));
            assert(segments(low, '/') =~= lowered_each(segments(path, '/')));
        },
        None => {
            assert(segments(low, '/') =~= lowered_each(segments(path, '/')));
        },
    }
}

/// Lower case neither makes nor loses a segment `.`.
proof fn lemma_without_dots_lowered(list: Seq<Seq<char>>)
    ensures
        without_dots(lowered_each(list)) == lowered_each(without_dots(list)),
    decreases list.len(),
{
    let low = lowered_each(list);
    if list.len() > 0 {
        assert(low.drop_last() =~= lowered_each(list.drop_last()));
        lemma_without_dots_lowered(list.drop_last());
        lemma_lowered_dots(list.last());
        assert(low.last() == lowered(list.last()));
        let before = without_dots(list.drop_last());
        assert(lowered_each(before.push(list.last())) =~= lowered_each(before).push(
            lowered(list.last()),
        ));
    }
    assert(without_dots(low) =~= lowered_each(without_dots(list)));
}

/// Lower case makes no text out of dots that was none, and loses none.
pub proof fn lemma_lowered_dots(s: Seq<char>)
    ensures
        (lowered(s) == "."@) == (s == "."@),
        (lowered(s) == ".."@) == (s == ".."@),
{
    reveal_strlit(".");
    reveal_strlit("..");
    if lowered(s) == "."@ {
        assert(lowered(s).len() == s.len());
        assert(lowered(s)[0] == lower(s[0]));
        assert(s =~= "."@);
    }
    if s == "."@ {
        assert(lowered(s) =~= "."@);
    }
    if lowered(s) == ".."@ {
        assert(lowered(s).len() == s.len());
        assert(lowered(s)[0] == lower(s[0]));
        assert(lowered(s)[1] == lower(s[1]));
        assert(s =~= ".."@);
    }
    if s == ".."@ {
        assert(lowered(s) =~= ".."@);
    }
}

/// What follows the last `/` of a path is its file name, unless it is nothing
/// or `.`, which leave the file name to what comes before, or `..`, which
/// leaves the path without one.
pub proof fn law_file_name_follows_the_last_slash(before: Seq<char>, last: Seq<char>)
    requires
        !last.contains('/'),
    ensures
        last.len() == 0 || last == "."@ ==> file_name_of(before + "/"@ + last) == file_name_of(
            before,
        ) && file_name_of(last) is None,
        last == ".."@ ==> file_name_of(before + "/"@ + last) is None && file_name_of(last) is None,
        last.len() > 0 && last != "."@ && last != ".."@ ==> file_name_of(before + "/"@ + last)
            == Some(last) && file_name_of(last) == Some(last),
        components(before + "/"@ + last).len() == components(before).len() + components(last).len(),
        components(last).len() == if last.len() == 0 || last == "."@ {
            0int
        } else {
            1
        },
{
    reveal_strlit("/");
    reveal_strlit(".");
    reveal_strlit("..");
    let path = before + "/"@ + last;
    let at = before.len() as int;
    lemma_last_position(path, '/');
    lemma_last_position(last, '/');
    assert(path[at] == '/');
    assert forall|j: int| at < j < path.len() implies #[trigger] path[j] != '/' by {
        assert(path[j] == last[j - at - 1]);
        assert(last.contains(last[j - at - 1]));
    }
    assert(last_position(last, '/') is None) by {
        if last_position(last, '/') is Some {
            assert(last.contains(last[last_position(last, '/')->0]));
        }
    }
    assert(last_position(path, '/') == Some(at));
    assert(path.take(at) =~= before);
    assert(path.skip(at + 1) =~= last);
    let list = segments(before, '/');
    assert(list.push(last).drop_last() =~= list);
    assert(seq![last].drop_last() =~= Seq::empty());
    reveal_with_fuel(without_dots, 2);
}

/// A path means the same everywhere where it has no `\`, does not start with a
/// letter and a colon, and does not start with two slashes.
pub proof fn law_portable(path: Seq<char>)
    ensures
        portable(path) <==> {
            &&& forall|i: int| 0 <= i < path.len() ==> #[trigger] path[i] != '\\'
            &&& !(path.len() >= 2 && path[1] == ':' && (65 <= path[0] as int <= 90 || 97
                <= path[0] as int <= 122))
            &&& !(path.len() >= 2 && path[0] == '/' && path[1] == '/')
        },
{
    if forall|i: int| 0 <= i < path.len() ==> #[trigger] path[i] != '\\' {
        assert(!path.contains('\\'));
    }
    if !path.contains('\\') {
        assert forall|i: int| 0 <= i < path.len() implies #[trigger] path[i] != '\\' by {
            assert(path.contains(path[i]));
        }
    }
}

/// A path that does not start with two separators is read in one of two ways:
/// as it stands, or with each `\` as a `/` and without the letter and the colon
/// of a drive at its start. Its file name is the one that it has then.
pub proof fn law_two_readings(path: Seq<char>, turned: Seq<char>, name: Option<Seq<char>>)
    requires
        !(path.len() >= 2 && (path[0] == '/' || path[0] == '\\') && (path[1] == '/' || path[1]
            == '\\')),
        ({
            let drive = path.len() >= 2 && path[1] == ':' && (65 <= path[0] as int <= 90 || 97
                <= path[0] as int <= 122);
            let from = if drive {
                2int
            } else {
                0
            };
            &&& turned.len() == path.len() - from
            &&& forall|i: int|
                0 <= i < turned.len() ==> #[trigger] turned[i] == if path[from + i] == '\\' {
                    '/'
                } else {
                    path[from + i]
                }
        }),
    ensures
        may_be_file_name(path, name) <==> name == file_name_of(path) || name == file_name_of(turned),
{
    assert(slashed(without_drive(path)) =~= turned);
}

/// A path that starts with two separators, but not with `\\?\`, is read as it
/// stands or with each `\` as a `/`; read in the second way it may have no file
/// name while it has fewer than three components.
pub proof fn law_readings_after_two_separators(
    path: Seq<char>,
    turned: Seq<char>,
    name: Option<Seq<char>>,
)
    requires
        path.len() >= 2,
        path[0] == '/' || path[0] == '\\',
        path[1] == '/' || path[1] == '\\',
        !"\\\\?\\"@.is_prefix_of(path),
        turned.len() == path.len(),
        forall|i: int|
            0 <= i < turned.len() ==> #[trigger] turned[i] == if path[i] == '\\' {
                '/'
            } else {
                path[i]
            },
    ensures
        may_be_file_name(path, name) <==> {
            ||| name == file_name_of(path)
            ||| name == file_name_of(turned)
            ||| name is None && components(turned).len() < 3
        },
{
    assert(slashed(path) =~= turned);
}

/// A path that starts with `\\?\` is read as it stands where `/` alone separates;
/// otherwise no more than the end of what follows its last `\` is its file name,
/// and all of that once enough comes before it.
pub proof fn law_verbatim_readings(path: Seq<char>, name: Option<Seq<char>>)
    requires
        "\\\\?\\"@.is_prefix_of(path),
        may_be_file_name(path, name),
    ensures
        name == file_name_of(path) || name is None || (name->0.len() > 0 && name->0 != ".."@
            && name->0.is_suffix_of(segments(path, '\\').last())),
        name is None && segments(path, '\\').len() >= 5 && file_name_of(path) is Some ==> segments(
            path,
            '\\',
        ).last() == "."@ || segments(path, '\\').last() == ".."@ || segments(
            path,
            '\\',
        ).last().contains('/'),
{
    reveal_strlit("\\\\?\\");
    let start = path.subrange(0, 4);
    assert(start =~= "\\\\?\\"@);
    assert(start[0] == path[0] && start[1] == path[1]);
}

} // verus!
