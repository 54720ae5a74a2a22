//! Joining paths: where the path of something below a directory leads.
use crate::native::Platform;
use crate::paths::{has_drive, is_bad_piece, is_below, is_piece, is_separator};
use crate::text::{chars_of, join_texts, joined_with, same_text, starts_with_chars, views};
use vstd::prelude::*;
use vstd::string::*;

verus! {

/// What separates the components of a path: what the platform takes for a separator,
/// or the backslash alone, as in a verbatim Windows path.
#[derive(Clone, Copy, Debug, PartialEq, Eq, Structural)]
pub enum Separators {
    Of(Platform),
    Backslash,
}

/// Whether a character separates.
pub open spec fn cuts(at: Separators, c: char) -> bool {
    match at {
        Separators::Of(platform) => is_separator(platform, c),
        Separators::Backslash => c == '\\',
    }
}

fn cuts_at(at: Separators, c: char) -> (yes: bool)
    ensures
        yes == cuts(at, c),
{
    match at {
        Separators::Of(platform) => c == '/' || (platform == Platform::Windows && c == '\\'),
        Separators::Backslash => c == '\\',
    }
}

/// The pieces that separators cut a path into, the empty ones among them.
pub open spec fn pieces(at: Separators, path: Seq<char>) -> Seq<Seq<char>>
    decreases path.len(),
{
    if path.len() == 0 {
        seq![Seq::empty()]
    } else {
        let before = pieces(at, path.drop_last());
        if cuts(at, path.last()) {
            before.push(Seq::empty())
        } else {
            before.drop_last().push(before.last().push(path.last()))
        }
    }
}

/// The pieces that are not empty and, where dots do not count, not `.`.
pub open spec fn named(list: Seq<Seq<char>>, dots_count: bool) -> Seq<Seq<char>>
    decreases list.len(),
{
    if list.len() == 0 {
        Seq::empty()
    } else {
        let earlier = named(list.drop_last(), dots_count);
        if is_named(list.last(), dots_count) {
            earlier.push(list.last())
        } else {
            earlier
        }
    }
}

/// Whether a piece is not empty and, where dots do not count, not `.`.
pub open spec fn is_named(piece: Seq<char>, dots_count: bool) -> bool {
    piece.len() > 0 && (dots_count || piece != "."@)
}

/// The names that a path below a directory leads through, in their order.
pub open spec fn names_in(platform: Platform, below: Seq<char>) -> Seq<Seq<char>> {
    named(pieces(Separators::Of(platform), below), false)
}

/// A list of texts, each with a backslash behind it.
pub open spec fn closed(list: Seq<Seq<char>>) -> Seq<char>
    decreases list.len(),
{
    if list.len() == 0 {
        Seq::empty()
    } else {
        closed(list.drop_last()) + list.last().push('\\')
    }
}

/// Whether a directory is a verbatim Windows path, which only backslashes separate.
pub open spec fn is_verbatim(platform: Platform, directory: Seq<char>) -> bool {
    platform == Platform::Windows && "\\\\?\\"@.is_prefix_of(directory)
}

/// The components of a verbatim directory behind its marker. The first one belongs to
/// the prefix, and may be empty.
pub open spec fn verbatim_parts(directory: Seq<char>) -> Seq<Seq<char>> {
    let behind = pieces(Separators::Backslash, directory.skip(4));
    seq![behind[0]] + named(behind.skip(1), true)
}

/// The separator that a platform joins paths with.
pub open spec fn joining_separator(platform: Platform) -> char {
    if platform == Platform::Windows {
        '\\'
    } else {
        '/'
    }
}

/// Whether a separator comes between a directory and what lies below it: not behind
/// nothing, not behind a separator, and not behind a mere drive.
pub open spec fn needs_separator(platform: Platform, directory: Seq<char>) -> bool {
    &&& directory.len() > 0
    &&& !is_separator(platform, directory.last())
    &&& !(platform == Platform::Windows && directory.len() == 2 && has_drive(directory))
}

/// What the path of anything below a directory begins with.
pub open spec fn lead_of(platform: Platform, directory: Seq<char>) -> Seq<char> {
    if is_verbatim(platform, directory) {
        "\\\\?\\"@ + closed(verbatim_parts(directory))
    } else if needs_separator(platform, directory) {
        directory.push(joining_separator(platform))
    } else {
        directory
    }
}

/// What stands behind that beginning: what lies below, as it is spelled; behind a
/// verbatim directory, in its normal form.
pub open spec fn tail_of(platform: Platform, directory: Seq<char>, below: Seq<char>) -> Seq<char> {
    if is_verbatim(platform, directory) {
        joined_with(names_in(platform, below), "\\"@)
    } else {
        below
    }
}

/// `Path::join`, for a directory and what lies below it.
pub open spec fn path_in(platform: Platform, directory: Seq<char>, below: Seq<char>) -> Seq<char> {
    lead_of(platform, directory) + tail_of(platform, directory, below)
}

fn cut_pieces(at: Separators, chars: &Vec<char>, from: usize) -> (list: Vec<String>)
    requires
        from <= chars@.len(),
    ensures
        views(list@) == pieces(at, chars@.skip(from as int)),
{
    let mut list: Vec<String> = Vec::new();
    let mut current = String::new();
    let ghost path = chars@.skip(from as int);
    assert(views(list@).push(current@) =~= pieces(at, path.take(0)));
    for i in from..chars.len()
        invariant
            from <= chars@.len(),
            path == chars@.skip(from as int),
            views(list@).push(current@) == pieces(at, path.take(i - from)),
    {
        let c: char = chars[i];
        let ghost earlier = views(list@);
        assert(path.take(i - from + 1).drop_last() =~= path.take(i - from));
        assert(path.take(i - from + 1).last() == c);
        assert(earlier.push(current@).drop_last() =~= earlier);
        if cuts_at(at, c) {
            list.push(current);
            current = String::new();
            assert(views(list@) =~= pieces(at, path.take(i - from)));
            assert(current@ =~= Seq::empty());
        } else {
            current.push(c);
        }
    }
    let ghost earlier = views(list@);
    list.push(current);
    assert(views(list@) =~= earlier.push(current@));
    assert(path.take(path.len() as int) =~= path);
    list
}

fn keep_named(kept: Vec<String>, list: &Vec<String>, from: usize, dots_count: bool) -> (all: Vec<
    String,
>)
    requires
        from <= list@.len(),
    ensures
        views(all@) == views(kept@) + named(views(list@).skip(from as int), dots_count),
{
    let mut all: Vec<String> = kept;
    let ghost wanted = views(list@).skip(from as int);
    assert(views(all@) =~= views(kept@) + named(wanted.take(0), dots_count));
    for i in from..list.len()
        invariant
            from <= list@.len(),
            wanted == views(list@).skip(from as int),
            views(all@) == views(kept@) + named(wanted.take(i - from), dots_count),
    {
        let piece: &str = list[i].as_str();
        let ghost earlier = views(all@);
        assert(wanted.take(i - from + 1).drop_last() =~= wanted.take(i - from));
        assert(wanted.take(i - from + 1).last() == piece@);
        proof {
            reveal_strlit("");
        }
        if !same_text(piece, "") && (dots_count || !same_text(piece, ".")) {
            assert(piece@ != ""@);
            assert(piece@.len() == 0 ==> piece@ =~= ""@);
            all.push(piece.to_owned());
            assert(views(all@) =~= earlier.push(piece@));
            assert(views(all@) =~= views(kept@) + named(wanted.take(i - from + 1), dots_count));
        }
    }
    assert(wanted.take(wanted.len() as int) =~= wanted);
    all
}

fn close(list: &Vec<String>) -> (text: String)
    ensures
        text@ == closed(views(list@)),
{
    let mut text = String::new();
    assert(text@ =~= closed(views(list@).take(0)));
    for i in 0..list.len()
        invariant
            text@ == closed(views(list@).take(i as int)),
    {
        assert(views(list@).take(i + 1).drop_last() =~= views(list@).take(i as int));
        let ghost before = text@;
        text.append(list[i].as_str());
        text.push('\\');
        assert(text@ =~= before + list@[i as int]@.push('\\'));
    }
    assert(views(list@).take(list@.len() as int) =~= views(list@));
    text
}

fn join_verbatim(directory: &Vec<char>, below: &str) -> (path: String)
    requires
        is_verbatim(Platform::Windows, directory@),
    ensures
        path@ == path_in(Platform::Windows, directory@, below@),
{
    proof {
        reveal_strlit("\\\\?\\");
        pieces_are_some(Separators::Backslash, directory@.skip(4));
    }
    let behind: Vec<String> = cut_pieces(Separators::Backslash, directory, 4);
    let first: Vec<String> = vec![behind[0].clone()];
    assert(views(first@) =~= seq![views(behind@)[0]]);
    let parts: Vec<String> = keep_named(first, &behind, 1, true);
    let lead: String = close(&parts);
    let chars: Vec<char> = chars_of(below);
    let all: Vec<String> = cut_pieces(Separators::Of(Platform::Windows), &chars, 0);
    let none: Vec<String> = Vec::new();
    let names: Vec<String> = keep_named(none, &all, 0, false);
    proof {
        assert(chars@.skip(0) =~= below@);
        assert(views(all@).skip(0) =~= views(all@));
        assert(views(names@) =~= names_in(Platform::Windows, below@));
    }
    let tail: String = join_texts(&names, "\\");
    let marker: String = "\\\\?\\".to_owned();
    marker.concat(lead.as_str()).concat(tail.as_str())
}

/// The path of something below a directory.
pub fn join_path(platform: Platform, directory: &str, below: &str) -> (path: String)
    requires
        is_below(platform, below@),
    ensures
        path@ == path_in(platform, directory@, below@),
{
    let chars: Vec<char> = chars_of(directory);
    let count: usize = chars.len();
    if platform == Platform::Windows && starts_with_chars(&chars, "\\\\?\\") {
        return join_verbatim(&chars, below);
    }
    let mut path: String = directory.to_owned();
    let mere_drive: bool = platform == Platform::Windows && count == 2 && chars[1] == ':' && ((
    'a' <= chars[0] && chars[0] <= 'z') || ('A' <= chars[0] && chars[0] <= 'Z'));
    if count > 0 && !cuts_at(Separators::Of(platform), chars[count - 1]) && !mere_drive {
        path.push(
            if platform == Platform::Windows {
                '\\'
            } else {
                '/'
            },
        );
    }
    path.concat(below)
}

/// There is always a piece.
proof fn pieces_are_some(at: Separators, path: Seq<char>)
    ensures
        pieces(at, path).len() > 0,
    decreases path.len(),
{
    if path.len() > 0 {
        pieces_are_some(at, path.drop_last());
    }
}

/// Whether nothing separates within a text.
pub open spec fn is_uncut(at: Separators, text: Seq<char>) -> bool {
    forall|i: int| 0 <= i < text.len() ==> !cuts(at, #[trigger] text[i])
}

/// Where a piece of a path lies.
proof fn piece_at(at: Separators, path: Seq<char>, i: int) -> (from: int)
    requires
        0 <= i < pieces(at, path).len(),
    ensures
        ({
            let piece = pieces(at, path)[i];
            let to = from + piece.len();
            &&& 0 <= from <= to <= path.len()
            &&& path.subrange(from, to) == piece
            &&& is_uncut(at, piece)
            &&& i == 0 ==> from == 0
            &&& from == 0 || cuts(at, path[from - 1])
            &&& i == pieces(at, path).len() - 1 ==> to == path.len()
            &&& i < pieces(at, path).len() - 1 ==> to < path.len() && cuts(at, path[to])
        }),
    decreases path.len(),
{
    if path.len() == 0 {
        assert(path.subrange(0, 0) =~= pieces(at, path)[i]);
        0
    } else {
        let shorter = path.drop_last();
        let before = pieces(at, shorter);
        pieces_are_some(at, shorter);
        if i < before.len() {
            let from = piece_at(at, shorter, i);
            let piece = pieces(at, path)[i];
            let to = from + piece.len();
            assert(path.subrange(from, to) =~= piece) by {
                assert forall|k: int| 0 <= k < piece.len() implies path.subrange(from, to)[k]
                    == piece[k] by {
                    if from + k < shorter.len() {
                        assert(shorter.subrange(from, from + before[i].len())[k] == before[i][k]);
                    }
                }
            }
            assert(from == 0 || path[from - 1] == shorter[from - 1]);
            assert(to < shorter.len() ==> path[to] == shorter[to]);
            from
        } else {
            let from = path.len() as int;
            assert(path.subrange(from, from) =~= pieces(at, path)[i]);
            assert(path[from - 1] == path.last());
            from
        }
    }
}

/// A named piece is one of the pieces.
proof fn named_is_a_piece(list: Seq<Seq<char>>, dots_count: bool, i: int) -> (j: int)
    requires
        0 <= i < named(list, dots_count).len(),
    ensures
        0 <= j < list.len(),
        list[j] == named(list, dots_count)[i],
        is_named(list[j], dots_count),
    decreases list.len(),
{
    let shorter = list.drop_last();
    if i < named(shorter, dots_count).len() {
        let j = named_is_a_piece(shorter, dots_count, i);
        assert(shorter[j] == list[j]);
        j
    } else {
        list.len() - 1
    }
}

/// Where one of the pieces is named, there is a named one.
proof fn a_piece_is_named(list: Seq<Seq<char>>, dots_count: bool, j: int)
    requires
        0 <= j < list.len(),
        is_named(list[j], dots_count),
    ensures
        named(list, dots_count).len() > 0,
    decreases list.len(),
{
    if j < list.len() - 1 {
        assert(list.drop_last()[j] == list[j]);
        a_piece_is_named(list.drop_last(), dots_count, j);
    }
}

/// Whether a text is the name of something in a directory, and leads nowhere else.
pub open spec fn is_plain_name(platform: Platform, name: Seq<char>) -> bool {
    &&& name.len() > 0
    &&& name != "."@
    &&& name != ".."@
    &&& is_uncut(Separators::Of(platform), name)
}

/// What lies below stays below, once it is joined to a directory: the path begins as
/// everything below the directory does, and leads on through at least one name, each
/// of which names something in the directory before.
pub proof fn joined_path_leads_down(
    platform: Platform,
    directory: Seq<char>,
    below: Seq<char>,
    i: int,
)
    requires
        is_below(platform, below),
    ensures
        lead_of(platform, directory).is_prefix_of(path_in(platform, directory, below)),
        !is_verbatim(platform, directory) ==> directory.is_prefix_of(
            path_in(platform, directory, below),
        ),
        names_in(platform, below).len() > 0,
        0 <= i < names_in(platform, below).len() ==> is_plain_name(
            platform,
            names_in(platform, below)[i],
        ),
{
    let at = Separators::Of(platform);
    let path = path_in(platform, directory, below);
    let lead = lead_of(platform, directory);
    assert(path.subrange(0, lead.len() as int) =~= lead);
    if !is_verbatim(platform, directory) {
        assert(path.subrange(0, directory.len() as int) =~= directory);
    }
    let list = pieces(at, below);
    reveal_strlit(".");
    reveal_strlit("..");
    pieces_are_some(at, below);
    let from = piece_at(at, below, 0);
    assert(list[0].len() > 0);
    if list[0] == "."@ {
        assert(below.subrange(0, 1)[0] == '.');
        assert(is_piece(platform, below, 0, 1)) by {
            assert(!is_separator(platform, below[0]));
        }
        assert(is_bad_piece(below, 0, 1));
    }
    a_piece_is_named(list, false, 0);
    if 0 <= i < named(list, false).len() {
        let j = named_is_a_piece(list, false, i);
        let start = piece_at(at, below, j);
        let to = start + list[j].len();
        assert(is_piece(platform, below, start, to)) by {
            assert forall|k: int| start <= k < to implies !is_separator(
                platform,
                #[trigger] below[k],
            ) by {
                assert(list[j][k - start] == below.subrange(start, to)[k - start]);
            }
        }
        if list[j] == ".."@ {
            assert(below.subrange(start, to)[0] == '.' && below.subrange(start, to)[1] == '.');
            assert(is_bad_piece(below, start, to));
        }
    }
}

/// A text in which nothing separates only lengthens the last piece.
proof fn uncut_lengthens(at: Separators, path: Seq<char>, text: Seq<char>)
    requires
        is_uncut(at, text),
    ensures
        pieces(at, path + text) == pieces(at, path).drop_last().push(
            pieces(at, path).last() + text,
        ),
    decreases text.len(),
{
    pieces_are_some(at, path);
    let before = pieces(at, path);
    if text.len() == 0 {
        assert(path + text =~= path);
        assert(before.last() + text =~= before.last());
        assert(before.drop_last().push(before.last()) =~= before);
    } else {
        let shorter = text.drop_last();
        assert(is_uncut(at, shorter)) by {
            assert forall|i: int| 0 <= i < shorter.len() implies !cuts(at, #[trigger] shorter[i])
                by {
                assert(shorter[i] == text[i]);
            }
        }
        uncut_lengthens(at, path, shorter);
        assert((path + text).drop_last() =~= path + shorter);
        assert((path + text).last() == text.last());
        assert(!cuts(at, text[text.len() - 1]));
        let middle = before.drop_last().push(before.last() + shorter);
        assert(middle.drop_last() =~= before.drop_last());
        assert((before.last() + shorter).push(text.last()) =~= before.last() + text);
    }
}

/// Texts in which no backslash stands are cut apart again where they were closed.
proof fn closed_is_cut_apart(list: Seq<Seq<char>>)
    requires
        forall|i: int|
            0 <= i < list.len() ==> is_uncut(Separators::Backslash, #[trigger] list[i]),
    ensures
        pieces(Separators::Backslash, closed(list)) == list.push(Seq::empty()),
    decreases list.len(),
{
    let at = Separators::Backslash;
    if list.len() == 0 {
        assert(list.push(Seq::empty()) =~= seq![Seq::empty()]);
    } else {
        let shorter = list.drop_last();
        let last = list.last();
        assert forall|i: int| 0 <= i < shorter.len() implies is_uncut(
            at,
            #[trigger] shorter[i],
        ) by {
            assert(shorter[i] == list[i]);
        }
        closed_is_cut_apart(shorter);
        assert(is_uncut(at, list[list.len() - 1]));
        uncut_lengthens(at, closed(shorter), last);
        let open = closed(shorter) + last;
        let before = shorter.push(Seq::<char>::empty());
        assert(before.drop_last() =~= shorter);
        assert(Seq::<char>::empty() + last =~= last);
        assert(shorter.push(last) =~= list);
        assert(closed(list).drop_last() =~= open);
        assert(closed(list).last() == '\\');
    }
}

/// Where all pieces are named, none is left out.
proof fn all_are_named(list: Seq<Seq<char>>, dots_count: bool)
    requires
        forall|i: int| 0 <= i < list.len() ==> is_named(#[trigger] list[i], dots_count),
    ensures
        named(list, dots_count) == list,
    decreases list.len(),
{
    if list.len() > 0 {
        let shorter = list.drop_last();
        assert forall|i: int| 0 <= i < shorter.len() implies is_named(
            #[trigger] shorter[i],
            dots_count,
        ) by {
            assert(shorter[i] == list[i]);
        }
        all_are_named(shorter, dots_count);
        assert(is_named(list[list.len() - 1], dots_count));
        assert(shorter.push(list.last()) =~= list);
    }
}

/// A plain name leads through itself alone.
proof fn plain_name_is_one_name(platform: Platform, name: Seq<char>)
    requires
        is_plain_name(platform, name),
    ensures
        names_in(platform, name) == seq![name],
        joined_with(names_in(platform, name), "\\"@) == name,
{
    let at = Separators::Of(platform);
    let nothing = Seq::<char>::empty();
    uncut_lengthens(at, nothing, name);
    assert(nothing + name =~= name);
    assert(pieces(at, nothing) =~= seq![nothing]);
    assert(pieces(at, name) =~= seq![name]);
    all_are_named(seq![name], false);
}

/// What the path of anything in an entry of a directory begins with: as everything
/// below the directory does, and then with the name of the entry and a separator.
pub proof fn entry_leads_on(platform: Platform, directory: Seq<char>, name: Seq<char>)
    requires
        is_below(platform, name),
        is_plain_name(platform, name),
    ensures
        lead_of(platform, path_in(platform, directory, name)) == lead_of(platform, directory)
            + name.push(joining_separator(platform)),
{
    let at = Separators::Backslash;
    let marker = "\\\\?\\"@;
    let entry = path_in(platform, directory, name);
    let lead = lead_of(platform, directory);
    reveal_strlit("\\\\?\\");
    plain_name_is_one_name(platform, name);
    assert(entry =~= lead + name);
    if is_verbatim(platform, directory) {
        let behind = pieces(at, directory.skip(4));
        let parts = verbatim_parts(directory);
        pieces_are_some(at, directory.skip(4));
        assert forall|i: int| 0 <= i < parts.len() implies is_uncut(at, #[trigger] parts[i]) by {
            if i == 0 {
                let from = piece_at(at, directory.skip(4), 0);
            } else {
                let j = named_is_a_piece(behind.skip(1), true, i - 1);
                let from = piece_at(at, directory.skip(4), j + 1);
                assert(behind.skip(1)[j] == behind[j + 1]);
            }
        }
        assert forall|i: int| 0 < i < parts.len() implies #[trigger] parts[i].len() > 0 by {
            let j = named_is_a_piece(behind.skip(1), true, i - 1);
        }
        assert(entry.subrange(0, 4) =~= marker);
        verbatim_entry(platform, parts, name, entry);
    } else if is_verbatim(platform, entry) {
        assert(entry.subrange(0, 4) == marker);
        assert(entry[3] == '\\') by {
            assert(entry.subrange(0, 4)[3] == marker[3]);
        }
        if lead.len() <= 3 {
            assert(entry[3] == name[3 - lead.len()]);
            assert(cuts(Separators::Of(platform), name[3 - lead.len()]));
        }
        if directory.len() >= 4 {
            assert(directory.subrange(0, 4) =~= marker) by {
                assert forall|k: int| 0 <= k < 4 implies directory[k] == marker[k] by {
                    assert(entry.subrange(0, 4)[k] == marker[k]);
                }
            }
        }
        assert(lead.len() == 4);
        assert(lead =~= marker) by {
            assert forall|k: int| 0 <= k < 4 implies lead[k] == marker[k] by {
                assert(entry.subrange(0, 4)[k] == marker[k]);
            }
        }
        let none = Seq::<Seq<char>>::empty();
        assert(closed(none) =~= Seq::empty());
        assert(marker + closed(none) + name =~= entry);
        verbatim_entry(platform, none, name, entry);
        assert(marker + closed(none) =~= lead);
    } else {
        assert(!is_separator(platform, entry.last())) by {
            assert(entry.last() == name[name.len() - 1]);
            assert(!cuts(Separators::Of(platform), name[name.len() - 1]));
        }
        if platform == Platform::Windows && entry.len() == 2 && has_drive(entry) {
            if lead.len() == 0 {
                assert(entry =~= name);
            } else {
                assert(lead.len() == 1);
                assert(lead[0] == entry[0]);
                assert(directory.len() <= 1);
                if directory.len() == 1 {
                    assert(needs_separator(platform, directory) ==> lead.len() == 2);
                }
            }
        }
        assert(lead + name.push(joining_separator(platform)) =~= entry.push(
            joining_separator(platform),
        ));
    }
}

/// An entry behind closed components is one component more.
proof fn verbatim_entry(
    platform: Platform,
    parts: Seq<Seq<char>>,
    name: Seq<char>,
    entry: Seq<char>,
)
    requires
        platform == Platform::Windows,
        is_plain_name(platform, name),
        forall|i: int|
            0 <= i < parts.len() ==> is_uncut(Separators::Backslash, #[trigger] parts[i]),
        forall|i: int| 0 < i < parts.len() ==> #[trigger] parts[i].len() > 0,
        entry == "\\\\?\\"@ + closed(parts) + name,
        is_verbatim(platform, entry),
    ensures
        lead_of(platform, entry) == "\\\\?\\"@ + closed(parts) + name.push('\\'),
{
    let at = Separators::Backslash;
    let marker = "\\\\?\\"@;
    reveal_strlit("\\\\?\\");
    assert(is_uncut(at, name)) by {
        assert forall|i: int| 0 <= i < name.len() implies !cuts(at, #[trigger] name[i]) by {
            assert(!cuts(Separators::Of(platform), name[i]));
        }
    }
    assert(entry.skip(4) =~= closed(parts) + name);
    closed_is_cut_apart(parts);
    uncut_lengthens(at, closed(parts), name);
    let nothing = Seq::<char>::empty();
    let longer = parts.push(name);
    assert(parts.push(nothing).drop_last() =~= parts);
    assert(nothing + name =~= name);
    assert(pieces(at, entry.skip(4)) =~= longer);
    let further = longer.skip(1);
    assert forall|i: int| 0 <= i < further.len() implies is_named(#[trigger] further[i], true) by {
        assert(further[i] == longer[i + 1]);
        if i + 1 < parts.len() {
            assert(parts[i + 1].len() > 0);
        }
    }
    all_are_named(further, true);
    assert(verbatim_parts(entry) =~= longer);
    assert(longer.drop_last() =~= parts);
    assert(marker + closed(longer) =~= marker + closed(parts) + name.push('\\'));
}

/// How a path below a directory is spelled: behind the directory and one separator, which
/// is a backslash on Windows and a slash elsewhere. No separator is added behind one,
/// behind nothing, or behind a drive on Windows.
pub proof fn joined_path_is_spelled_out(
    platform: Platform,
    directory: Seq<char>,
    below: Seq<char>,
)
    requires
        platform == Platform::Windows ==> !"\\\\?\\"@.is_prefix_of(directory),
    ensures
        directory.len() == 0 ==> path_in(platform, directory, below) == below,
        directory.len() > 0 && directory.last() == '/' ==> path_in(platform, directory, below)
            == directory + below,
        directory.len() > 0 && directory.last() != '/' && platform != Platform::Windows ==> path_in(
            platform,
            directory,
            below,
        ) == directory + seq!['/'] + below,
        directory.len() > 0 && directory.last() != '/' && platform == Platform::Windows ==> {
            let drive = directory.len() == 2 && directory[1] == ':' && ('a' <= directory[0] <= 'z'
                || 'A' <= directory[0] <= 'Z');
            path_in(platform, directory, below) == (if directory.last() == '\\' || drive {
                directory + below
            } else {
                directory + seq!['\\'] + below
            })
        },
{
    if directory.len() == 0 {
        assert(directory + below =~= below);
    } else {
        assert(directory.push('/') =~= directory + seq!['/']);
        assert(directory.push('\\') =~= directory + seq!['\\']);
    }
}

/// A verbatim directory of one component leads on behind a backslash.
pub proof fn verbatim_prefix_leads_on(first: Seq<char>)
    requires
        forall|i: int| 0 <= i < first.len() ==> #[trigger] first[i] != '\\',
    ensures
        lead_of(Platform::Windows, "\\\\?\\"@ + first) == "\\\\?\\"@ + first + seq!['\\'],
{
    let at = Separators::Backslash;
    let marker = "\\\\?\\"@;
    reveal_strlit("\\\\?\\");
    let directory = marker + first;
    let nothing = Seq::<char>::empty();
    assert(directory.subrange(0, 4) =~= marker);
    assert(directory.skip(4) =~= first);
    assert(is_uncut(at, first));
    uncut_lengthens(at, nothing, first);
    assert(nothing + first =~= first);
    assert(pieces(at, nothing) =~= seq![nothing]);
    assert(pieces(at, first) =~= seq![first]);
    assert(seq![first].skip(1) =~= Seq::empty());
    assert(verbatim_parts(directory) =~= seq![first]);
    assert(seq![first].drop_last() =~= Seq::empty());
    assert(closed(Seq::<Seq<char>>::empty()) =~= nothing);
    assert(closed(seq![first]) =~= first.push('\\'));
    assert(marker + first.push('\\') =~= marker + first + seq!['\\']);
}

/// Going down by two names at once is going down by the one and then by the other.
pub proof fn joining_goes_down_by_names(
    platform: Platform,
    directory: Seq<char>,
    first: Seq<char>,
    second: Seq<char>,
    separator: char,
)
    requires
        is_below(platform, first) && is_plain_name(platform, first),
        is_plain_name(platform, second),
        separator == (if platform == Platform::Windows {
            '\\'
        } else {
            '/'
        }),
    ensures
        path_in(platform, directory, first + seq![separator] + second) == path_in(
            platform,
            path_in(platform, directory, first),
            second,
        ),
{
    let at = Separators::Of(platform);
    let both = first + seq![separator] + second;
    let entry = path_in(platform, directory, first);
    let lead = lead_of(platform, directory);
    let nothing = Seq::<char>::empty();
    entry_leads_on(platform, directory, first);
    plain_name_is_one_name(platform, first);
    plain_name_is_one_name(platform, second);
    assert(entry =~= lead + first);
    uncut_lengthens(at, nothing, first);
    assert(nothing + first =~= first);
    assert(pieces(at, nothing) =~= seq![nothing]);
    assert(pieces(at, first) =~= seq![first]);
    let half = first.push(separator);
    assert(half.drop_last() =~= first);
    assert(pieces(at, half) =~= seq![first, nothing]);
    uncut_lengthens(at, half, second);
    assert(half + second =~= both);
    assert(nothing + second =~= second);
    assert(pieces(at, both) =~= seq![first, second]);
    all_are_named(seq![first, second], false);
    reveal_with_fuel(joined_with, 3);
    reveal_strlit("\\");
    assert(seq![first, second].drop_last() =~= seq![first]);
    assert(joined_with(seq![first, second], "\\"@) =~= first + seq!['\\'] + second);
    assert(tail_of(platform, directory, both) =~= both);
    assert(tail_of(platform, entry, second) =~= second);
    assert(lead + both =~= lead + first.push(separator) + second);
}

/// Of what lies below a directory, neither an empty piece nor a single dot leads anywhere:
/// two names with such a piece between them are just the two names, whichever separators
/// stand there.
pub proof fn empty_pieces_and_dots_lead_nowhere(
    platform: Platform,
    first: Seq<char>,
    between: Seq<char>,
    second: Seq<char>,
    left: char,
    right: char,
)
    requires
        is_plain_name(platform, first),
        is_plain_name(platform, second),
        between == Seq::<char>::empty() || between == seq!['.'],
        left == '/' || platform == Platform::Windows && left == '\\',
        right == '/' || platform == Platform::Windows && right == '\\',
    ensures
        names_in(platform, first + seq![left] + between + seq![right] + second) == seq![
            first,
            second,
        ],
{
    let at = Separators::Of(platform);
    let nothing = Seq::<char>::empty();
    reveal_strlit(".");
    assert("."@ =~= seq!['.']);
    uncut_lengthens(at, nothing, first);
    assert(nothing + first =~= first);
    assert(pieces(at, nothing) =~= seq![nothing]);
    assert(pieces(at, first) =~= seq![first]);
    let one = first.push(left);
    assert(one.drop_last() =~= first);
    assert(pieces(at, one) =~= seq![first, nothing]);
    assert(is_uncut(at, between));
    uncut_lengthens(at, one, between);
    assert(nothing + between =~= between);
    assert(pieces(at, one + between) =~= seq![first, between]);
    let two = (one + between).push(right);
    assert(two.drop_last() =~= one + between);
    assert(pieces(at, two) =~= seq![first, between, nothing]);
    uncut_lengthens(at, two, second);
    assert(nothing + second =~= second);
    let list = seq![first, between, second];
    assert(pieces(at, two + second) =~= list);
    assert(two + second =~= first + seq![left] + between + seq![right] + second);
    assert(list.drop_last() =~= seq![first, between]);
    assert(seq![first, between].drop_last() =~= seq![first]);
    assert(seq![first].drop_last() =~= Seq::empty());
    reveal_with_fuel(named, 4);
    assert(named(list, false) =~= seq![first, second]);
}

/// In a verbatim directory a dot is a name as any other, and a backslash more does not
/// count: two components with one or two backslashes between them lead on behind both.
pub proof fn verbatim_directories_keep_dots(first: Seq<char>, second: Seq<char>)
    requires
        forall|i: int| 0 <= i < first.len() ==> #[trigger] first[i] != '\\',
        forall|i: int| 0 <= i < second.len() ==> #[trigger] second[i] != '\\',
        second.len() > 0,
    ensures
        lead_of(Platform::Windows, "\\\\?\\"@ + first + seq!['\\'] + second) == "\\\\?\\"@ + first
            + seq!['\\'] + second + seq!['\\'],
        lead_of(Platform::Windows, "\\\\?\\"@ + first + seq!['\\', '\\'] + second) == "\\\\?\\"@
            + first + seq!['\\'] + second + seq!['\\'],
{
    let at = Separators::Backslash;
    let marker = "\\\\?\\"@;
    reveal_strlit("\\\\?\\");
    let nothing = Seq::<char>::empty();
    let plain = marker + first + seq!['\\'] + second;
    let doubled = marker + first + seq!['\\', '\\'] + second;
    assert(plain.subrange(0, 4) =~= marker);
    assert(doubled.subrange(0, 4) =~= marker);
    assert(is_uncut(at, first) && is_uncut(at, second));
    uncut_lengthens(at, nothing, first);
    assert(nothing + first =~= first);
    assert(pieces(at, nothing) =~= seq![nothing]);
    assert(pieces(at, first) =~= seq![first]);
    let one = first.push('\\');
    assert(one.drop_last() =~= first);
    assert(pieces(at, one) =~= seq![first, nothing]);
    let two = one.push('\\');
    assert(two.drop_last() =~= one);
    assert(pieces(at, two) =~= seq![first, nothing, nothing]);
    uncut_lengthens(at, one, second);
    uncut_lengthens(at, two, second);
    assert(nothing + second =~= second);
    assert(plain.skip(4) =~= one + second);
    assert(doubled.skip(4) =~= two + second);
    assert(pieces(at, plain.skip(4)) =~= seq![first, second]);
    assert(pieces(at, doubled.skip(4)) =~= seq![first, nothing, second]);
    reveal_with_fuel(named, 3);
    assert(seq![first, second].skip(1) =~= seq![second]);
    assert(seq![first, nothing, second].skip(1) =~= seq![nothing, second]);
    assert(seq![second].drop_last() =~= Seq::empty());
    assert(seq![nothing, second].drop_last() =~= seq![nothing]);
    assert(seq![nothing].drop_last() =~= Seq::empty());
    assert(named(seq![second], true) =~= seq![second]);
    assert(named(seq![nothing, second], true) =~= seq![second]);
    let both = seq![first, second];
    assert(verbatim_parts(plain) =~= both);
    assert(verbatim_parts(doubled) =~= both);
    assert(both.drop_last() =~= seq![first]);
    assert(seq![first].drop_last() =~= Seq::empty());
    reveal_with_fuel(closed, 3);
    assert(closed(both) =~= first + seq!['\\'] + second + seq!['\\']);
    assert(marker + closed(both) =~= marker + first + seq!['\\'] + second + seq!['\\']);
}

} // verus!
