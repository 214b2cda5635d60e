//! Paths of directories and files, as the operating system writes them.
//!
//! A path is compared by its components: repeated and trailing separators make no difference, nor
//! does the component `.`, except at the beginning of a path. On Windows both slashes separate
//! components, and a path may begin with a drive or another prefix.
use crate::ordered::{Ranked, is_order, models, sorted_by, stable_sort};
use crate::text::{
    chars_of, concat2, concat3, find, find_char, join, joined, lemma_find, lemma_text_lt_total,
    lemma_text_lt_trans, less, opt_view, same, same_texts, split, split_on, starts_with, text_lt,
    views,
};
use vstd::prelude::*;

verus! {

/// How the operating system writes paths.
#[derive(Debug, Clone, Copy, PartialEq, Eq, Structural)]
pub enum PathStyle {
    Posix,
    Windows,
}

/// The separator that the operating system writes.
pub open spec fn separator(style: PathStyle) -> Seq<char> {
    match style {
        PathStyle::Posix => "/"@,
        PathStyle::Windows => "\\"@,
    }
}

/// The character separates components.
pub open spec fn is_separator(style: PathStyle, c: char) -> bool {
    c == '/' || (style == PathStyle::Windows && c == '\\')
}

/// The text with one character in place of another.
pub open spec fn replaced(text: Seq<char>, from: char, to: char) -> Seq<char> {
    text.map_values(
        |c: char|
            if c == from {
                to
            } else {
                c
            },
    )
}

/// The prefix of a Windows path: its name among components, its length, and what follows from its
/// kind.
#[verifier::ext_equal]
pub struct PrefixView {
    pub name: Seq<char>,
    pub len: int,
    pub is_verbatim: bool,
    pub is_drive: bool,
}

/// The position of the first separator of a Windows path; of a verbatim one only backslashes are.
pub open spec fn name_end(path: Seq<char>, is_verbatim: bool) -> int {
    if is_verbatim {
        find(path, '\\')
    } else {
        find(replaced(path, '/', '\\'), '\\')
    }
}

/// The text up to the first separator, and what stands behind that separator.
pub open spec fn first_name(path: Seq<char>, is_verbatim: bool) -> (Seq<char>, Seq<char>) {
    let end = name_end(path, is_verbatim);
    if end < path.len() {
        (path.take(end), path.skip(end + 1))
    } else {
        (path, Seq::empty())
    }
}

/// A letter of the alphabet as a capital.
pub open spec fn capital(c: char) -> char {
    if 'a' <= c <= 'z' {
        (c as int - 32) as char
    } else {
        c
    }
}

/// The path begins with the letter of a drive.
pub open spec fn has_drive(path: Seq<char>) -> bool {
    path.len() >= 2 && path[1] == ':' && ('a' <= path[0] <= 'z' || 'A' <= path[0] <= 'Z')
}

/// The prefix of two names: of a server and of what it shares.
pub open spec fn share_prefix(
    kind: Seq<char>,
    path: Seq<char>,
    at: int,
    is_verbatim: bool,
) -> PrefixView {
    let (server, rest) = first_name(path.skip(at), is_verbatim);
    let (share, _) = first_name(rest, is_verbatim);
    PrefixView {
        name: kind + server + "\0"@ + share,
        len: at + server.len() + (if share.len() > 0 {
            1 + share.len()
        } else {
            0
        }),
        is_verbatim,
        is_drive: false,
    }
}

/// The prefix of one name.
pub open spec fn name_prefix(kind: Seq<char>, path: Seq<char>, is_verbatim: bool) -> PrefixView {
    let (name, _) = first_name(path.skip(4), is_verbatim);
    PrefixView { name: kind + name, len: 4 + name.len() as int, is_verbatim, is_drive: false }
}

/// The prefix of a Windows path, where it has one: that of a verbatim path, of a device, of a share
/// or a drive. The name of a prefix begins with a backslash and the place of its kind in the order
/// of prefixes.
pub open spec fn prefix_of(path: Seq<char>) -> Option<PrefixView> {
    let plain = replaced(path, '/', '\\');
    if "\\\\"@.is_prefix_of(plain) {
        if "\\\\?\\"@.is_prefix_of(path) {
            let rest = path.skip(4);
            if "UNC\\"@.is_prefix_of(plain.skip(4)) {
                Some(share_prefix("\\1"@, path, 8, true))
            } else if has_drive(rest) && (
                rest.len() == 2 || is_separator(PathStyle::Windows, rest[2])
            ) {
                Some(
                    PrefixView {
                        name: "\\2"@.push(capital(rest[0])),
                        len: 6,
                        is_verbatim: true,
                        is_drive: false,
                    },
                )
            } else {
                Some(name_prefix("\\0"@, path, true))
            }
        } else if "\\\\.\\"@.is_prefix_of(plain) {
            Some(name_prefix("\\3"@, path, false))
        } else {
            let (server, rest) = first_name(path.skip(2), false);
            let (share, _) = first_name(rest, false);
            if server.len() > 0 && share.len() > 0 {
                Some(share_prefix("\\4"@, path, 2, false))
            } else {
                None
            }
        }
    } else if has_drive(path) {
        Some(
            PrefixView {
                name: "\\5"@.push(capital(path[0])),
                len: 2,
                is_verbatim: false,
                is_drive: true,
            },
        )
    } else {
        None
    }
}

/// The prefix of a path, where it has one.
pub open spec fn path_prefix(style: PathStyle, path: Seq<char>) -> Option<PrefixView> {
    match style {
        PathStyle::Posix => None,
        PathStyle::Windows => prefix_of(path),
    }
}

/// The length of the prefix of a path.
pub open spec fn prefix_len(style: PathStyle, path: Seq<char>) -> int {
    match path_prefix(style, path) {
        Some(prefix) => prefix.len,
        None => 0,
    }
}

/// The path has a separator behind its prefix.
pub open spec fn is_rooted(style: PathStyle, path: Seq<char>) -> bool {
    let len = prefix_len(style, path);
    len < path.len() && is_separator(style, path[len])
}

/// The component for the root of the file system.
pub open spec fn root_component(style: PathStyle, path: Seq<char>) -> Seq<Seq<char>> {
    let implied = match path_prefix(style, path) {
        Some(prefix) => !prefix.is_drive && !prefix.is_verbatim,
        None => false,
    };
    if is_rooted(style, path) || implied {
        seq![separator(style)]
    } else {
        Seq::empty()
    }
}

/// The component for the prefix of a path.
pub open spec fn prefix_component(style: PathStyle, path: Seq<char>) -> Seq<Seq<char>> {
    match path_prefix(style, path) {
        Some(prefix) => seq![prefix.name],
        None => Seq::empty(),
    }
}

/// What stands behind the prefix and the root of a path.
pub open spec fn path_body(style: PathStyle, path: Seq<char>) -> Seq<char> {
    let len = prefix_len(style, path);
    if is_rooted(style, path) {
        path.skip(len + 1)
    } else {
        path.skip(len)
    }
}

/// The pieces between the separators of a text.
pub open spec fn pieces_of(style: PathStyle, is_verbatim: bool, body: Seq<char>) -> Seq<Seq<char>> {
    if is_verbatim {
        split(body, '\\')
    } else if style == PathStyle::Windows {
        split(replaced(body, '\\', '/'), '/')
    } else {
        split(body, '/')
    }
}

/// The prefix of the path is verbatim.
pub open spec fn has_verbatim_prefix(style: PathStyle, path: Seq<char>) -> bool {
    match path_prefix(style, path) {
        Some(prefix) => prefix.is_verbatim,
        None => false,
    }
}

/// The names among the pieces between separators. A dot is kept where all are, or where the first
/// is and it is the first piece.
pub open spec fn kept_names(pieces: Seq<Seq<char>>, dots: bool, first_dot: bool) -> Seq<Seq<char>>
    decreases pieces.len(),
{
    if pieces.len() == 0 {
        Seq::empty()
    } else {
        let before = kept_names(pieces.drop_last(), dots, first_dot);
        let piece = pieces.last();
        if piece.len() == 0 || (piece == "."@ && !dots && !(first_dot && pieces.len() == 1)) {
            before
        } else {
            before.push(piece)
        }
    }
}

/// The path has neither a prefix nor a root.
pub open spec fn is_bare(style: PathStyle, path: Seq<char>) -> bool {
    path_prefix(style, path) is None && !is_rooted(style, path)
}

/// The names of a path, behind its prefix and its root.
pub open spec fn path_names(style: PathStyle, path: Seq<char>) -> Seq<Seq<char>> {
    kept_names(
        pieces_of(style, has_verbatim_prefix(style, path), path_body(style, path)),
        has_verbatim_prefix(style, path),
        is_bare(style, path),
    )
}

/// The components of a path.
pub open spec fn components(style: PathStyle, path: Seq<char>) -> Seq<Seq<char>> {
    prefix_component(style, path) + root_component(style, path) + path_names(style, path)
}

/// The path is the directory, or lies inside it.
pub open spec fn is_inside(style: PathStyle, path: Seq<char>, directory: Seq<char>) -> bool {
    components(style, directory).is_prefix_of(components(style, path))
}

/// The two optional paths are one path.
pub open spec fn same_location(
    style: PathStyle,
    a: Option<Seq<char>>,
    b: Option<Seq<char>>,
) -> bool {
    match (a, b) {
        (Some(a), Some(b)) => components(style, a) == components(style, b),
        (None, None) => true,
        _ => false,
    }
}

/// One of the paths is the given one.
pub open spec fn lists_path(style: PathStyle, paths: Seq<Seq<char>>, path: Seq<char>) -> bool {
    exists|i: int| 0 <= i < paths.len() && components(
        style,
        #[trigger] paths[i],
    ) == components(style, path)
}

/// The paths without those that are listed before.
pub open spec fn distinct_paths(style: PathStyle, paths: Seq<Seq<char>>) -> Seq<Seq<char>>
    decreases paths.len(),
{
    if paths.len() == 0 {
        Seq::empty()
    } else {
        with_path(style, distinct_paths(style, paths.drop_last()), paths.last())
    }
}

/// The paths with one more, unless it is listed.
pub open spec fn with_path(
    style: PathStyle,
    paths: Seq<Seq<char>>,
    path: Seq<char>,
) -> Seq<Seq<char>> {
    if lists_path(style, paths, path) {
        paths
    } else {
        paths.push(path)
    }
}

/// The two lists name the same paths, one by one.
pub open spec fn same_paths_in(style: PathStyle, a: Seq<Seq<char>>, b: Seq<Seq<char>>) -> bool {
    a.len() == b.len() && forall|i: int|
        0 <= i < a.len() ==> components(style, #[trigger] a[i]) == components(style, b[i])
}

/// No path is listed twice.
pub open spec fn no_path_twice(style: PathStyle, paths: Seq<Seq<char>>) -> bool {
    forall|i: int, j: int|
        0 <= i < j < paths.len() ==> components(style, #[trigger] paths[i]) != components(
                    style,
            #[trigger] paths[j],
        )
}

/// Each path of the first list is listed in the second.
pub open spec fn lists_each(
    style: PathStyle,
    paths: Seq<Seq<char>>,
    listed: Seq<Seq<char>>,
) -> bool {
    forall|k: int| 0 <= k < paths.len() ==> lists_path(style, listed, #[trigger] paths[k])
}

/// A list to which a path was added lists what it listed before, and the path.
pub proof fn lemma_with_path(style: PathStyle, paths: Seq<Seq<char>>, path: Seq<char>)
    ensures
        no_path_twice(style, paths) ==> no_path_twice(style, with_path(style, paths, path)),
        lists_path(style, with_path(style, paths, path), path),
        forall|other: Seq<char>|
            lists_path(style, paths, other) ==> #[trigger] lists_path(
                style,
                with_path(style, paths, path),
                other,
            ),
{
    let all = with_path(style, paths, path);
    if !lists_path(style, paths, path) {
        assert(all[paths.len() as int] == path);
        assert forall|i: int, j: int| no_path_twice(
            style,
            paths,
        ) && 0 <= i < j < all.len() implies components(
                    style,
            #[trigger] all[i],
        ) != components(style, #[trigger] all[j]) by {
            assert(all[i] == paths[i]);
            if j < paths.len() {
                assert(all[j] == paths[j]);
            }
        }
    }
    assert forall|other: Seq<char>| lists_path(style, paths, other) implies #[trigger] lists_path(
                    style,
        all,
        other,
    ) by {
        let i = choose|i: int|
            0 <= i < paths.len() && components(
                style,
                #[trigger] paths[i],
            ) == components(style, other);
        assert(all[i] == paths[i]);
    }
}

/// No path is listed twice, and each path is listed.
pub proof fn law_distinct_paths(style: PathStyle, paths: Seq<Seq<char>>)
    ensures
        no_path_twice(style, distinct_paths(style, paths)),
        lists_each(style, paths, distinct_paths(style, paths)),
    decreases paths.len(),
{
    if paths.len() > 0 {
        let front = paths.drop_last();
        law_distinct_paths(style, front);
        lemma_with_path(style, distinct_paths(style, front), paths.last());
        assert forall|k: int| 0 <= k < paths.len() implies lists_path(
                    style,
            distinct_paths(style, paths),
            #[trigger] paths[k],
        ) by {
            if k < front.len() {
                assert(front[k] == paths[k]);
            }
        }
    }
}

fn with_replaced(text: &str, from: char, to: char) -> (r: String)
    ensures
        r@ == replaced(text@, from, to),
{
    let chars = chars_of(text);
    let mut r = String::new();
    let mut i: usize = 0;
    assert(r@ =~= replaced(text@, from, to).take(0));
    while i < chars.len()
        invariant
            i <= chars@.len(),
            chars@ == text@,
            r@ == replaced(text@, from, to).take(i as int),
        decreases chars@.len() - i,
    {
        let ghost done = r@;
        let c = if chars[i] == from {
            to
        } else {
            chars[i]
        };
        r.push(c);
        assert(replaced(text@, from, to).take(i as int + 1) =~= done.push(c));
        i = i + 1;
    }
    assert(replaced(text@, from, to).take(i as int) =~= replaced(text@, from, to));
    r
}

fn separates(style: PathStyle, c: char) -> (r: bool)
    ensures
        r == is_separator(style, c),
{
    c == '/' || (style == PathStyle::Windows && c == '\\')
}

/// The prefix of a Windows path, as plain values.
struct Prefix {
    name: String,
    len: usize,
    is_verbatim: bool,
    is_drive: bool,
}

impl Prefix {
    spec fn view(&self) -> PrefixView {
        PrefixView {
            name: self.name@,
            len: self.len as int,
            is_verbatim: self.is_verbatim,
            is_drive: self.is_drive,
        }
    }
}

spec fn opt_prefix_view(prefix: Option<Prefix>) -> Option<PrefixView> {
    match prefix {
        Some(prefix) => Some(prefix@),
        None => None,
    }
}

fn split_first<'a>(path: &'a str, is_verbatim: bool) -> (r: (&'a str, &'a str))
    ensures
        (r.0@, r.1@) == first_name(path@, is_verbatim),
        r.0@.len() + r.1@.len() <= path@.len(),
        r.1@.len() > 0 ==> r.0@.len() + r.1@.len() + 1 == path@.len(),
{
    let n: usize = path.unicode_len();
    let plain = with_replaced(path, '/', '\\');
    let chars = if is_verbatim {
        chars_of(path)
    } else {
        chars_of(plain.as_str())
    };
    let end = find_char(&chars, '\\', 0);
    proof {
        assert(chars@.skip(0) =~= chars@);
        lemma_find(chars@, '\\');
        lemma_find(path@, '\\');
        lemma_find(replaced(path@, '/', '\\'), '\\');
    }
    if end < n {
        let name = path.substring_char(0, end);
        let rest = path.substring_char(end + 1, n);
        assert(name@ =~= path@.take(end as int));
        assert(rest@ =~= path@.skip(end as int + 1));
        (name, rest)
    } else {
        let rest = path.substring_char(n, n);
        assert(rest@ =~= Seq::empty());
        (path, rest)
    }
}

fn capital_of(c: char) -> (r: char)
    ensures
        r == capital(c),
{
    if 'a' <= c && c <= 'z' {
        ((c as u8) - 32) as char
    } else {
        c
    }
}

fn begins_with_drive(path: &str) -> (r: bool)
    ensures
        r == has_drive(path@),
{
    if path.unicode_len() < 2 {
        return false;
    }
    let c = path.get_char(0);
    path.get_char(1) == ':' && (('a' <= c && c <= 'z') || ('A' <= c && c <= 'Z'))
}

fn read_share(kind: &str, path: &str, at: usize, is_verbatim: bool) -> (r: Prefix)
    requires
        at <= path@.len(),
    ensures
        r@ == share_prefix(kind@, path@, at as int, is_verbatim),
        r.len <= path@.len(),
{
    let n: usize = path.unicode_len();
    let tail = path.substring_char(at, n);
    assert(tail@ =~= path@.skip(at as int));
    let (server, rest) = split_first(tail, is_verbatim);
    let (share, _) = split_first(rest, is_verbatim);
    let mut name = concat3(kind, server, "\0");
    name.append(share);
    let own: usize = server.unicode_len();
    let shared: usize = share.unicode_len();
    let len: usize = if shared > 0 {
        at + own + 1 + shared
    } else {
        at + own
    };
    Prefix { name, len, is_verbatim, is_drive: false }
}

fn read_name(kind: &str, path: &str, is_verbatim: bool) -> (r: Prefix)
    requires
        4 <= path@.len(),
    ensures
        r@ == name_prefix(kind@, path@, is_verbatim),
        r.len <= path@.len(),
{
    let n: usize = path.unicode_len();
    let tail = path.substring_char(4, n);
    assert(tail@ =~= path@.skip(4));
    let (name, _) = split_first(tail, is_verbatim);
    Prefix {
        name: concat2(kind, name),
        len: 4 + name.unicode_len(),
        is_verbatim,
        is_drive: false,
    }
}

fn drive_prefix(kind: &str, letter: char, len: usize, is_verbatim: bool) -> (r: Prefix)
    ensures
        r@ == (PrefixView {
            name: kind@.push(capital(letter)),
            len: len as int,
            is_verbatim,
            is_drive: !is_verbatim,
        }),
{
    let mut name = kind.to_owned();
    name.push(capital_of(letter));
    Prefix { name, len, is_verbatim, is_drive: !is_verbatim }
}

fn read_prefix(path: &str) -> (r: Option<Prefix>)
    ensures
        opt_prefix_view(r) == prefix_of(path@),
        r matches Some(prefix) ==> prefix.len <= path@.len(),
{
    proof {
        reveal_strlit("\\\\");
        reveal_strlit("\\\\?\\");
        reveal_strlit("\\\\.\\");
        reveal_strlit("UNC\\");
    }
    let n: usize = path.unicode_len();
    let plain = with_replaced(path, '/', '\\');
    if starts_with(plain.as_str(), "\\\\") {
        if starts_with(path, "\\\\?\\") {
            let rest = path.substring_char(4, n);
            assert(rest@ =~= path@.skip(4));
            let plain_rest = plain.as_str().substring_char(4, n);
            assert(plain_rest@ =~= plain@.skip(4));
            if starts_with(plain_rest, "UNC\\") {
                Some(read_share("\\1", path, 8, true))
            } else if begins_with_drive(rest) && (n == 6 || separates(
                PathStyle::Windows,
                rest.get_char(2),
            )) {
                Some(drive_prefix("\\2", rest.get_char(0), 6, true))
            } else {
                Some(read_name("\\0", path, true))
            }
        } else if starts_with(plain.as_str(), "\\\\.\\") {
            Some(read_name("\\3", path, false))
        } else {
            let tail = path.substring_char(2, n);
            assert(tail@ =~= path@.skip(2));
            let (server, rest) = split_first(tail, false);
            let (share, _) = split_first(rest, false);
            if server.unicode_len() > 0 && share.unicode_len() > 0 {
                Some(read_share("\\4", path, 2, false))
            } else {
                None
            }
        }
    } else if begins_with_drive(path) {
        Some(drive_prefix("\\5", path.get_char(0), 2, false))
    } else {
        None
    }
}

fn read_path_prefix(style: PathStyle, path: &str) -> (r: Option<Prefix>)
    ensures
        opt_prefix_view(r) == path_prefix(style, path@),
        r matches Some(prefix) ==> prefix.len <= path@.len(),
{
    match style {
        PathStyle::Posix => None,
        PathStyle::Windows => read_prefix(path),
    }
}

fn separator_of(style: PathStyle) -> (r: &'static str)
    ensures
        r@ == separator(style),
{
    match style {
        PathStyle::Posix => "/",
        PathStyle::Windows => "\\",
    }
}

fn path_is_rooted(style: PathStyle, path: &str, len: usize) -> (r: bool)
    requires
        len == prefix_len(style, path@),
    ensures
        r == is_rooted(style, path@),
{
    len < path.unicode_len() && separates(style, path.get_char(len))
}

fn keep_names(pieces: &Vec<String>, dots: bool, first_dot: bool) -> (r: Vec<String>)
    ensures
        views(r@) == kept_names(views(pieces@), dots, first_dot),
{
    let ghost all = views(pieces@);
    let mut r: Vec<String> = Vec::new();
    let mut i: usize = 0;
    assert(views(r@) =~= kept_names(all.take(0), dots, first_dot));
    while i < pieces.len()
        invariant
            i <= pieces@.len(),
            all == views(pieces@),
            views(r@) == kept_names(all.take(i as int), dots, first_dot),
        decreases pieces@.len() - i,
    {
        let ghost done = views(r@);
        let piece = pieces[i].as_str();
        proof {
            assert(all.take(i as int + 1).drop_last() =~= all.take(i as int));
            assert(all.take(i as int + 1).last() == piece@);
        }
        if !(piece.unicode_len() == 0 || (same(piece, ".") && !dots && !(first_dot && i == 0))) {
            r.push(piece.to_owned());
            assert(views(r@) =~= done.push(piece@));
        }
        i = i + 1;
    }
    assert(all.take(i as int) =~= all);
    r
}

fn names_in(style: PathStyle, path: &str, prefix: &Option<Prefix>) -> (r: Vec<String>)
    requires
        opt_prefix_view(*prefix) == path_prefix(style, path@),
        prefix matches Some(prefix) ==> prefix.len <= path@.len(),
    ensures
        views(r@) == path_names(style, path@),
{
    let n: usize = path.unicode_len();
    let len: usize = match prefix {
        Some(prefix) => prefix.len,
        None => 0,
    };
    let is_verbatim = match prefix {
        Some(prefix) => prefix.is_verbatim,
        None => false,
    };
    let rooted = path_is_rooted(style, path, len);
    let from: usize = if rooted {
        len + 1
    } else {
        len
    };
    let body = path.substring_char(from, n);
    assert(body@ =~= path_body(style, path@));
    let pieces = if is_verbatim {
        split_on(body, '\\')
    } else if style == PathStyle::Windows {
        split_on(with_replaced(body, '\\', '/').as_str(), '/')
    } else {
        split_on(body, '/')
    };
    keep_names(&pieces, is_verbatim, prefix.is_none() && !rooted)
}

/// The components of a path.
pub fn components_of(style: PathStyle, path: &str) -> (r: Vec<String>)
    ensures
        views(r@) == components(style, path@),
{
    let mut r: Vec<String> = Vec::new();
    let prefix = read_path_prefix(style, path);
    let len: usize = match &prefix {
        Some(prefix) => prefix.len,
        None => 0,
    };
    let mut rooted = path_is_rooted(style, path, len);
    let names = names_in(style, path, &prefix);
    if let Some(prefix) = &prefix {
        r.push(prefix.name.clone());
        if !prefix.is_drive && !prefix.is_verbatim {
            rooted = true;
        }
    }
    assert(views(r@) =~= prefix_component(style, path@));
    if rooted {
        r.push(separator_of(style).to_owned());
    }
    let ghost front = prefix_component(style, path@) + root_component(style, path@);
    assert(views(r@) =~= front);
    let ghost all = views(names@);
    let mut i: usize = 0;
    assert(front + all.take(0) =~= front);
    while i < names.len()
        invariant
            i <= names@.len(),
            all == views(names@),
            views(r@) == front + all.take(i as int),
        decreases names@.len() - i,
    {
        let ghost done = views(r@);
        r.push(names[i].clone());
        assert(views(r@) =~= done.push(all[i as int]));
        assert(front + all.take(i as int + 1) =~= done.push(all[i as int]));
        i = i + 1;
    }
    assert(all.take(i as int) =~= all);
    r
}

/// The two texts write one path.
pub fn same_path(style: PathStyle, a: &str, b: &str) -> (r: bool)
    ensures
        r == (components(style, a@) == components(style, b@)),
{
    let a = components_of(style, a);
    let b = components_of(style, b);
    same_texts(&a, &b)
}

/// The two optional paths are one path.
pub fn same_path_option(style: PathStyle, a: &Option<String>, b: &Option<String>) -> (r: bool)
    ensures
        r == same_location(style, opt_view(*a), opt_view(*b)),
{
    match (a, b) {
        (Some(a), Some(b)) => same_path(style, a.as_str(), b.as_str()),
        (None, None) => true,
        _ => false,
    }
}

/// The path is the directory, or lies inside it.
pub fn inside(style: PathStyle, path: &str, directory: &str) -> (r: bool)
    ensures
        r == is_inside(style, path@, directory@),
{
    let outer = components_of(style, directory);
    let inner = components_of(style, path);
    let ghost a = components(style, directory@);
    let ghost b = components(style, path@);
    assert(a.len() == outer@.len());
    assert(b.len() == inner@.len());
    if outer.len() > inner.len() {
        return false;
    }
    let mut i: usize = 0;
    while i < outer.len()
        invariant
            i <= outer@.len() <= inner@.len(),
            a == views(outer@),
            b == views(inner@),
            a == components(style, directory@),
            b == components(style, path@),
            forall|j: int| 0 <= j < i ==> a[j] == b[j],
        decreases outer@.len() - i,
    {
        assert(a[i as int] == outer@[i as int]@);
        assert(b[i as int] == inner@[i as int]@);
        if !same(outer[i].as_str(), inner[i].as_str()) {
            assert(b.subrange(0, a.len() as int)[i as int] == b[i as int]);
            return false;
        }
        i = i + 1;
    }
    assert(a =~= b.subrange(0, a.len() as int));
    true
}

/// One of the paths is the given one.
pub fn has_path(style: PathStyle, paths: &Vec<String>, path: &str) -> (r: bool)
    ensures
        r == lists_path(style, views(paths@), path@),
{
    let ghost all = views(paths@);
    let mut i: usize = 0;
    while i < paths.len()
        invariant
            i <= paths@.len(),
            all == views(paths@),
            forall|j: int| 0 <= j < i ==> components(
                style,
                #[trigger] all[j],
            ) != components(style, path@),
        decreases paths@.len() - i,
    {
        assert(all[i as int] == paths@[i as int]@);
        if same_path(style, paths[i].as_str(), path) {
            return true;
        }
        i = i + 1;
    }
    false
}

/// Adds a path, unless it is listed.
pub fn add_path(style: PathStyle, paths: &mut Vec<String>, path: &str)
    ensures
        views(final(paths)@) == with_path(style, views(old(paths)@), path@),
{
    let ghost before = views(paths@);
    if !has_path(style, paths, path) {
        paths.push(path.to_owned());
        assert(views(paths@) =~= before.push(path@));
    }
}

/// The paths without those that are listed before.
pub fn dedupe_paths(style: PathStyle, paths: &Vec<String>) -> (r: Vec<String>)
    ensures
        views(r@) == distinct_paths(style, views(paths@)),
{
    let ghost all = views(paths@);
    let mut r: Vec<String> = Vec::new();
    let mut i: usize = 0;
    assert(views(r@) =~= distinct_paths(style, all.take(0)));
    while i < paths.len()
        invariant
            i <= paths@.len(),
            all == views(paths@),
            views(r@) == distinct_paths(style, all.take(i as int)),
        decreases paths@.len() - i,
    {
        proof {
            assert(all.take(i as int + 1).drop_last() =~= all.take(i as int));
            assert(all.take(i as int + 1).last() == paths@[i as int]@);
        }
        add_path(style, &mut r, paths[i].as_str());
        i = i + 1;
    }
    assert(all.take(i as int) =~= all);
    r
}

/// The two lists name the same paths, one by one.
pub fn same_paths(style: PathStyle, a: &Vec<String>, b: &Vec<String>) -> (r: bool)
    ensures
        r == same_paths_in(style, views(a@), views(b@)),
{
    let ghost x = views(a@);
    let ghost y = views(b@);
    if a.len() != b.len() {
        return false;
    }
    let mut i: usize = 0;
    while i < a.len()
        invariant
            i <= a@.len(),
            a@.len() == b@.len(),
            x == views(a@),
            y == views(b@),
            forall|j: int| 0 <= j < i ==> components(
                style,
                #[trigger] x[j],
            ) == components(style, y[j]),
        decreases a@.len() - i,
    {
        assert(x[i as int] == a@[i as int]@);
        assert(y[i as int] == b@[i as int]@);
        if !same_path(style, a[i].as_str(), b[i].as_str()) {
            return false;
        }
        i = i + 1;
    }
    true
}

/// Where the kind of a component stands: a prefix, the root, the present directory, the one above,
/// a name.
pub open spec fn component_rank(style: PathStyle, name: Seq<char>) -> int {
    if style == PathStyle::Windows && name.len() > 1 && name[0] == '\\' {
        0
    } else if name == separator(style) {
        1
    } else if name == "."@ {
        2
    } else if name == ".."@ {
        3
    } else {
        4
    }
}

/// The component comes before the other: by its kind, and among names in the order of texts.
pub open spec fn component_before(style: PathStyle, a: Seq<char>, b: Seq<char>) -> bool {
    component_rank(style, a) < component_rank(style, b) || (
        component_rank(style, a) == component_rank(style, b) && text_lt(a, b)
    )
}

/// The components come before the others: by the first in which they differ.
pub open spec fn components_before(style: PathStyle, a: Seq<Seq<char>>, b: Seq<Seq<char>>) -> bool
    decreases a.len(),
{
    if b.len() == 0 {
        false
    } else if a.len() == 0 {
        true
    } else if a[0] == b[0] {
        components_before(style, a.skip(1), b.skip(1))
    } else {
        component_before(style, a[0], b[0])
    }
}

/// The path comes before the other.
pub open spec fn path_before(style: PathStyle, a: Seq<char>, b: Seq<char>) -> bool {
    components_before(style, components(style, a), components(style, b))
}

/// The order of paths.
pub open spec fn path_order(style: PathStyle) -> spec_fn(Seq<char>, Seq<char>) -> bool {
    |a: Seq<char>, b: Seq<char>| path_before(style, a, b)
}

proof fn lemma_component_total(style: PathStyle, a: Seq<char>, b: Seq<char>)
    ensures
        !(component_before(style, a, b) && component_before(style, b, a)),
        a == b <==> !component_before(style, a, b) && !component_before(style, b, a),
{
    lemma_text_lt_total(a, b);
}

proof fn lemma_component_trans(style: PathStyle, a: Seq<char>, b: Seq<char>, c: Seq<char>)
    requires
        component_before(style, a, b),
        component_before(style, b, c),
    ensures
        component_before(style, a, c),
{
    if text_lt(a, b) && text_lt(b, c) {
        lemma_text_lt_trans(a, b, c);
    }
}

/// Of two different lists of components one comes before the other, and not both.
pub proof fn lemma_components_total(style: PathStyle, a: Seq<Seq<char>>, b: Seq<Seq<char>>)
    ensures
        !(components_before(style, a, b) && components_before(style, b, a)),
        a == b <==> !components_before(style, a, b) && !components_before(style, b, a),
    decreases a.len(),
{
    if a.len() > 0 && b.len() > 0 {
        lemma_component_total(style, a[0], b[0]);
        if a[0] == b[0] {
            lemma_components_total(style, a.skip(1), b.skip(1));
            if a.skip(1) == b.skip(1) {
                assert(a =~= seq![a[0]] + a.skip(1));
                assert(b =~= seq![b[0]] + b.skip(1));
            }
        }
    } else if a.len() == 0 && b.len() == 0 {
        assert(a =~= b);
    }
}

proof fn lemma_components_trans(
    style: PathStyle,
    a: Seq<Seq<char>>,
    b: Seq<Seq<char>>,
    c: Seq<Seq<char>>,
)
    requires
        components_before(style, a, b),
        components_before(style, b, c),
    ensures
        components_before(style, a, c),
    decreases a.len(),
{
    if a.len() > 0 {
        if a[0] == b[0] && b[0] == c[0] {
            lemma_components_trans(style, a.skip(1), b.skip(1), c.skip(1));
        } else if a[0] != b[0] && b[0] != c[0] {
            lemma_component_trans(style, a[0], b[0], c[0]);
            lemma_component_total(style, a[0], c[0]);
            lemma_component_total(style, a[0], b[0]);
        }
    }
}

/// Paths are in an order.
pub proof fn law_path_order(style: PathStyle)
    ensures
        is_order(path_order(style)),
{
    let order = path_order(style);
    assert forall|a: Seq<char>, b: Seq<char>| #[trigger] order(a, b) implies !order(b, a) by {
        lemma_components_total(style, components(style, a), components(style, b));
    }
    assert forall|a: Seq<char>, b: Seq<char>, c: Seq<char>|
        !#[trigger] order(b, a) && !#[trigger] order(c, b) implies !order(c, a) by {
        let (x, y, z) = (components(style, a), components(style, b), components(style, c));
        lemma_components_total(style, x, y);
        lemma_components_total(style, y, z);
        lemma_components_total(style, x, z);
        if components_before(style, x, y) && components_before(style, y, z) {
            lemma_components_trans(style, x, y, z);
        }
    }
}

/// A way to write paths, as a type.
trait Written: Sized {
    spec fn written() -> PathStyle;

    fn way() -> (r: PathStyle)
        ensures
            r == Self::written(),
    ;
}

struct AsPosix;

struct AsWindows;

impl Written for AsPosix {
    spec fn written() -> PathStyle {
        PathStyle::Posix
    }

    fn way() -> (r: PathStyle) {
        PathStyle::Posix
    }
}

impl Written for AsWindows {
    spec fn written() -> PathStyle {
        PathStyle::Windows
    }

    fn way() -> (r: PathStyle) {
        PathStyle::Windows
    }
}

/// A path in a list that is sorted.
struct SortedPath<W> {
    text: String,
    way: W,
}

fn component_rank_of(style: PathStyle, name: &str) -> (r: u8)
    ensures
        r == component_rank(style, name@),
{
    if style == PathStyle::Windows && name.unicode_len() > 1 && name.get_char(0) == '\\' {
        0
    } else if same(name, separator_of(style)) {
        1
    } else if same(name, ".") {
        2
    } else if same(name, "..") {
        3
    } else {
        4
    }
}

fn component_is_before(style: PathStyle, a: &str, b: &str) -> (r: bool)
    ensures
        r == component_before(style, a@, b@),
{
    let x: u8 = component_rank_of(style, a);
    let y: u8 = component_rank_of(style, b);
    x < y || (x == y && less(a, b))
}

/// The path comes before the other.
pub fn path_is_before(style: PathStyle, a: &str, b: &str) -> (r: bool)
    ensures
        r == path_before(style, a@, b@),
{
    let x = components_of(style, a);
    let y = components_of(style, b);
    let ghost p = components(style, a@);
    let ghost q = components(style, b@);
    let mut i: usize = 0;
    assert(p.skip(0) =~= p);
    assert(q.skip(0) =~= q);
    while i < x.len() && i < y.len()
        invariant
            i <= x@.len(),
            i <= y@.len(),
            p == views(x@),
            q == views(y@),
            p == components(style, a@),
            q == components(style, b@),
            components_before(style, p, q) == components_before(
                style,
                p.skip(i as int),
                q.skip(i as int),
            ),
        decreases x@.len() - i,
    {
        proof {
            assert(p.skip(i as int)[0] == x@[i as int]@);
            assert(q.skip(i as int)[0] == y@[i as int]@);
            assert(p.skip(i as int).skip(1) =~= p.skip(i as int + 1));
            assert(q.skip(i as int).skip(1) =~= q.skip(i as int + 1));
        }
        if !same(x[i].as_str(), y[i].as_str()) {
            return component_is_before(style, x[i].as_str(), y[i].as_str());
        }
        i = i + 1;
    }
    assert(p.skip(i as int).len() == x@.len() - i);
    assert(q.skip(i as int).len() == y@.len() - i);
    i < y.len()
}

impl<W: Written> Ranked for SortedPath<W> {
    type Model = Seq<char>;

    closed spec fn model(&self) -> Seq<char> {
        self.text@
    }

    closed spec fn precedes(a: Seq<char>, b: Seq<char>) -> bool {
        path_before(W::written(), a, b)
    }

    fn is_before(&self, other: &Self) -> (r: bool) {
        path_is_before(W::way(), self.text.as_str(), other.text.as_str())
    }
}

fn sort_written<W: Written>(paths: Vec<SortedPath<W>>) -> (r: Vec<String>)
    ensures
        views(r@) == sorted_by(models(paths@), path_order(W::written())),
{
    let sorted = stable_sort(paths);
    let ghost order = models(sorted@);
    assert((|a: Seq<char>, b: Seq<char>| SortedPath::<W>::precedes(a, b)) =~= path_order(
        W::written(),
    ));
    let mut r: Vec<String> = Vec::new();
    let mut i: usize = 0;
    while i < sorted.len()
        invariant
            i <= sorted@.len(),
            order == models(sorted@),
            r@.len() == i,
            forall|j: int| 0 <= j < i ==> #[trigger] r@[j]@ == order[j],
        decreases sorted@.len() - i,
    {
        assert(order[i as int] == sorted@[i as int].model());
        r.push(sorted[i].text.clone());
        i = i + 1;
    }
    assert(views(r@) =~= order);
    r
}

/// The paths in their order.
pub fn sort_paths(style: PathStyle, paths: Vec<String>) -> (r: Vec<String>)
    ensures
        views(r@) == sorted_by(views(paths@), path_order(style)),
{
    let ghost all = views(paths@);
    let mut i: usize = 0;
    match style {
        PathStyle::Posix => {
            let mut items: Vec<SortedPath<AsPosix>> = Vec::new();
            assert(models(items@) =~= all.take(0));
            while i < paths.len()
                invariant
                    i <= paths@.len(),
                    all == views(paths@),
                    models(items@) == all.take(i as int),
                decreases paths@.len() - i,
            {
                let ghost before = models(items@);
                items.push(SortedPath { text: paths[i].clone(), way: AsPosix });
                assert(models(items@) =~= before.push(all[i as int]));
                assert(all.take(i as int + 1) =~= before.push(all[i as int]));
                i = i + 1;
            }
            assert(all.take(i as int) =~= all);
            sort_written(items)
        },
        PathStyle::Windows => {
            let mut items: Vec<SortedPath<AsWindows>> = Vec::new();
            assert(models(items@) =~= all.take(0));
            while i < paths.len()
                invariant
                    i <= paths@.len(),
                    all == views(paths@),
                    models(items@) == all.take(i as int),
                decreases paths@.len() - i,
            {
                let ghost before = models(items@);
                items.push(SortedPath { text: paths[i].clone(), way: AsWindows });
                assert(models(items@) =~= before.push(all[i as int]));
                assert(all.take(i as int + 1) =~= before.push(all[i as int]));
                i = i + 1;
            }
            assert(all.take(i as int) =~= all);
            sort_written(items)
        },
    }
}

/// The names with those of a path behind them: a name above takes one away.
pub open spec fn names_below(names: Seq<Seq<char>>, below: Seq<Seq<char>>) -> Seq<Seq<char>>
    decreases below.len(),
{
    if below.len() == 0 {
        names
    } else {
        let before = names_below(names, below.drop_last());
        if below.last() == "."@ {
            before
        } else if below.last() == ".."@ {
            if before.len() > 0 && before.last() != "."@ && before.last() != ".."@ {
                before.drop_last()
            } else {
                before
            }
        } else {
            before.push(below.last())
        }
    }
}

/// A path below a verbatim one, of which the names are counted off.
pub open spec fn joined_verbatim(base: Seq<char>, path: Seq<char>) -> Seq<char> {
    let style = PathStyle::Windows;
    let kept = if is_rooted(style, path) {
        Seq::empty()
    } else {
        path_names(style, base)
    };
    let names = names_below(kept, path_names(style, path));
    base.take(prefix_len(style, base)) + (if names.len() > 0 || is_rooted(style, base) || is_rooted(
        style,
        path,
    ) {
        "\\"@
    } else {
        Seq::empty()
    }) + join(names, "\\"@)
}

/// A path below another, or the path itself where it begins anew.
pub open spec fn joined_path(style: PathStyle, base: Seq<char>, path: Seq<char>) -> Seq<char> {
    let len = prefix_len(style, base);
    let is_drive = match path_prefix(style, base) {
        Some(prefix) => prefix.is_drive,
        None => false,
    };
    if path_prefix(style, path) is Some {
        path
    } else if has_verbatim_prefix(style, base) && path.len() > 0 {
        joined_verbatim(base, path)
    } else if is_rooted(style, path) {
        base.take(len) + path
    } else if base.len() == 0 || is_separator(style, base.last()) || (is_drive && len
        == base.len()) {
        base + path
    } else {
        base + separator(style) + path
    }
}

fn join_names(names: Vec<String>, below: &Vec<String>) -> (r: Vec<String>)
    ensures
        views(r@) == names_below(views(names@), views(below@)),
{
    let ghost first = views(names@);
    let ghost all = views(below@);
    let mut r = names;
    let mut i: usize = 0;
    assert(views(r@) =~= names_below(first, all.take(0)));
    while i < below.len()
        invariant
            i <= below@.len(),
            all == views(below@),
            views(r@) == names_below(first, all.take(i as int)),
        decreases below@.len() - i,
    {
        let ghost done = views(r@);
        let name = below[i].as_str();
        proof {
            assert(all.take(i as int + 1).drop_last() =~= all.take(i as int));
            assert(all.take(i as int + 1).last() == name@);
        }
        if same(name, "..") {
            let n: usize = r.len();
            assert(done.len() == n);
            if n > 0 {
                assert(done.last() == r@[n - 1]@);
                if !same(r[n - 1].as_str(), ".") && !same(r[n - 1].as_str(), "..") {
                    let _ = r.pop();
                    assert(views(r@) =~= done.drop_last());
                }
            }
        } else if !same(name, ".") {
            r.push(name.to_owned());
            assert(views(r@) =~= done.push(name@));
        }
        proof {
            reveal_strlit(".");
            reveal_strlit("..");
        }
        i = i + 1;
    }
    assert(all.take(i as int) =~= all);
    r
}

/// A path below another, or the path itself where it begins anew.
pub fn join_path(style: PathStyle, base: &str, path: &str) -> (r: String)
    ensures
        r@ == joined_path(style, base@, path@),
{
    let n: usize = base.unicode_len();
    let path_start = read_path_prefix(style, path);
    if path_start.is_some() {
        return path.to_owned();
    }
    let rooted = path_is_rooted(style, path, 0);
    let prefix = read_path_prefix(style, base);
    let (len, is_drive, is_verbatim): (usize, bool, bool) = match &prefix {
        Some(prefix) => (prefix.len, prefix.is_drive, prefix.is_verbatim),
        None => (0, false, false),
    };
    let start = base.substring_char(0, len);
    assert(start@ =~= base@.take(len as int));
    if is_verbatim && path.unicode_len() > 0 {
        let base_rooted = path_is_rooted(style, base, len);
        let mut kept: Vec<String> = Vec::new();
        assert(views(kept@) =~= Seq::empty());
        if !rooted {
            kept = names_in(style, base, &prefix);
        }
        let names = join_names(kept, &names_in(style, path, &path_start));
        let mut r = start.to_owned();
        if names.len() > 0 || base_rooted || rooted {
            r.append("\\");
        }
        r.append(joined(&names, "\\").as_str());
        assert(r@ =~= joined_verbatim(base@, path@));
        return r;
    }
    if rooted {
        concat2(start, path)
    } else if n == 0 || separates(style, base.get_char(n - 1)) || (is_drive && len == n) {
        concat2(base, path)
    } else {
        concat3(base, separator_of(style), path)
    }
}

/// The text is a name of a file or a directory on every operating system: it has no separator and
/// no colon, and is not made of dots.
pub open spec fn is_plain_name(name: Seq<char>) -> bool {
    name.len() > 2 && forall|i: int|
        0 <= i < name.len() ==> (#[trigger] name[i]) != '/' && name[i] != '\\' && name[i] != ':'
}

proof fn lemma_whole_piece(text: Seq<char>, c: char)
    requires
        forall|i: int| 0 <= i < text.len() ==> (#[trigger] text[i]) != c,
    ensures
        split(text, c) == seq![text],
{
    lemma_find(text, c);
}

proof fn lemma_plain_name(style: PathStyle, name: Seq<char>)
    requires
        is_plain_name(name),
    ensures
        path_prefix(style, name) is None,
        !is_rooted(style, name),
        path_names(style, name) == seq![name],
{
    reveal_strlit("\\\\");
    reveal_strlit(".");
    let plain = replaced(name, '/', '\\');
    assert(plain[0] == name[0]);
    if "\\\\"@.is_prefix_of(plain) {
        assert(plain.subrange(0, 2)[0] == plain[0]);
    }
    assert(name[1] != ':');
    assert(name.skip(0) =~= name);
    assert(replaced(name, '\\', '/') =~= name);
    lemma_whole_piece(name, '/');
    let pieces = seq![name];
    assert(pieces.drop_last() =~= Seq::empty());
    assert(kept_names(pieces, false, true) =~= seq![name]) by {
        assert(kept_names(pieces.drop_last(), false, true) =~= Seq::empty());
    }
}

proof fn lemma_joined_last(names: Seq<Seq<char>>, sep: Seq<char>)
    requires
        names.len() > 0,
    ensures
        names.last().is_suffix_of(join(names, sep)),
{
    let all = join(names, sep);
    let last = names.last();
    assert(all.subrange((all.len() - last.len()) as int, all.len() as int) =~= last);
}

/// A path below another ends with its name.
pub proof fn lemma_joined_name(style: PathStyle, base: Seq<char>, name: Seq<char>)
    requires
        is_plain_name(name),
    ensures
        name.is_suffix_of(joined_path(style, base, name)),
{
    lemma_plain_name(style, name);
    let all = joined_path(style, base, name);
    if has_verbatim_prefix(style, base) {
        lemma_plain_name(PathStyle::Windows, name);
        reveal_strlit(".");
        reveal_strlit("..");
        let kept = path_names(style, base);
        let below = seq![name];
        assert(below.drop_last() =~= Seq::empty());
        assert(names_below(kept, below) == kept.push(name)) by {
            assert(names_below(kept, below.drop_last()) == kept);
        }
        let names = kept.push(name);
        lemma_joined_last(names, "\\"@);
        let end = join(names, "\\"@);
        assert(end.subrange((end.len() - name.len()) as int, end.len() as int) =~= name);
        assert(all.subrange((all.len() - name.len()) as int, all.len() as int) =~= end.subrange(
            (end.len() - name.len()) as int,
            end.len() as int,
        ));
    } else {
        assert(all.subrange((all.len() - name.len()) as int, all.len() as int) =~= name);
    }
}

/// The short form of the path of a project: the name of its directory, where it has one.
pub open spec fn short_path(style: PathStyle, path: Seq<char>) -> Seq<char> {
    let names = components(style, path);
    if names.len() > 0 && component_rank(style, names.last()) == 4 {
        names.last()
    } else {
        path
    }
}

/// The short form of the path of a project.
pub fn shorten_project_path(style: PathStyle, path: &str) -> (r: String)
    ensures
        r@ == short_path(style, path@),
{
    let names = components_of(style, path);
    let n: usize = names.len();
    assert(views(names@).len() == n);
    if n > 0 {
        assert(views(names@).last() == names@[n - 1]@);
        if component_rank_of(style, names[n - 1].as_str()) == 4 {
            return names[n - 1].clone();
        }
    }
    path.to_owned()
}

} // verus!
