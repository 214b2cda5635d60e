//! What holds of paths and of addresses.
use crate::links::filled_form;
use crate::path::{
    PathStyle, component_rank, components, is_inside, is_rooted, joined_path, kept_names,
    names_below, short_path,
};
use crate::server_url::{UrlView, default_port, held_port, ipv4_octet, is_loopback_ipv4, url_query};
use crate::text::{decimal, is_digit, join};
use crate::text_laws::{law_join, law_split_of_join, lemma_decimal_value};
use vstd::prelude::*;

verus! {

/// The names of a path are all its pieces that are not empty and not the directory itself, which is
/// kept only where dots are kept or it comes first in a bare path.
pub proof fn law_names_of_a_path(pieces: Seq<Seq<char>>, dots: bool)
    ensures
        kept_names(pieces, dots, false) == pieces.filter(
            |p: Seq<char>| p.len() > 0 && (dots || p != "."@),
        ),
    decreases pieces.len(),
{
    reveal(Seq::filter);
    let keep = |p: Seq<char>| p.len() > 0 && (dots || p != "."@);
    if pieces.len() > 0 {
        law_names_of_a_path(pieces.drop_last(), dots);
        assert(pieces.filter(keep) =~= kept_names(pieces, dots, false));
    } else {
        assert(pieces.filter(keep) =~= Seq::empty());
    }
}

/// A first piece is kept as a bare path keeps it, and those behind it as in any path.
pub proof fn law_first_name_of_a_path(first: Seq<char>, rest: Seq<Seq<char>>, dots: bool)
    ensures
        kept_names(seq![first] + rest, dots, true) == (if first.len() == 0 {
            Seq::empty()
        } else {
            seq![first]
        }) + kept_names(rest, dots, false),
    decreases rest.len(),
{
    reveal_with_fuel(kept_names, 2);
    if rest.len() == 0 {
        assert(seq![first] + rest =~= seq![first]);
        assert(seq![first].drop_last() =~= Seq::empty());
        assert(kept_names(seq![first] + rest, dots, true) =~= (if first.len() == 0 {
            Seq::empty()
        } else {
            seq![first]
        }) + kept_names(rest, dots, false));
    } else {
        law_first_name_of_a_path(first, rest.drop_last(), dots);
        assert((seq![first] + rest).drop_last() =~= seq![first] + rest.drop_last());
        assert((seq![first] + rest).last() == rest.last());
        assert(kept_names(seq![first] + rest, dots, true) =~= (if first.len() == 0 {
            Seq::empty()
        } else {
            seq![first]
        }) + kept_names(rest, dots, false));
    }
}

/// With slashes, the path of names from the root on has the root and all these names as its
/// components, and the path without the root the names alone.
pub proof fn law_components_of_names(names: Seq<Seq<char>>)
    requires
        names.len() > 0,
        forall|i: int|
            0 <= i < names.len() ==> (#[trigger] names[i]).len() > 0 && !names[i].contains('/')
                && names[i] != "."@,
    ensures
        components(PathStyle::Posix, "/"@ + join(names, seq!['/'])) == seq!["/"@] + names,
        components(PathStyle::Posix, join(names, seq!['/'])) == names,
        components(PathStyle::Posix, join(names, seq!['/']) + "/"@) == names,
{
    reveal_strlit("/");
    let text = join(names, seq!['/']);
    law_split_of_join(names, '/');
    lemma_kept_all(names);
    let rooted_path = "/"@ + text;
    assert(rooted_path[0] == '/');
    assert(rooted_path.skip(1) =~= text);
    assert(components(PathStyle::Posix, rooted_path) =~= seq!["/"@] + names);
    lemma_join_first(names);
    assert(text[0] == names[0][0]);
    if text[0] == '/' {
        assert(names[0].contains('/'));
    }
    assert(!is_rooted(PathStyle::Posix, text));
    assert(text.skip(0) =~= text);
    assert(components(PathStyle::Posix, text) =~= names);
    let slashed = text + "/"@;
    let more = names.push(Seq::empty());
    law_join(names, seq![Seq::<char>::empty()], seq!['/']);
    assert(names + seq![Seq::<char>::empty()] =~= more);
    assert(join(seq![Seq::<char>::empty()], seq!['/']) =~= Seq::empty());
    assert(join(more, seq!['/']) =~= slashed);
    assert forall|i: int| 0 <= i < more.len() implies !(#[trigger] more[i]).contains('/') by {
        if i < names.len() {
            assert(more[i] == names[i]);
        }
    }
    law_split_of_join(more, '/');
    assert(more.drop_last() =~= names);
    assert(slashed[0] == text[0]);
    assert(slashed.skip(0) =~= slashed);
    assert(components(PathStyle::Posix, slashed) =~= names);
}

proof fn lemma_join_first(names: Seq<Seq<char>>)
    requires
        names.len() > 0,
        names[0].len() > 0,
    ensures
        join(names, seq!['/']).len() > 0,
        join(names, seq!['/'])[0] == names[0][0],
{
    if names.len() > 1 {
        law_join(seq![names[0]], names.skip(1), seq!['/']);
        assert(seq![names[0]] + names.skip(1) =~= names);
        reveal_with_fuel(join, 2);
        assert(join(seq![names[0]], seq!['/']) =~= names[0]);
    } else {
        assert(names =~= seq![names[0]]);
        reveal_with_fuel(join, 2);
        assert(join(names, seq!['/']) =~= names[0]);
    }
}

proof fn lemma_kept_all(names: Seq<Seq<char>>)
    requires
        forall|i: int| 0 <= i < names.len() ==> (#[trigger] names[i]).len() > 0 && names[i] != "."@,
    ensures
        kept_names(names, false, false) == names,
        kept_names(names, false, true) == names,
    decreases names.len(),
{
    if names.len() > 0 {
        let front = names.drop_last();
        assert forall|i: int| 0 <= i < front.len() implies (#[trigger] front[i]).len() > 0
            && front[i] != "."@ by {
            assert(front[i] == names[i]);
        }
        lemma_kept_all(front);
        assert(names[names.len() - 1] == names.last());
        assert(front.push(names.last()) =~= names);
    }
}

/// With slashes, a path that is joined stands behind its base, one that starts at the root stands
/// alone, and a base that ends in a slash gets no second one.
pub proof fn law_joined(base: Seq<char>, path: Seq<char>)
    ensures
        path.len() > 0 && path[0] == '/' ==> joined_path(PathStyle::Posix, base, path) == path,
        (path.len() == 0 || path[0] != '/') && base.len() > 0 && base.last() != '/' ==> joined_path(
            PathStyle::Posix,
            base,
            path,
        ) == base + "/"@ + path,
        (path.len() == 0 || path[0] != '/') && (base.len() == 0 || base.last() == '/')
            ==> joined_path(PathStyle::Posix, base, path) == base + path,
{
    assert(base.take(0) + path =~= path);
}

/// Names that are walked down are walked one after the other; the directory itself leads nowhere,
/// and the directory above takes back the last name.
pub proof fn law_walk(names: Seq<Seq<char>>, a: Seq<Seq<char>>, b: Seq<Seq<char>>, name: Seq<char>)
    ensures
        names_below(names, a + b) == names_below(names_below(names, a), b),
        names_below(names, seq!["."@]) == names,
        name != "."@ && name != ".."@ ==> names_below(names, seq![name]) == names.push(name)
            && names_below(names, seq![name, ".."@]) == names,
    decreases b.len(),
{
    reveal_with_fuel(names_below, 3);
    reveal_strlit(".");
    reveal_strlit("..");
    assert("."@.len() == 1 && ".."@.len() == 2);
    assert(seq!["."@].drop_last() =~= Seq::empty());
    assert(seq![name].drop_last() =~= Seq::empty());
    assert(seq![name, ".."@].drop_last() =~= seq![name]);
    assert(names.push(name).drop_last() =~= names);
    if b.len() == 0 {
        assert(a + b =~= a);
    } else {
        law_walk(names, a, b.drop_last(), name);
        assert((a + b).drop_last() =~= a + b.drop_last());
        assert((a + b).last() == b.last());
    }
}

/// A path lies in itself, and what lies in a directory lies in all that the directory lies in.
pub proof fn law_inside(style: PathStyle, a: Seq<char>, b: Seq<char>, c: Seq<char>)
    ensures
        is_inside(style, a, a),
        is_inside(style, a, b) && is_inside(style, b, c) ==> is_inside(style, a, c),
        is_inside(style, a, b) && is_inside(style, b, a) ==> components(style, a) == components(
            style,
            b,
        ),
{
    let x = components(style, a);
    let y = components(style, b);
    let z = components(style, c);
    assert(x =~= x.subrange(0, x.len() as int));
    if is_inside(style, a, b) && is_inside(style, b, c) {
        assert(z =~= x.subrange(0, z.len() as int)) by {
            assert forall|i: int| 0 <= i < z.len() implies z[i] == x.subrange(
                0,
                z.len() as int,
            )[i] by {
                assert(z[i] == y.subrange(0, z.len() as int)[i]);
                assert(y[i] == x.subrange(0, y.len() as int)[i]);
            }
        }
    }
    if is_inside(style, a, b) && is_inside(style, b, a) {
        assert(x =~= y);
    }
}

/// A path is shown by its last name where it has one, else as it is.
pub proof fn law_short_path(style: PathStyle, path: Seq<char>)
    ensures
        components(style, path).len() == 0 ==> short_path(style, path) == path,
        components(style, path).len() > 0 && component_rank(style, components(style, path).last())
            == 4 ==> short_path(style, path) == components(style, path).last(),
        components(style, path).len() > 0 && component_rank(style, components(style, path).last())
            < 4 ==> short_path(style, path) == path,
{
}

/// Where no port is held, the scheme's own is meant: holding a port loses nothing.
pub proof fn law_held_port(scheme: Seq<char>, port: u16)
    ensures
        (match held_port(scheme, Some(port)) {
            Some(held) => held,
            None => default_port(scheme),
        }) == port,
        held_port(scheme, None) is None,
        scheme == "http"@ || scheme == "ws"@ ==> default_port(scheme) == 80,
        held_port(scheme, held_port(scheme, Some(port))) == held_port(scheme, Some(port)),
{
}

proof fn lemma_octet(n: u64)
    requires
        n <= 255,
    ensures
        ipv4_octet(decimal(n as nat)) == Some(n as nat),
        !decimal(n as nat).contains('.'),
{
    lemma_decimal_value(n as nat);
    reveal_with_fuel(decimal, 4);
    let d = decimal(n as nat);
    if d.contains('.') {
        let i = choose|i: int| 0 <= i < d.len() && d[i] == '.';
        assert(is_digit(d[i]));
    }
}

/// The numbers from 127.0.0.0 to 127.255.255.255, and no others, are addresses of this machine.
pub proof fn law_loopback(a: u64, b: u64, c: u64, d: u64)
    requires
        a <= 255,
        b <= 255,
        c <= 255,
        d <= 255,
    ensures
        is_loopback_ipv4(
            join(
                seq![
                    decimal(a as nat),
                    decimal(b as nat),
                    decimal(c as nat),
                    decimal(d as nat),
                ],
                seq!['.'],
            ),
        ) <==> a == 127,
{
    let parts = seq![decimal(a as nat), decimal(b as nat), decimal(c as nat), decimal(d as nat)];
    lemma_octet(a);
    lemma_octet(b);
    lemma_octet(c);
    lemma_octet(d);
    assert forall|i: int| 0 <= i < parts.len() implies !(#[trigger] parts[i]).contains('.') by {
        assert(i == 0 || i == 1 || i == 2 || i == 3);
    }
    law_split_of_join(parts, '.');
}

/// The form for an issue tells the version of the program where it is known, and that of the
/// system; it stays on its page.
pub proof fn law_issue_form(
    form: UrlView,
    is_slipstream: bool,
    app_version: Seq<char>,
    os_version: Seq<char>,
)
    ensures
        filled_form(form, is_slipstream, None, os_version) == (UrlView {
            query: Some(url_query(form.query, "os-version"@, os_version)),
            ..form
        }),
        filled_form(form, true, Some(app_version), os_version).query == Some(
            url_query(
                Some(url_query(form.query, "slipstream-version"@, app_version)),
                "os-version"@,
                os_version,
            ),
        ),
        filled_form(form, false, Some(app_version), os_version).query == Some(
            url_query(
                Some(url_query(form.query, "warp-version"@, app_version)),
                "os-version"@,
                os_version,
            ),
        ),
        filled_form(form, is_slipstream, Some(app_version), os_version).host == form.host,
        filled_form(form, is_slipstream, Some(app_version), os_version).path == form.path,
{
}

} // verus!
