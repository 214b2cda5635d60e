//! What holds of documents: how they are read, and how requests are written as such.
use crate::decode::{
    default_flag, default_list, default_text, default_text_list, flag, optional_text, present,
    small_number, text_list, texts_of,
};
use crate::json::{
    JsonView, NumberView, canonical, canonical_entries, canonical_items, lookup, signed_number,
    sorted_entries, text_array,
};
use crate::local_command_autocomplete::{
    AutocompleteBlockContext, LocalCommandAutocompleteRequest, block_documents, response_members,
    text_member, texts_member,
};
use crate::local_multi_agent::service::names_service;
use crate::mcp::config::law_inserted_member;
use crate::members::{
    is_repeated, mark, numbered, stated, unmarked, unnumbered, unnumbered_entries, unnumbered_items,
};
use crate::text::{opt_view, views};
use vstd::prelude::*;

verus! {

/// A list of texts is read where each of its items is one, and then all of them, in order.
pub proof fn law_every_text_is_read(items: Seq<JsonView>)
    ensures
        texts_of(items) is Some <==> forall|i: int|
            0 <= i < items.len() ==> #[trigger] items[i] is Text,
        texts_of(items) matches Some(texts) ==> texts.len() == items.len() && forall|i: int|
            0 <= i < items.len() ==> #[trigger] items[i] == JsonView::Text(texts[i]),
    decreases items.len(),
{
    if items.len() > 0 {
        let front = items.drop_last();
        let n = items.len() - 1;
        law_every_text_is_read(front);
        assert(items[n] == items.last());
        assert(forall|i: int| 0 <= i < n ==> front[i] == #[trigger] items[i]);
        if forall|i: int| 0 <= i < items.len() ==> #[trigger] items[i] is Text {
            assert forall|i: int| 0 <= i < front.len() implies #[trigger] front[i] is Text by {
                assert(front[i] == items[i]);
            }
        }
        if let Some(texts) = texts_of(items) {
            let before = texts_of(front)->0;
            assert forall|i: int| 0 <= i < items.len() implies #[trigger] items[i]
                == JsonView::Text(texts[i]) by {
                if i < n {
                    assert(front[i] == items[i]);
                    assert(texts[i] == before[i]);
                }
            }
        }
    }
}

/// Texts that are written as a list are read back.
pub proof fn law_texts_read_back(texts: Seq<Seq<char>>)
    ensures
        text_array(texts) matches JsonView::Array(items) && texts_of(items) == Some(texts),
{
    let items = text_array(texts)->Array_0;
    law_every_text_is_read(items);
    assert(forall|i: int| 0 <= i < items.len() ==> #[trigger] items[i] == JsonView::Text(texts[i]));
    let read = texts_of(items)->0;
    assert forall|i: int| 0 <= i < texts.len() implies read[i] == texts[i] by {
        assert(items[i] == JsonView::Text(read[i]));
    }
    assert(read =~= texts);
}

/// What a member stands for where it is there, where it is not, and where it is of another kind.
pub proof fn law_members(value: JsonView, key: Seq<char>, text: Seq<char>, b: bool)
    ensures
        value.get(key) == Some(JsonView::Text(text)) ==> optional_text(value, key) == Some(
            Some(text),
        ) && default_text(value, key) == Some(text) && default_flag(value, key) is None && flag(
            value,
            key,
        ) is None && small_number(value, key) is None,
        value.get(key) == Some(JsonView::Bool(b)) ==> default_flag(value, key) == Some(b) && flag(
            value,
            key,
        ) == Some(b) && optional_text(value, key) is None && default_text(value, key) is None,
        value.get(key) == Some(JsonView::Null) ==> optional_text(value, key) == Some(
            None::<Seq<char>>,
        ) && default_text(value, key) is None && flag(value, key) is None && present(value, key)
            is None,
        value.get(key) is None ==> optional_text(value, key) == Some(None::<Seq<char>>)
            && default_text(value, key) == Some(Seq::<char>::empty()) && default_flag(value, key)
            == Some(false) && flag(value, key) is None && present(value, key) is None
            && default_text_list(value, key) == Some(Seq::<Seq<char>>::empty()) && default_list(
            value,
            key,
        ) == Some(Seq::<JsonView>::empty()) && text_list(value, key) is None,
        value.get(key) matches Some(member) ==> (!(member is Null) ==> present(value, key) == Some(
            member,
        )),
{
}

/// A number of 16 bits is read as it is, and no other number is.
pub proof fn law_small_number(value: JsonView, key: Seq<char>, number: NumberView, n: u64)
    requires
        value.get(key) == Some(JsonView::Number(number)),
        number.unsigned == Some(n),
    ensures
        n <= 65535 ==> (small_number(value, key) matches Some(m) && m == n),
        n > 65535 ==> small_number(value, key) is None,
{
}

/// The first member of a name counts, and there is one exactly where one has the name.
pub proof fn law_lookup(entries: Seq<(Seq<char>, JsonView)>, key: Seq<char>)
    ensures
        match lookup(entries, key) {
            Some(value) => exists|i: int|
                #![trigger entries[i]]
                0 <= i < entries.len() && entries[i].0 == key && entries[i].1 == value
                    && forall|j: int| 0 <= j < i ==> (#[trigger] entries[j]).0 != key,
            None => forall|i: int| 0 <= i < entries.len() ==> (#[trigger] entries[i]).0 != key,
        },
    decreases entries.len(),
{
    if entries.len() > 0 {
        let rest = entries.skip(1);
        law_lookup(rest, key);
        assert(entries[0] == entries[0]);
        if entries[0].0 != key {
            match lookup(rest, key) {
                Some(value) => {
                    let i = choose|i: int|
                        #![trigger rest[i]]
                        0 <= i < rest.len() && rest[i].0 == key && rest[i].1 == value && forall|
                            j: int,
                        |
                            0 <= j < i ==> (#[trigger] rest[j]).0 != key;
                    assert(entries[i + 1] == rest[i]);
                    assert forall|j: int| 0 <= j < i + 1 implies (#[trigger] entries[j]).0
                        != key by {
                        if j > 0 {
                            assert(rest[j - 1] == entries[j]);
                        }
                    }
                },
                None => {
                    assert forall|i: int| 0 <= i < entries.len() implies (#[trigger] entries[i]).0
                        != key by {
                        if i > 0 {
                            assert(rest[i - 1] == entries[i]);
                        }
                    }
                },
            }
        }
    }
}

/// A document is read by the names of its members, or as a list of their values in order; one that
/// states a name twice, or a list that is too short or too long, is not read.
pub proof fn law_stated_document(
    entries: Seq<(Seq<char>, JsonView)>,
    items: Seq<JsonView>,
    names: Seq<Seq<char>>,
    needed: nat,
    k: int,
    i: int,
    j: int,
)
    ensures
        0 <= k < names.len() && 0 <= i < j < entries.len() && entries[i].0 == names[k]
            && entries[j].0 == names[k] ==> stated(
                JsonView::Object(entries),
                names,
                needed,
            ) is None,
        stated(JsonView::Object(entries), names, needed) matches Some(value) ==> value
            == JsonView::Object(entries),
        (forall|a: int, b: int|
            0 <= a < b < entries.len() ==> (#[trigger] entries[a]).0 != (#[trigger] entries[b]).0)
            ==> stated(JsonView::Object(entries), names, needed) is Some,
        items.len() < needed || items.len() > names.len() ==> stated(
            JsonView::Array(items),
            names,
            needed,
        ) is None,
        needed <= items.len() <= names.len() && 0 <= i < items.len() ==> (stated(
            JsonView::Array(items),
            names,
            needed,
        ) matches Some(JsonView::Object(members)) && members.len() == items.len() && members[i] == (
        names[i], items[i])),
{
    if 0 <= k < names.len() && 0 <= i < j < entries.len() && entries[i].0 == names[k]
        && entries[j].0 == names[k] {
        assert(is_repeated(entries, names[k]));
    }
}

proof fn lemma_found(entries: Seq<(Seq<char>, JsonView)>, i: int, key: Seq<char>)
    requires
        0 <= i < entries.len(),
        entries[i].0 == key,
        forall|j: int| 0 <= j < i ==> (#[trigger] entries[j]).0 != key,
    ensures
        lookup(entries, key) == Some(entries[i].1),
{
    law_lookup(entries, key);
}

proof fn lemma_request_names()
    ensures
        "prefix"@ != "cwd"@,
        "prefix"@ != "shell"@,
        "prefix"@ != "platform"@,
        "prefix"@ != "recent_blocks"@,
        "prefix"@ != "history"@,
        "prefix"@ != "file_candidates"@,
        "cwd"@ != "shell"@,
        "cwd"@ != "platform"@,
        "cwd"@ != "recent_blocks"@,
        "cwd"@ != "history"@,
        "cwd"@ != "file_candidates"@,
        "shell"@ != "platform"@,
        "shell"@ != "recent_blocks"@,
        "shell"@ != "history"@,
        "shell"@ != "file_candidates"@,
        "platform"@ != "recent_blocks"@,
        "platform"@ != "history"@,
        "platform"@ != "file_candidates"@,
        "recent_blocks"@ != "history"@,
        "recent_blocks"@ != "file_candidates"@,
        "history"@ != "file_candidates"@,
{
    reveal_strlit("prefix");
    reveal_strlit("cwd");
    reveal_strlit("shell");
    reveal_strlit("platform");
    reveal_strlit("recent_blocks");
    reveal_strlit("history");
    reveal_strlit("file_candidates");
    assert("prefix"@.len() == 6);
    assert("cwd"@.len() == 3);
    assert("shell"@.len() == 5);
    assert("platform"@.len() == 8);
    assert("recent_blocks"@.len() == 13);
    assert("history"@.len() == 7);
    assert("file_candidates"@.len() == 15);
}

proof fn lemma_block_names()
    ensures
        "command"@ != "output"@,
        "command"@ != "cwd"@,
        "command"@ != "exit_code"@,
        "output"@ != "cwd"@,
        "output"@ != "exit_code"@,
        "cwd"@ != "exit_code"@,
{
    reveal_strlit("command");
    reveal_strlit("output");
    reveal_strlit("cwd");
    reveal_strlit("exit_code");
    assert("command"@.len() == 7);
    assert("output"@.len() == 6);
    assert("cwd"@.len() == 3);
    assert("exit_code"@.len() == 9);
}

/// A block is written with its command, and with its output and its directory where it has them.
pub proof fn law_written_block(block: AutocompleteBlockContext)
    ensures
        block.document().get_text("command"@) == Some(block.command@),
        block.document().get_text("output"@) == opt_view(block.output),
        block.document().get_text("cwd"@) == opt_view(block.cwd),
        block.document().get("exit_code"@) is Some <==> block.exit_code is Some,
        block.exit_code matches Some(code) ==> block.document().get("exit_code"@) == Some(
            JsonView::Number(signed_number(code as i64)),
        ),
{
    lemma_block_names();
    let entries = block.document()->Object_0;
    let a: int = if block.output is Some {
        1
    } else {
        0
    };
    let b: int = if block.cwd is Some {
        1
    } else {
        0
    };
    let c: int = if block.exit_code is Some {
        1
    } else {
        0
    };
    assert(entries.len() == 1 + a + b + c);
    assert(entries[0].0 == "command"@);
    if a == 1 {
        assert(entries[1].0 == "output"@);
    }
    if b == 1 {
        assert(entries[1 + a].0 == "cwd"@);
    }
    if c == 1 {
        assert(entries[1 + a + b].0 == "exit_code"@);
    }
    lemma_found(entries, 0, "command"@);
    law_lookup(entries, "output"@);
    law_lookup(entries, "cwd"@);
    law_lookup(entries, "exit_code"@);
}

/// A request is written with what was typed, with where it was typed as far as that is known, and
/// with all blocks, commands and files, in order.
pub proof fn law_written_request(request: LocalCommandAutocompleteRequest)
    ensures
        request.document().get_text("prefix"@) == Some(request.prefix@),
        request.document().get_text("cwd"@) == opt_view(request.cwd),
        request.document().get_text("shell"@) == opt_view(request.shell),
        request.document().get_text("platform"@) == opt_view(request.platform),
        request.recent_blocks@.len() > 0 ==> request.document().get("recent_blocks"@) == Some(
            JsonView::Array(
                request.recent_blocks@.map_values(|b: AutocompleteBlockContext| b.document()),
            ),
        ),
        request.history@.len() > 0 ==> text_list(request.document(), "history"@) == Some(
            views(request.history@),
        ),
        request.history@.len() == 0 ==> request.document().get("history"@) is None,
        request.file_candidates@.len() > 0 ==> text_list(request.document(), "file_candidates"@)
            == Some(views(request.file_candidates@)),
{
    lemma_request_names();
    let a = seq![("prefix"@, JsonView::Text(request.prefix@))];
    let b = text_member("cwd"@, opt_view(request.cwd));
    let c = text_member("shell"@, opt_view(request.shell));
    let d = text_member("platform"@, opt_view(request.platform));
    let e = if request.recent_blocks@.len() == 0 {
        Seq::empty()
    } else {
        seq![("recent_blocks"@, JsonView::Array(block_documents(request.recent_blocks@)))]
    };
    let f = texts_member("history"@, views(request.history@));
    let g = texts_member("file_candidates"@, views(request.file_candidates@));
    assert(request.document() == JsonView::Object(a + b + c + d + e + f + g));
    lemma_request_lookup(a, b, c, d, e, f, g, "prefix"@);
    lemma_request_lookup(a, b, c, d, e, f, g, "cwd"@);
    lemma_request_lookup(a, b, c, d, e, f, g, "shell"@);
    lemma_request_lookup(a, b, c, d, e, f, g, "platform"@);
    lemma_request_lookup(a, b, c, d, e, f, g, "recent_blocks"@);
    lemma_request_lookup(a, b, c, d, e, f, g, "history"@);
    lemma_request_lookup(a, b, c, d, e, f, g, "file_candidates"@);
    law_texts_read_back(views(request.history@));
    law_texts_read_back(views(request.file_candidates@));
}

proof fn lemma_request_lookup(
    a: Seq<(Seq<char>, JsonView)>,
    b: Seq<(Seq<char>, JsonView)>,
    c: Seq<(Seq<char>, JsonView)>,
    d: Seq<(Seq<char>, JsonView)>,
    e: Seq<(Seq<char>, JsonView)>,
    f: Seq<(Seq<char>, JsonView)>,
    g: Seq<(Seq<char>, JsonView)>,
    key: Seq<char>,
)
    requires
        a.len() <= 1,
        b.len() <= 1,
        c.len() <= 1,
        d.len() <= 1,
        e.len() <= 1,
        f.len() <= 1,
        g.len() <= 1,
    ensures
        lookup(a + b + c + d + e + f + g, key) == (if a.len() == 1 && a[0].0 == key {
            Some(a[0].1)
        } else if b.len() == 1 && b[0].0 == key {
            Some(b[0].1)
        } else if c.len() == 1 && c[0].0 == key {
            Some(c[0].1)
        } else if d.len() == 1 && d[0].0 == key {
            Some(d[0].1)
        } else if e.len() == 1 && e[0].0 == key {
            Some(e[0].1)
        } else if f.len() == 1 && f[0].0 == key {
            Some(f[0].1)
        } else if g.len() == 1 && g[0].0 == key {
            Some(g[0].1)
        } else {
            None
        }),
{
    law_lookup_in_parts(a + b + c + d + e + f, g, key);
    law_lookup_in_parts(a + b + c + d + e, f, key);
    law_lookup_in_parts(a + b + c + d, e, key);
    law_lookup_in_parts(a + b + c, d, key);
    law_lookup_in_parts(a + b, c, key);
    law_lookup_in_parts(a, b, key);
    reveal_with_fuel(lookup, 2);
}

/// A member is looked for in a first part of a document, and then in the rest of it.
pub proof fn law_lookup_in_parts(
    a: Seq<(Seq<char>, JsonView)>,
    b: Seq<(Seq<char>, JsonView)>,
    key: Seq<char>,
)
    ensures
        lookup(a + b, key) == (if lookup(a, key) is Some {
            lookup(a, key)
        } else {
            lookup(b, key)
        }),
    decreases a.len(),
{
    if a.len() == 0 {
        assert(a + b =~= b);
    } else {
        assert((a + b)[0] == a[0]);
        assert((a + b).skip(1) =~= a.skip(1) + b);
        law_lookup_in_parts(a.skip(1), b, key);
    }
}

/// Each member of an answer is read into the part of its name.
pub proof fn law_read_answer(value: JsonView)
    ensures
        response_members(value) matches Some(response) ==> {
            &&& text_list(value, "commands"@) == Some(response.commands)
            &&& value.get_text("most_likely_action"@) == Some(response.most_likely_action)
            &&& value.get_text("raw_output"@) == Some(response.raw_output)
            &&& default_text(value, "source"@) == Some(response.source)
            &&& default_text(value, "parse_status"@) == Some(response.parse_status)
        },
        response_members(value) is Some <==> text_list(value, "commands"@) is Some
            && value.get_text("most_likely_action"@) is Some && value.get_text("raw_output"@)
            is Some && default_text(value, "source"@) is Some && default_text(
            value,
            "parse_status"@,
        ) is Some,
{
}

/// A service names itself exactly where its answer says that it is well and gives a version.
pub proof fn law_named_service(
    entries: Seq<(Seq<char>, JsonView)>,
    ok: bool,
    version: Seq<char>,
)
    requires
        stated(JsonView::Object(entries), seq!["ok"@, "version"@], 2) is Some,
        lookup(entries, "ok"@) == Some(JsonView::Bool(ok)),
    ensures
        lookup(entries, "version"@) == Some(JsonView::Text(version)) ==> names_service(
            JsonView::Object(entries),
        ) == Some(ok && version.len() > 0),
        lookup(entries, "version"@) is None ==> names_service(JsonView::Object(entries)) == Some(
            false,
        ),
{
}

/// The marks of texts are taken off everywhere in a document, and nothing else changes.
pub proof fn law_marks_are_taken_off(value: JsonView, items: Seq<JsonView>)
    ensures
        value is Null || value is Bool || value is Number ==> unnumbered(value) == value,
        value matches JsonView::Text(text) ==> (text.len() >= 20 ==> unnumbered(value)
            == JsonView::Text(text.skip(20))),
        unnumbered_items(items).len() == items.len(),
        forall|i: int|
            0 <= i < items.len() ==> (
                #[trigger] unnumbered_items(items)[i]
            ) == unnumbered(items[i]),
    decreases items.len(),
{
    if items.len() > 0 {
        let front = items.take(items.len() - 1);
        law_marks_are_taken_off(value, front);
        assert forall|i: int| 0 <= i < items.len() implies (#[trigger] unnumbered_items(items)[i])
            == unnumbered(items[i]) by {
            if i < items.len() - 1 {
                assert(unnumbered_items(front)[i] == unnumbered(front[i]));
            }
        }
    }
}

/// A mark has twenty characters, so that it can be taken off again; a text outside quotes gets
/// none.
pub proof fn law_marks(n: nat, text: Seq<char>, value: Seq<char>)
    ensures
        mark(n).len() >= 20,
        mark(n).len() == 20 ==> unmarked(mark(n) + value) == value,
        (forall|i: int| 0 <= i < text.len() ==> (#[trigger] text[i]) != '"') ==> numbered(text).text
            == text && numbered(text).count == 0,
    decreases text.len(),
{
    if mark(n).len() == 20 {
        assert((mark(n) + value).skip(20) =~= value);
    }
    if forall|i: int| 0 <= i < text.len() ==> (#[trigger] text[i]) != '"' {
        lemma_unmarked_text(text);
    }
}

proof fn lemma_unmarked_text(text: Seq<char>)
    requires
        forall|i: int| 0 <= i < text.len() ==> (#[trigger] text[i]) != '"',
    ensures
        numbered(text).text == text,
        numbered(text).count == 0,
        !numbered(text).inside,
    decreases text.len(),
{
    if text.len() > 0 {
        let front = text.drop_last();
        assert forall|i: int| 0 <= i < front.len() implies (#[trigger] front[i]) != '"' by {
            assert(front[i] == text[i]);
        }
        lemma_unmarked_text(front);
        assert(text[text.len() - 1] == text.last());
        assert(front.push(text.last()) =~= text);
    } else {
        assert(numbered(text).text =~= text);
    }
}

/// In its usual form a list has the same items in the same order, each in its usual form.
pub proof fn law_usual_form_of_a_list(items: Seq<JsonView>)
    ensures
        canonical_items(items).len() == items.len(),
        forall|i: int|
            0 <= i < items.len() ==> (#[trigger] canonical_items(items)[i]) == canonical(items[i]),
    decreases items.len(),
{
    if items.len() > 0 {
        let front = items.take(items.len() - 1);
        law_usual_form_of_a_list(front);
        assert forall|i: int| 0 <= i < items.len() implies (#[trigger] canonical_items(items)[i])
            == canonical(items[i]) by {
            if i < items.len() - 1 {
                assert(canonical_items(front)[i] == canonical(front[i]));
            }
        }
    }
}

/// In its usual form an object has under each name what the last member of that name says, in its
/// usual form.
pub proof fn law_usual_form_of_an_object(
    entries: Seq<(Seq<char>, JsonView)>,
    last: (Seq<char>, JsonView),
    other: Seq<char>,
)
    ensures
        canonical(JsonView::Object(entries)).get(other)
            == lookup(sorted_entries(canonical_entries(entries)), other),
        lookup(sorted_entries(entries.push(last)), last.0) == Some(last.1),
        other != last.0 ==> lookup(sorted_entries(entries.push(last)), other) == lookup(
            sorted_entries(entries),
            other,
        ),
        canonical_entries(entries.push(last)) == canonical_entries(entries).push(
            (last.0, canonical(last.1)),
        ),
        unnumbered_entries(entries.push(last)) == unnumbered_entries(entries).push(
            (unmarked(last.0), unnumbered(last.1)),
        ),
        sorted_entries(Seq::empty()).len() == 0,
        canonical_entries(Seq::empty()).len() == 0,
        unnumbered_entries(Seq::empty()).len() == 0,
{
    let all = entries.push(last);
    assert(all.drop_last() =~= entries);
    assert(all.take(all.len() - 1) =~= entries);
    law_inserted_member(sorted_entries(entries), last.0, last.1, last.0);
    law_inserted_member(sorted_entries(entries), last.0, last.1, other);
}

} // verus!
