//! What holds of the agent's text, whatever the items are.
use crate::codex_app_server::laws::is_fragment;
use crate::codex_app_server::transcript::{
    TranscriptView, agent_text, command_of_item, command_part, completed_command, is_assistant_role,
    is_completed_role, is_delta_role, is_output_role, is_user_role, output_text_of, squeezed,
    targeted_output_part, transcript,
};
use crate::codex_app_server::types::ItemView;
use crate::json::{JsonView, canonical, compact_text};
use crate::text::{is_blank, is_space, join};
use vstd::prelude::*;

verus! {

/// What was gathered so far, as paragraphs: the message, then the output.
pub open spec fn gathered(t: TranscriptView) -> Seq<Seq<char>> {
    (if is_blank(t.delta) {
        Seq::empty()
    } else {
        seq![t.delta]
    }) + (if is_blank(t.output) {
        Seq::empty()
    } else {
        seq!["commandExecution/output: "@ + compact_text(JsonView::Text(t.output))]
    })
}

/// The item says something, and it is not the user who says it.
pub open spec fn speaks(item: ItemView) -> bool {
    !is_user_role(item.role) && !is_blank(item.text)
}

/// The item starts a command and is nothing else.
pub open spec fn starts_command(item: ItemView, command: Seq<char>) -> bool {
    &&& speaks(item)
    &&& !is_delta_role(item.role)
    &&& !is_completed_role(item.role)
    &&& command_of_item(item) == Some(command)
}

/// A command comes behind all that was said and put out before it, which is written out in front
/// of it, and nothing of that is lost.
pub proof fn law_command_follows_what_was_gathered(
    t: TranscriptView,
    item: ItemView,
    command: Seq<char>,
)
    requires
        starts_command(item, command),
    ensures
        t.step(item).parts == t.parts + gathered(t) + seq![command_part(command)],
        t.step(item).delta.len() == 0,
        t.step(item).output.len() == 0,
        t.step(item).last == Some(command),
{
    assert(t.step(item).parts =~= t.parts + gathered(t) + seq![command_part(command)]);
}

/// A command of one line stands in its paragraph as it is.
pub proof fn law_command_is_named(command: Seq<char>)
    ensures
        "commandExecution: "@.is_prefix_of(command_part(command)),
        !command.contains('\n') && !command.contains('\r') ==> command_part(command).skip(
            "commandExecution: "@.len() as int,
        ) == command,
        command.contains('\n') || command.contains('\r') ==> command_part(command).skip(
            "commandExecution: "@.len() as int,
        ) == compact_text(JsonView::Text(command)),
{
    let lead = "commandExecution: "@;
    let rest = if command.contains('\n') || command.contains('\r') {
        compact_text(JsonView::Text(command))
    } else {
        command
    };
    assert(command_part(command).take(lead.len() as int) =~= lead);
    assert(command_part(command).skip(lead.len() as int) =~= rest);
}

/// A fragment of a message is added to what was gathered, and nothing else changes.
pub proof fn law_fragment_is_gathered(t: TranscriptView, item: ItemView)
    requires
        speaks(item),
        is_delta_role(item.role),
    ensures
        t.step(item).delta == t.delta + item.text,
        t.step(item).parts == t.parts,
        t.step(item).output == t.output,
        t.step(item).last == t.last,
{
}

/// Output of a command is added to the output gathered before, behind the message before it, which
/// becomes a paragraph.
pub proof fn law_output_is_gathered(t: TranscriptView, item: ItemView)
    requires
        speaks(item),
        is_output_role(item.role),
        !is_delta_role(item.role),
        !is_completed_role(item.role),
        output_text_of(item.text).len() > 0,
    ensures
        t.step(item).output == t.output + output_text_of(item.text),
        t.step(item).delta.len() == 0,
        t.step(item).parts == t.parts + (if is_blank(t.delta) {
            Seq::empty()
        } else {
            seq![t.delta]
        }),
        t.step(item).last == t.last,
{
    if is_blank(t.delta) {
        assert(t.step(item).parts =~= t.parts + Seq::empty());
    } else {
        assert(t.step(item).parts =~= t.parts + seq![t.delta]);
    }
}

/// A message that is no fragment, no command and no output becomes a paragraph of its own, behind
/// all that was gathered: the agent's as it is, that of others behind their role.
pub proof fn law_message_is_shown(t: TranscriptView, item: ItemView)
    requires
        speaks(item),
        !is_delta_role(item.role),
        !is_completed_role(item.role),
        !is_output_role(item.role),
        command_of_item(item) is None,
    ensures
        t.step(item).parts == t.parts + gathered(t) + seq![
            if is_assistant_role(item.role) {
                item.text
            } else {
                item.role + ": "@ + item.text
            },
        ],
        t.step(item).delta.len() == 0,
        t.step(item).output.len() == 0,
        t.step(item).last == t.last,
{
    let own = if is_assistant_role(item.role) {
        item.text
    } else {
        item.role + ": "@ + item.text
    };
    assert(t.step(item).parts =~= t.parts + gathered(t) + seq![own]);
}

/// A completed message is shown where it says anything else than the fragments gathered of it and
/// than the last command; where it repeats them nothing changes.
pub proof fn law_completed_message(t: TranscriptView, item: ItemView)
    requires
        speaks(item),
        is_completed_role(item.role),
        !is_delta_role(item.role),
        !is_output_role(item.role),
        completed_command(item) is None,
        command_of_item(item) is None,
    ensures
        t.last is Some && squeezed(t.last->0) == squeezed(item.text) ==> t.step(item) == t,
        !is_blank(t.delta) && squeezed(t.delta) == squeezed(item.text) ==> t.step(item) == t,
        !(t.last is Some && squeezed(t.last->0) == squeezed(item.text)) && (is_blank(t.delta)
            || squeezed(t.delta) != squeezed(item.text)) ==> t.step(item).parts == t.parts
            + gathered(t) + seq![item.text] && t.step(item).delta.len() == 0 && t.step(
            item,
        ).output.len() == 0,
{
    assert(t.flush().parts =~= t.parts + gathered(t));
    assert(t.flush().parts.push(item.text) =~= t.parts + gathered(t) + seq![item.text]);
}

/// The output that a completed command reports stands in a paragraph that names the command, behind
/// all that was gathered.
pub proof fn law_reported_output(
    t: TranscriptView,
    item: ItemView,
    command: Seq<char>,
    output: Seq<char>,
)
    requires
        speaks(item),
        !is_delta_role(item.role),
        completed_command(item) == Some((command, Some(output))),
    ensures
        t.step(item).parts == t.parts + gathered(t) + seq![
            "commandExecution/output: "@ + compact_text(
                canonical(
                    JsonView::Object(
                        seq![
                            ("command"@, JsonView::Text(command)),
                            ("output"@, JsonView::Text(output)),
                        ],
                    ),
                ),
            ),
        ],
        t.step(item).delta.len() == 0,
        t.step(item).output.len() == 0,
{
    assert(t.flush().parts =~= t.parts + gathered(t));
    assert(t.step(item).parts =~= t.parts + gathered(t) + seq![
        targeted_output_part(command, output),
    ]);
}

/// Whatever comes next, no paragraph is taken back or changed; the message gathered so far stays
/// the beginning of what is gathered, or becomes the next paragraph; and the output gathered so far
/// stays the beginning of it, or becomes the paragraph behind that.
pub proof fn law_nothing_gathered_is_lost(t: TranscriptView, item: ItemView)
    ensures
        t.parts.is_prefix_of(t.step(item).parts),
        t.delta.is_prefix_of(t.step(item).delta) || ((t.parts + gathered(t)).is_prefix_of(
            t.step(item).parts,
        ) && t.step(item).delta.len() == 0) || (is_output_role(item.role) && t.step(item).parts
            == t.parts + gathered(TranscriptView { output: Seq::empty(), ..t }) && t.step(
            item,
        ).delta.len() == 0),
        t.output.is_prefix_of(t.step(item).output) || ((t.parts + gathered(t)).is_prefix_of(
            t.step(item).parts,
        ) && t.step(item).output.len() == 0),
{
    let next = t.step(item);
    assert(t.flush().parts =~= t.parts + gathered(t));
    assert(t.flush_delta().parts =~= t.parts + gathered(
        TranscriptView { output: Seq::empty(), ..t },
    ));
    lemma_prefixes(t.parts, gathered(t), next.parts);
    assert(t.parts.is_prefix_of(t.flush_delta().parts)) by {
        assert(t.flush_delta().parts.take(t.parts.len() as int) =~= t.parts);
    }
    assert(t.delta.is_prefix_of(t.delta + item.text)) by {
        assert((t.delta + item.text).take(t.delta.len() as int) =~= t.delta);
    }
    let more = output_text_of(item.text);
    assert(t.output.is_prefix_of(t.output + more)) by {
        assert((t.output + more).take(t.output.len() as int) =~= t.output);
    }
    assert(t.parts.is_prefix_of(t.parts));
    assert(t.delta.is_prefix_of(t.delta));
    assert(t.output.is_prefix_of(t.output));
    if next.parts.len() > t.parts.len() + gathered(t).len() {
        assert(next.parts =~= (t.parts + gathered(t)).push(next.parts.last()));
        assert(next.parts.take((t.parts + gathered(t)).len() as int) =~= t.parts + gathered(t));
    } else if next.parts.len() == t.parts.len() + gathered(t).len() && next.parts == t.parts
        + gathered(t) {
        assert(next.parts.take((t.parts + gathered(t)).len() as int) =~= t.parts + gathered(t));
    }
}

proof fn lemma_prefixes(a: Seq<Seq<char>>, b: Seq<Seq<char>>, c: Seq<Seq<char>>)
    ensures
        (a + b).is_prefix_of(c) ==> a.is_prefix_of(c),
{
    if (a + b).is_prefix_of(c) {
        assert((a + b) =~= c.take((a + b).len() as int));
        assert forall|i: int| 0 <= i < a.len() implies a[i] == c[i] by {
            assert((a + b)[i] == c.take((a + b).len() as int)[i]);
        }
        assert(a =~= c.take(a.len() as int));
    }
}

/// The paragraphs of the agent's text.
pub open spec fn paragraphs(items: Seq<ItemView>) -> Seq<Seq<char>> {
    transcript(items).parts + gathered(transcript(items))
}

/// The agent's text is its paragraphs with a blank line between each two: those written before, and
/// what was gathered at the end.
pub proof fn law_text_is_all_paragraphs(items: Seq<ItemView>)
    ensures
        agent_text(items) == join(paragraphs(items), "\n\n"@),
{
    assert(transcript(items).flush().parts =~= paragraphs(items));
}

/// What the first items have made stays, whatever items follow.
pub proof fn law_paragraphs_stay(items: Seq<ItemView>, n: int)
    requires
        0 <= n <= items.len(),
    ensures
        transcript(items.take(n)).parts.is_prefix_of(transcript(items).parts),
        transcript(items.take(n)).parts.is_prefix_of(paragraphs(items)),
    decreases items.len() - n,
{
    let a = transcript(items.take(n)).parts;
    let c = transcript(items).parts;
    if n < items.len() {
        law_paragraphs_stay(items, n + 1);
        assert(items.take(n + 1).drop_last() =~= items.take(n));
        law_nothing_gathered_is_lost(transcript(items.take(n)), items[n]);
        let b = transcript(items.take(n + 1)).parts;
        assert forall|i: int| 0 <= i < a.len() implies a[i] == c[i] by {
            assert(a[i] == b.take(a.len() as int)[i]);
            assert(b[i] == c.take(b.len() as int)[i]);
        }
        assert(a =~= c.take(a.len() as int));
    } else {
        assert(items.take(n) =~= items);
        assert(a =~= c.take(a.len() as int));
    }
    assert(a =~= paragraphs(items).take(a.len() as int));
}

/// Every command that is started is named in the agent's text.
pub proof fn law_every_command_is_named(items: Seq<ItemView>, i: int, command: Seq<char>)
    requires
        0 <= i < items.len(),
        starts_command(items[i], command),
    ensures
        paragraphs(items).contains(command_part(command)),
{
    let before = transcript(items.take(i));
    assert(items.take(i + 1).drop_last() =~= items.take(i));
    law_command_follows_what_was_gathered(before, items[i], command);
    law_paragraphs_stay(items, i + 1);
    let made = transcript(items.take(i + 1)).parts;
    assert(made.last() == command_part(command));
    assert(made[made.len() - 1] == paragraphs(items).take(made.len() as int)[made.len() - 1]);
    assert(paragraphs(items)[made.len() - 1] == command_part(command));
}

/// Every message of the agent that is no fragment is shown whole.
pub proof fn law_every_message_is_shown(items: Seq<ItemView>, i: int)
    requires
        0 <= i < items.len(),
        speaks(items[i]),
        is_assistant_role(items[i].role),
        !is_delta_role(items[i].role),
        !is_completed_role(items[i].role),
        !is_output_role(items[i].role),
        command_of_item(items[i]) is None,
    ensures
        paragraphs(items).contains(items[i].text),
{
    let before = transcript(items.take(i));
    assert(items.take(i + 1).drop_last() =~= items.take(i));
    law_message_is_shown(before, items[i]);
    law_paragraphs_stay(items, i + 1);
    let made = transcript(items.take(i + 1)).parts;
    assert(made.last() == items[i].text);
    assert(made[made.len() - 1] == paragraphs(items).take(made.len() as int)[made.len() - 1]);
    assert(paragraphs(items)[made.len() - 1] == items[i].text);
}

/// The fragments of the agent's messages, in order.
pub open spec fn fragments(items: Seq<ItemView>) -> Seq<Seq<char>> {
    items.filter(|i: ItemView| is_fragment(i)).map_values(|i: ItemView| i.text)
}

/// The texts, one after the other.
pub open spec fn concatenated(texts: Seq<Seq<char>>) -> Seq<char>
    decreases texts.len(),
{
    if texts.len() == 0 {
        Seq::empty()
    } else {
        concatenated(texts.drop_last()) + texts.last()
    }
}

/// All texts of the groups, in order.
pub open spec fn ungrouped(groups: Seq<Seq<Seq<char>>>) -> Seq<Seq<char>>
    decreases groups.len(),
{
    if groups.len() == 0 {
        Seq::empty()
    } else {
        ungrouped(groups.drop_last()) + groups.last()
    }
}

/// Each group of texts makes one of the paragraphs, a later group a later paragraph.
pub open spec fn make_paragraphs(
    groups: Seq<Seq<Seq<char>>>,
    places: Seq<int>,
    parts: Seq<Seq<char>>,
) -> bool {
    &&& groups.len() == places.len()
    &&& forall|k: int| 0 <= k < places.len() ==> 0 <= #[trigger] places[k] < parts.len()
    &&& forall|j: int, k: int| 0 <= j < k < places.len() ==> places[j] < places[k]
    &&& forall|k: int|
        0 <= k < places.len() ==> parts[#[trigger] places[k]] == concatenated(groups[k])
}

proof fn lemma_streamed(items: Seq<ItemView>) -> (
    r: (Seq<Seq<Seq<char>>>, Seq<int>, Seq<Seq<char>>)
)
    ensures
        make_paragraphs(r.0, r.1, transcript(items).parts),
        ungrouped(r.0) + r.2 == fragments(items),
        concatenated(r.2) == transcript(items).delta,
        transcript(items).delta.len() == 0 || !is_blank(transcript(items).delta),
    decreases items.len(),
{
    reveal(Seq::filter);
    if items.len() == 0 {
        let none: Seq<Seq<char>> = Seq::empty();
        assert(fragments(items) =~= none);
        assert(ungrouped(Seq::empty()) + none =~= fragments(items));
        return (Seq::empty(), Seq::empty(), none);
    }
    let front = items.drop_last();
    let item = items.last();
    let (groups, places, held) = lemma_streamed(front);
    let t = transcript(front);
    let next = transcript(items);
    law_nothing_gathered_is_lost(t, item);
    if is_fragment(item) {
        let more = held.push(item.text);
        assert(more.drop_last() =~= held);
        assert(fragments(items) =~= fragments(front).push(item.text));
        assert(ungrouped(groups) + more =~= fragments(items));
        let i = choose|i: int| 0 <= i < item.text.len() && !is_space(#[trigger] item.text[i]);
        assert(next.delta[t.delta.len() + i] == item.text[i]);
        return (groups, places, more);
    }
    assert(fragments(items) =~= fragments(front));
    assert(!is_delta_role(item.role) || !speaks(item));
    assert forall|k: int| 0 <= k < places.len() implies 0 <= #[trigger] places[k]
        < next.parts.len() && next.parts[places[k]] == concatenated(groups[k]) by {
        assert(t.parts[places[k]] == next.parts.take(t.parts.len() as int)[places[k]]);
    }
    if next.delta =~= t.delta {
        return (groups, places, held);
    }
    assert(next.delta.len() == 0);
    assert(!is_blank(t.delta));
    assert(next.parts[t.parts.len() as int] == t.delta) by {
        assert(t.flush().parts[t.parts.len() as int] == t.delta);
        assert(t.flush_delta().parts[t.parts.len() as int] == t.delta);
    }
    let all = groups.push(held);
    let at = places.push(t.parts.len() as int);
    let none: Seq<Seq<char>> = Seq::empty();
    assert(all.drop_last() =~= groups);
    assert(ungrouped(all) + none =~= fragments(items));
    assert forall|j: int, k: int| 0 <= j < k < at.len() implies at[j] < at[k] by {
        assert(0 <= places[j] < t.parts.len());
    }
    assert forall|k: int| 0 <= k < at.len() implies 0 <= #[trigger] at[k] < next.parts.len()
        && next.parts[at[k]] == concatenated(all[k]) by {
        if k < places.len() {
            assert(at[k] == places[k]);
        }
    }
    (all, at, none)
}

/// No streamed text is lost, and its order is kept: the fragments of the agent's messages, in order
/// and without anything between them, make whole paragraphs of the agent's text, in order.
pub proof fn law_streamed_text_is_kept(items: Seq<ItemView>)
    ensures
        exists|groups: Seq<Seq<Seq<char>>>, places: Seq<int>|
            #[trigger] make_paragraphs(groups, places, paragraphs(items)) && ungrouped(groups)
                == fragments(items),
{
    let (groups, places, held) = lemma_streamed(items);
    let t = transcript(items);
    let all = paragraphs(items);
    assert forall|k: int| 0 <= k < places.len() implies 0 <= #[trigger] places[k] < all.len()
        && all[places[k]] == concatenated(groups[k]) by {
        assert(t.parts[places[k]] == all[places[k]]);
    }
    if held.len() == 0 {
        assert(ungrouped(groups) + held =~= ungrouped(groups));
        assert(make_paragraphs(groups, places, all));
    } else if t.delta.len() == 0 {
        lemma_no_empty_fragment(items);
        assert(held.last().len() > 0) by {
            assert((ungrouped(groups) + held).last() == held.last());
            assert(fragments(items).last().len() > 0);
        }
        assert(concatenated(held).len() > 0);
        assert(false);
    } else {
        let more = groups.push(held);
        let at = places.push(t.parts.len() as int);
        assert(all[t.parts.len() as int] == t.delta);
        assert(more.drop_last() =~= groups);
        assert forall|j: int, k: int| 0 <= j < k < at.len() implies at[j] < at[k] by {
            assert(0 <= places[j] < t.parts.len());
        }
        assert forall|k: int| 0 <= k < at.len() implies 0 <= #[trigger] at[k] < all.len()
            && all[at[k]] == concatenated(more[k]) by {
            if k < places.len() {
                assert(at[k] == places[k]);
            }
        }
        assert(make_paragraphs(more, at, all));
    }
}

proof fn lemma_no_empty_fragment(items: Seq<ItemView>)
    ensures
        forall|i: int|
            0 <= i < fragments(items).len() ==> (#[trigger] fragments(items)[i]).len() > 0,
    decreases items.len(),
{
    reveal(Seq::filter);
    if items.len() > 0 {
        let front = items.drop_last();
        lemma_no_empty_fragment(front);
        if is_fragment(items.last()) {
            assert(fragments(items) =~= fragments(front).push(items.last().text));
            assert(items.last().text.len() > 0);
        } else {
            assert(fragments(items) =~= fragments(front));
        }
    }
}

} // verus!
