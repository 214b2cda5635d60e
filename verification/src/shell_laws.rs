//! What holds of the commands that are written for a shell, shown to the user, and suggested.
use crate::agent_action::{AIAgentActionResultType, RequestCommandOutputResult};
use crate::local_command_autocomplete::suggestion;
use crate::requested_command::{command_detail, one_line};
use crate::shell::{inside_quotes, is_shell_special, shell_quoted};
use crate::text::{find, is_blank, lemma_find, lemma_trim_empty, trim, trim_end_char};
use crate::warpify::download_base;
use vstd::prelude::*;

verus! {

/// The text that a shell reads from what stands in `text`, from inside or outside of single quotes
/// on: in quotes every character but the quote stands for itself, and outside a backslash makes the
/// next one stand for itself.
pub open spec fn shell_reads(text: Seq<char>, quoted: bool) -> Seq<char>
    decreases text.len(),
{
    if text.len() == 0 {
        Seq::empty()
    } else if text[0] == '\'' {
        shell_reads(text.skip(1), !quoted)
    } else if !quoted && text[0] == '\\' && text.len() > 1 {
        seq![text[1]] + shell_reads(text.skip(2), quoted)
    } else {
        seq![text[0]] + shell_reads(text.skip(1), quoted)
    }
}

proof fn lemma_inside_reads_back(text: Seq<char>, rest: Seq<char>)
    ensures
        shell_reads(inside_quotes(text) + rest, true) == text + shell_reads(rest, true),
    decreases text.len(),
{
    if text.len() == 0 {
        assert(inside_quotes(text) + rest =~= rest);
        assert(text + shell_reads(rest, true) =~= shell_reads(rest, true));
    } else {
        let front = text.drop_last();
        let last = text.last();
        if last == '\'' {
            let more = seq!['\'', '\\', '\'', '\''] + rest;
            assert(inside_quotes(text) + rest =~= inside_quotes(front) + more);
            lemma_inside_reads_back(front, more);
            let a = more.skip(1);
            assert(more[0] == '\'');
            assert(a[0] == '\\' && a[1] == '\'');
            let b = a.skip(2);
            assert(b[0] == '\'');
            assert(b.skip(1) =~= rest);
            assert(shell_reads(more, true) == shell_reads(a, false));
            assert(shell_reads(a, false) == seq!['\''] + shell_reads(b, false));
            assert(shell_reads(b, false) == shell_reads(rest, true));
            assert(front + (seq!['\''] + shell_reads(rest, true)) =~= text + shell_reads(
                rest,
                true,
            ));
        } else {
            let more = seq![last] + rest;
            assert(inside_quotes(text) + rest =~= inside_quotes(front) + more);
            lemma_inside_reads_back(front, more);
            assert(more[0] == last);
            assert(more.skip(1) =~= rest);
            assert(shell_reads(more, true) == seq![last] + shell_reads(rest, true));
            assert(front + (seq![last] + shell_reads(rest, true)) =~= text + shell_reads(
                rest,
                true,
            ));
        }
    }
}

proof fn lemma_plain_reads_back(text: Seq<char>)
    requires
        forall|i: int| 0 <= i < text.len() ==> (#[trigger] text[i]) != '\'' && text[i] != '\\',
    ensures
        shell_reads(text, false) == text,
    decreases text.len(),
{
    if text.len() > 0 {
        let rest = text.skip(1);
        assert forall|i: int| 0 <= i < rest.len() implies (#[trigger] rest[i]) != '\'' && rest[i]
            != '\\' by {
            assert(rest[i] == text[i + 1]);
        }
        lemma_plain_reads_back(rest);
        assert(text[0] != '\'' && text[0] != '\\');
        assert(seq![text[0]] + rest =~= text);
    }
}

/// A text that is quoted for a shell is read by the shell as it is.
pub proof fn law_quoted_text_reads_back(text: Seq<char>)
    ensures
        shell_reads(shell_quoted(text), false) == text,
{
    let quoted = seq!['\''] + inside_quotes(text) + seq!['\''];
    let end = seq!['\''];
    assert(quoted.skip(1) =~= inside_quotes(text) + end);
    lemma_inside_reads_back(text, end);
    reveal_with_fuel(shell_reads, 2);
    assert(end.skip(1) =~= Seq::empty());
    assert(shell_reads(end, true) =~= Seq::empty());
    assert(text + Seq::<char>::empty() =~= text);
    if shell_quoted(text) == text {
        if text.len() > 0 && (forall|i: int|
            0 <= i < text.len() ==> !is_shell_special(#[trigger] text[i])) {
            assert forall|i: int| 0 <= i < text.len() implies (#[trigger] text[i]) != '\''
                && text[i] != '\\' by {
                assert(!is_shell_special(text[i]));
            }
            lemma_plain_reads_back(text);
        }
    }
}

/// A text with a space, a quote, or nothing in it is quoted.
pub proof fn law_special_text_is_quoted(text: Seq<char>, i: int)
    ensures
        text.len() == 0 ==> shell_quoted(text) == seq!['\'', '\''],
        0 <= i < text.len() && (text[i] == ' ' || text[i] == '\'' || text[i] == '"' || text[i] == '$'
            || text[i] == ';' || text[i] == '&' || text[i] == '|' || text[i] == '`' || text[i]
            == '\\' || text[i] == '\n' || text[i] == '>' || text[i] == '<') ==> shell_quoted(
            text,
        )[0] == '\'' && shell_quoted(text).last() == '\'' && shell_quoted(text).len() >= text.len()
            + 2,
{
    lemma_inside_len(text);
    if text.len() == 0 {
        assert(shell_quoted(text) =~= seq!['\'', '\'']);
    }
    if 0 <= i < text.len() && is_shell_special(text[i]) {
        assert(shell_quoted(text) == seq!['\''] + inside_quotes(text) + seq!['\'']);
    }
}

proof fn lemma_inside_len(text: Seq<char>)
    ensures
        inside_quotes(text).len() >= text.len(),
    decreases text.len(),
{
    if text.len() > 0 {
        lemma_inside_len(text.drop_last());
    }
}

/// A suggestion is made exactly where the action is one line that continues what was typed, and is
/// then that line.
pub proof fn law_suggestion(action: Seq<char>, prefix: Seq<char>)
    ensures
        suggestion(action, prefix) is Some <==> {
            &&& !is_blank(action)
            &&& !trim(action).contains('\n')
            &&& !trim(action).contains('\r')
            &&& trim(action) != prefix
            &&& prefix.is_prefix_of(trim(action))
        },
        suggestion(action, prefix) matches Some(command) ==> command == trim(action),
{
    lemma_trim_empty(action);
}

/// A command is shown up to its first line break, with a sign that more follows exactly where more
/// does.
pub proof fn law_shown_line(first: Seq<char>, rest: Seq<char>)
    requires
        !first.contains('\n'),
    ensures
        one_line(first) == first,
        is_blank(rest) ==> one_line(first + seq!['\n'] + rest) == first,
        !is_blank(rest) ==> one_line(first + seq!['\n'] + rest) == first + seq!['…'],
{
    lemma_find(first, '\n');
    if find(first, '\n') < first.len() {
        assert(first[find(first, '\n')] == '\n');
    }
    let whole = first + seq!['\n'] + rest;
    lemma_find(whole, '\n');
    let n = first.len() as int;
    let at = find(whole, '\n');
    assert(whole[n] == '\n');
    if at < n {
        assert(whole[at] == first[at]);
        assert(first.contains('\n'));
    }
    assert(at == n);
    assert(whole.skip(n + 1) =~= rest);
    assert(whole.take(n) =~= first);
}

/// A command that has run is shown as it ran, with its output behind it where it has one; any other
/// has nothing to show.
pub proof fn law_command_that_ran(command: Seq<char>, result: RequestCommandOutputResult)
    ensures
        result matches RequestCommandOutputResult::Completed { command: ran, output, .. } ==> {
            let shown = command_detail(
                command,
                AIAgentActionResultType::RequestCommandOutput(result),
            );
            &&& (!is_blank(ran@) && output@.len() == 0 ==> shown == Some(ran@))
            &&& (is_blank(ran@) && output@.len() == 0 ==> shown == Some(command))
            &&& (!is_blank(ran@) && output@.len() > 0 ==> shown == Some(
                ran@ + "\n\n"@ + output@,
            ))
            &&& (is_blank(ran@) && output@.len() > 0 ==> shown == Some(
                command + "\n\n"@ + output@,
            ))
        },
        !(result is Completed) ==> command_detail(
            command,
            AIAgentActionResultType::RequestCommandOutput(result),
        ) is None,
{
}

/// The downloads come from the address that is configured, with or without a slash at its end, else
/// from the usual one.
pub proof fn law_downloads(configured: Seq<char>, production: Seq<char>, default_base: Seq<char>)
    ensures
        is_blank(configured) ==> download_base(
            configured,
            production,
            default_base,
        ) == default_base,
        trim_end_char(trim(configured), '/') == production ==> download_base(
            configured,
            production,
            default_base,
        ) == default_base,
        trim_end_char(trim(configured), '/').len() > 0 && trim_end_char(trim(configured), '/')
            != production ==> download_base(configured, production, default_base) == trim_end_char(
            trim(configured),
            '/',
        ),
{
    lemma_trim_empty(configured);
}

} // verus!
