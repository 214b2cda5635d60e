//! How a command that an agent asked for is shown.
use crate::agent_action::{AIAgentActionResultType, RequestCommandOutputResult};
use crate::text::{blank, concat3, find, is_blank, lemma_find, opt_view, split_once};
use vstd::prelude::*;

verus! {

/// A command on one line: what follows the first line is cut off, and marked as cut off where it
/// is more than white space.
pub open spec fn one_line(command: Seq<char>) -> Seq<char> {
    let i = find(command, '\n');
    if i == command.len() {
        command
    } else if is_blank(command.skip(i + 1)) {
        command.take(i)
    } else {
        command.take(i) + seq!['…']
    }
}

/// A command on one line.
pub fn format_command_text(command: &str) -> (r: String)
    ensures
        r@ == one_line(command@),
{
    proof {
        lemma_find(command@, '\n');
    }
    match split_once(command, '\n') {
        Some((first, rest)) => {
            let mut r = first.to_owned();
            if !blank(rest) {
                r.push('…');
                assert(first@.push('…') =~= first@ + seq!['…']);
            }
            r
        },
        None => command.to_owned(),
    }
}

/// The text of a command and of its output, where the command ran. A result that does not repeat
/// the command is shown with the command of the action.
pub open spec fn command_detail(command: Seq<char>, result: AIAgentActionResultType) -> Option<
    Seq<char>,
> {
    match result {
        AIAgentActionResultType::RequestCommandOutput(
            RequestCommandOutputResult::Completed { command: ran, output, .. },
        ) => {
            let shown = if is_blank(ran@) {
                command
            } else {
                ran@
            };
            Some(
                if output@.len() == 0 {
                    shown
                } else {
                    shown + "\n\n"@ + output@
                },
            )
        },
        _ => None,
    }
}

/// The text of a command and of its output, where the command ran.
pub fn command_detail_text_from_result(command: &str, result: &AIAgentActionResultType) -> (r:
    Option<String>)
    ensures
        opt_view(r) == command_detail(command@, *result),
{
    match result {
        AIAgentActionResultType::RequestCommandOutput(
            RequestCommandOutputResult::Completed { command: ran, output, .. },
        ) => {
            let shown = if blank(ran.as_str()) {
                command.to_owned()
            } else {
                ran.clone()
            };
            if output.as_str().unicode_len() == 0 {
                Some(shown)
            } else {
                Some(concat3(shown.as_str(), "\n\n", output.as_str()))
            }
        },
        _ => None,
    }
}

/// A command on one line has no line break, and is shown as it is.
pub proof fn law_one_line(command: Seq<char>)
    ensures
        !one_line(command).contains('\n'),
        one_line(one_line(command)) == one_line(command),
{
    lemma_find(command, '\n');
    let shown = one_line(command);
    let i = find(command, '\n');
    assert forall|j: int| 0 <= j < shown.len() implies shown[j] != '\n' by {
        if j < i {
            assert(shown[j] == command[j]);
        }
    }
    lemma_find(shown, '\n');
}

} // verus!
