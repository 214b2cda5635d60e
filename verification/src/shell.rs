//! Words of shell commands.
use vstd::prelude::*;

verus! {

/// A shell does not take the character as it is.
pub open spec fn is_shell_special(c: char) -> bool {
    c == '\n' || c == '\'' || c == '|' || c == '&' || c == ';' || c == '<' || c == '>' || c == '('
        || c == ')' || c == '$' || c == '`' || c == '\\' || c == '"' || c == ' ' || c == '\t' || c
        == '*' || c == '?' || c == '[' || c == '#' || c == '~' || c == '=' || c == '%'
}

/// The text as it stands between single quotes: a single quote in it ends the quotes, stands
/// behind a backslash, and begins them again.
pub open spec fn inside_quotes(text: Seq<char>) -> Seq<char>
    decreases text.len(),
{
    if text.len() == 0 {
        Seq::empty()
    } else if text.last() == '\'' {
        inside_quotes(text.drop_last()) + seq!['\'', '\\', '\'', '\'']
    } else {
        inside_quotes(text.drop_last()).push(text.last())
    }
}

/// The text as one word of a shell command: in single quotes, where it needs them.
pub open spec fn shell_quoted(text: Seq<char>) -> Seq<char> {
    if text.len() > 0 && (forall|i: int| 0 <= i < text.len() ==> !is_shell_special(#[trigger] text[i])) {
        text
    } else {
        seq!['\''] + inside_quotes(text) + seq!['\'']
    }
}

/// `shell_words::quote`: a word without special characters is kept, any other stands in single
/// quotes.
#[verifier::external_body]
pub(crate) fn quote_for_shell(text: &str) -> (r: String)
    ensures
        r@ == shell_quoted(text@),
{
    shell_words::quote(text).into_owned()
}

} // verus!
