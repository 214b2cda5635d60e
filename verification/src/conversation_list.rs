//! Lists of conversations with agent servers.
use crate::path::{PathStyle, short_path, shorten_project_path};
use crate::text::{
    blank, contains, contains_text, is_blank, lower, lowered, opt_str_view, opt_view, same, trim,
    trimmed,
};
use vstd::prelude::*;

verus! {

/// The title of a row: that of the conversation, or its identifier where it has none.
pub open spec fn row_title_of(title: Seq<char>, id: Seq<char>) -> Seq<char> {
    if is_blank(title) {
        id
    } else {
        title
    }
}

/// The title of a row.
pub fn row_title<'a>(title: &'a str, id: &'a str) -> (r: &'a str)
    ensures
        r@ == row_title_of(title@, id@),
{
    if blank(title) {
        id
    } else {
        title
    }
}

/// The project that a row names.
pub open spec fn row_project_of(
    style: PathStyle,
    directory: Option<Seq<char>>,
) -> Option<Seq<char>> {
    match directory {
        Some(directory) => Some(short_path(style, directory)),
        None => None,
    }
}

/// The project that a row names.
pub fn row_project(style: PathStyle, directory: &Option<String>) -> (r: Option<String>)
    ensures
        opt_view(r) == row_project_of(style, opt_view(*directory)),
{
    match directory {
        Some(directory) => Some(shorten_project_path(style, directory.as_str())),
        None => None,
    }
}

/// The search finds the conversation: by its title, its identifier or its directory, in capitals
/// or not.
pub open spec fn is_listed(
    title: Seq<char>,
    id: Seq<char>,
    directory: Option<Seq<char>>,
    query: Seq<char>,
) -> bool {
    let query = lower(trim(query));
    query.len() == 0 || contains_text(lower(title), query) || contains_text(lower(id), query) || (
    directory is Some && contains_text(lower(directory->0), query))
}

/// The search finds the conversation.
pub fn lists(title: &str, id: &str, directory: &Option<String>, query: &str) -> (r: bool)
    ensures
        r == is_listed(title@, id@, opt_view(*directory), query@),
{
    let query = lowered(trimmed(query));
    let query = query.as_str();
    if query.unicode_len() == 0 || contains(lowered(title).as_str(), query) || contains(
        lowered(id).as_str(),
        query,
    ) {
        return true;
    }
    match directory {
        Some(directory) => contains(lowered(directory.as_str()).as_str(), query),
        None => false,
    }
}

/// The conversation whose row is marked: the one that is being opened, or else the one that is
/// open.
pub open spec fn marked_id(
    opening: Option<Seq<char>>,
    open: Option<Seq<char>>,
) -> Option<Seq<char>> {
    match opening {
        Some(id) => Some(id),
        None => open,
    }
}

/// The row of a conversation is marked.
pub fn is_marked(id: &str, opening: Option<&str>, open: Option<&str>) -> (r: bool)
    ensures
        r == (marked_id(opt_str_view(opening), opt_str_view(open)) == Some(id@)),
{
    match opening {
        Some(opening) => same(opening, id),
        None => match open {
            Some(open) => same(open, id),
            None => false,
        },
    }
}

} // verus!
