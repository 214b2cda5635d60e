//! The data that a Codex app server is asked for: threads, their items, and models.
use crate::path::{PathStyle, same_location, same_path_option};
use crate::text::{clone_option, opt_view, same, same_option};
use vstd::prelude::*;

verus! {

/// One entry of a thread: who speaks, and what is said.
#[derive(Debug, PartialEq, Eq)]
pub struct CodexConversationItem {
    pub role: String,
    pub text: String,
}

/// The model of a `CodexConversationItem`.
pub struct ItemView {
    pub role: Seq<char>,
    pub text: Seq<char>,
}

impl CodexConversationItem {
    pub open spec fn view(&self) -> ItemView {
        ItemView { role: self.role@, text: self.text@ }
    }
}

impl Clone for CodexConversationItem {
    fn clone(&self) -> (r: Self)
        ensures
            r@ == self@,
    {
        CodexConversationItem { role: self.role.clone(), text: self.text.clone() }
    }
}

/// The models of a list of items.
pub open spec fn item_views(items: Seq<CodexConversationItem>) -> Seq<ItemView> {
    items.map_values(|i: CodexConversationItem| i@)
}

/// A copy of a list of items.
pub fn clone_items(items: &Vec<CodexConversationItem>) -> (r: Vec<CodexConversationItem>)
    ensures
        item_views(r@) == item_views(items@),
        r@.len() == items@.len(),
{
    let mut r: Vec<CodexConversationItem> = Vec::new();
    let mut i: usize = 0;
    while i < items.len()
        invariant
            i <= items@.len(),
            r@.len() == i,
            item_views(r@) == item_views(items@).take(i as int),
        decreases items@.len() - i,
    {
        let ghost done = item_views(r@);
        r.push(items[i].clone());
        proof {
            assert(item_views(r@) =~= done.push(items@[i as int]@));
            assert(item_views(items@).take(i as int + 1) =~= done.push(
                item_views(items@)[i as int],
            ));
        }
        i = i + 1;
    }
    assert(item_views(items@).take(i as int) =~= item_views(items@));
    r
}

/// What the list of threads shows of a thread.
#[derive(Debug, PartialEq, Eq)]
pub struct CodexThreadSummary {
    pub id: String,
    pub title: String,
    pub cwd: Option<String>,
    pub updated_at: Option<String>,
    pub source_kind: Option<String>,
}

/// The model of a `CodexThreadSummary`.
pub struct SummaryView {
    pub id: Seq<char>,
    pub title: Seq<char>,
    pub cwd: Option<Seq<char>>,
    pub updated_at: Option<Seq<char>>,
    pub source_kind: Option<Seq<char>>,
}

impl SummaryView {
    /// The two summaries say the same; the directories may be written differently.
    pub open spec fn says_same(self, style: PathStyle, other: SummaryView) -> bool {
        &&& self.id == other.id
        &&& self.title == other.title
        &&& same_location(style, self.cwd, other.cwd)
        &&& self.updated_at == other.updated_at
        &&& self.source_kind == other.source_kind
    }
}

impl CodexThreadSummary {
    pub open spec fn view(&self) -> SummaryView {
        SummaryView {
            id: self.id@,
            title: self.title@,
            cwd: opt_view(self.cwd),
            updated_at: opt_view(self.updated_at),
            source_kind: opt_view(self.source_kind),
        }
    }

    /// The two summaries say the same.
    pub fn same_as(&self, style: PathStyle, other: &CodexThreadSummary) -> (r: bool)
        ensures
            r == self@.says_same(style, other@),
    {
        same(self.id.as_str(), other.id.as_str()) && same(self.title.as_str(), other.title.as_str())
            && same_path_option(style, &self.cwd, &other.cwd) && same_option(
            &self.updated_at,
            &other.updated_at,
        ) && same_option(&self.source_kind, &other.source_kind)
    }
}

impl Clone for CodexThreadSummary {
    fn clone(&self) -> (r: Self)
        ensures
            r@ == self@,
    {
        CodexThreadSummary {
            id: self.id.clone(),
            title: self.title.clone(),
            cwd: clone_option(&self.cwd),
            updated_at: clone_option(&self.updated_at),
            source_kind: clone_option(&self.source_kind),
        }
    }
}

/// The models of a list of summaries.
pub open spec fn summary_views(threads: Seq<CodexThreadSummary>) -> Seq<SummaryView> {
    threads.map_values(|t: CodexThreadSummary| t@)
}

/// A thread with its items.
#[derive(Debug, PartialEq, Eq)]
pub struct CodexThreadDetail {
    pub summary: CodexThreadSummary,
    pub items: Vec<CodexConversationItem>,
}

/// The model of a `CodexThreadDetail`.
pub struct DetailView {
    pub summary: SummaryView,
    pub items: Seq<ItemView>,
}

impl CodexThreadDetail {
    pub open spec fn view(&self) -> DetailView {
        DetailView { summary: self.summary@, items: item_views(self.items@) }
    }
}

impl Clone for CodexThreadDetail {
    fn clone(&self) -> (r: Self)
        ensures
            r@ == self@,
    {
        CodexThreadDetail { summary: self.summary.clone(), items: clone_items(&self.items) }
    }
}

/// The model of an optional thread.
pub open spec fn opt_detail_view(detail: Option<CodexThreadDetail>) -> Option<DetailView> {
    match detail {
        Some(detail) => Some(detail@),
        None => None,
    }
}

/// The shown thread says the same as the given one.
pub open spec fn shows_detail(
    style: PathStyle,
    shown: Option<DetailView>,
    detail: DetailView,
) -> bool {
    match shown {
        Some(shown) => shown.summary.says_same(
            style,
            detail.summary,
        ) && shown.items == detail.items,
        None => false,
    }
}

/// A model that the server offers.
#[derive(Debug, PartialEq, Eq)]
pub struct CodexModelInfo {
    pub id: String,
    pub display_name: String,
    pub is_default: bool,
}

/// The model of a `CodexModelInfo`.
pub struct ModelView {
    pub id: Seq<char>,
    pub display_name: Seq<char>,
    pub is_default: bool,
}

impl CodexModelInfo {
    pub open spec fn view(&self) -> ModelView {
        ModelView {
            id: self.id@,
            display_name: self.display_name@,
            is_default: self.is_default,
        }
    }
}

impl Clone for CodexModelInfo {
    fn clone(&self) -> (r: Self)
        ensures
            r@ == self@,
    {
        CodexModelInfo {
            id: self.id.clone(),
            display_name: self.display_name.clone(),
            is_default: self.is_default,
        }
    }
}

/// The models of a list of server models.
pub open spec fn model_views(models: Seq<CodexModelInfo>) -> Seq<ModelView> {
    models.map_values(|m: CodexModelInfo| m@)
}

} // verus!
