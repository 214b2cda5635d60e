//! The threads and models that a Codex app server offers, gathered from its list replies.
use crate::codex_app_server::types::{
    CodexModelInfo, CodexThreadDetail, CodexThreadSummary, DetailView, ModelView, SummaryView,
    model_views, summary_views,
};
use crate::codex_app_server::wire::{
    list_entries, models_of, or_else, parse_model_list, parse_thread_list, summaries_of,
};
use crate::json::{JsonValue, JsonView, json_views, whole_number};
use crate::ordered::{
    Keyed, Ranked, entries, insert_by_key, insert_keyed, is_keyed, is_order, is_sorted,
    law_insert_keyed, law_sorted_in_order, models, sorted_by, stable_sort,
};
use crate::path::{PathStyle, dedupe_paths, distinct_paths};
use crate::text::{
    blank, clone_texts, is_blank, lemma_text_lt_total, lemma_text_lt_trans, less, opt_str_view,
    opt_view, same, same_option, text_lt, trim, trimmed, views,
};
use vstd::prelude::*;

verus! {

/// An absent text comes before any other.
pub open spec fn opt_text_lt(a: Option<Seq<char>>, b: Option<Seq<char>>) -> bool {
    match (a, b) {
        (None, Some(_)) => true,
        (Some(a), Some(b)) => text_lt(a, b),
        _ => false,
    }
}

/// The order of the list of threads: the latest first, then by title.
pub open spec fn thread_precedes(a: SummaryView, b: SummaryView) -> bool {
    opt_text_lt(b.updated_at, a.updated_at) || (a.updated_at == b.updated_at && text_lt(
        a.title,
        b.title,
    ))
}

proof fn lemma_opt_text_lt(
    a: Option<Seq<char>>,
    b: Option<Seq<char>>,
    c: Option<Seq<char>>,
)
    ensures
        !(opt_text_lt(a, b) && opt_text_lt(b, a)),
        a == b <==> !opt_text_lt(a, b) && !opt_text_lt(b, a),
        opt_text_lt(a, b) && opt_text_lt(b, c) ==> opt_text_lt(a, c),
{
    if let (Some(x), Some(y)) = (a, b) {
        lemma_text_lt_total(x, y);
        if let Some(z) = c {
            if text_lt(x, y) && text_lt(y, z) {
                lemma_text_lt_trans(x, y, z);
            }
        }
    }
}

/// The list of threads can be put in its order.
pub proof fn lemma_thread_order()
    ensures
        is_order(|a: SummaryView, b: SummaryView| thread_precedes(a, b)),
{
    let precedes = |a: SummaryView, b: SummaryView| thread_precedes(a, b);
    assert forall|a: SummaryView, b: SummaryView| #[trigger] precedes(a, b) implies !precedes(
        b,
        a,
    ) by {
        lemma_opt_text_lt(a.updated_at, b.updated_at, None);
        lemma_opt_text_lt(b.updated_at, a.updated_at, None);
        lemma_text_lt_total(a.title, b.title);
    }
    assert forall|a: SummaryView, b: SummaryView, c: SummaryView|
        !#[trigger] precedes(b, a) && !#[trigger] precedes(c, b) implies !precedes(c, a) by {
        lemma_opt_text_lt(a.updated_at, b.updated_at, c.updated_at);
        lemma_opt_text_lt(b.updated_at, a.updated_at, c.updated_at);
        lemma_opt_text_lt(b.updated_at, c.updated_at, a.updated_at);
        lemma_opt_text_lt(c.updated_at, b.updated_at, a.updated_at);
        lemma_opt_text_lt(a.updated_at, c.updated_at, b.updated_at);
        lemma_opt_text_lt(c.updated_at, a.updated_at, b.updated_at);
        lemma_text_lt_total(a.title, b.title);
        lemma_text_lt_total(b.title, c.title);
        lemma_text_lt_total(a.title, c.title);
        if text_lt(a.title, b.title) && text_lt(b.title, c.title) {
            lemma_text_lt_trans(a.title, b.title, c.title);
        }
    }
}

/// The list of threads is in its order, whatever was found: no thread stands behind one that is
/// older, nor, of two of the same time, behind one with a later title.
pub proof fn law_thread_list_in_order(found: Seq<SummaryView>)
    ensures
        is_sorted(
            sorted_by(found, |a: SummaryView, b: SummaryView| thread_precedes(a, b)),
            |a: SummaryView, b: SummaryView| thread_precedes(a, b),
        ),
{
    lemma_thread_order();
    law_sorted_in_order(found, |a: SummaryView, b: SummaryView| thread_precedes(a, b));
}

/// An absent text comes before any other.
fn option_less(a: &Option<String>, b: &Option<String>) -> (r: bool)
    ensures
        r == opt_text_lt(opt_view(*a), opt_view(*b)),
{
    match (a, b) {
        (None, Some(_)) => true,
        (Some(a), Some(b)) => less(a.as_str(), b.as_str()),
        _ => false,
    }
}

impl Ranked for CodexThreadSummary {
    type Model = SummaryView;

    open spec fn model(&self) -> SummaryView {
        self@
    }

    open spec fn precedes(a: SummaryView, b: SummaryView) -> bool {
        thread_precedes(a, b)
    }

    fn is_before(&self, other: &Self) -> (r: bool) {
        option_less(&other.updated_at, &self.updated_at) || (same_option(
            &self.updated_at,
            &other.updated_at,
        ) && less(self.title.as_str(), other.title.as_str()))
    }
}

impl Keyed for CodexThreadSummary {
    type Model = SummaryView;

    open spec fn entry(&self) -> SummaryView {
        self@
    }

    open spec fn key_of(m: SummaryView) -> Seq<char> {
        m.id
    }

    fn key(&self) -> (r: &str) {
        self.id.as_str()
    }
}

impl Keyed for CodexModelInfo {
    type Model = ModelView;

    open spec fn entry(&self) -> ModelView {
        self@
    }

    open spec fn key_of(m: ModelView) -> Seq<char> {
        m.id
    }

    fn key(&self) -> (r: &str) {
        self.id.as_str()
    }
}

/// The project roots to list threads of: the projects', then the imported ones, each once.
pub fn dedupe_project_roots(
    style: PathStyle,
    project_roots: &Vec<String>,
    imported_project_paths: &Vec<String>,
) -> (r: Vec<String>)
    ensures
        views(r@) == distinct_paths(style, views(project_roots@) + views(imported_project_paths@)),
{
    let mut all = clone_texts(project_roots);
    let mut imported = clone_texts(imported_project_paths);
    let ghost before = views(all@);
    let ghost after = views(imported@);
    all.append(&mut imported);
    assert(views(all@) =~= before + after);
    dedupe_paths(style, &all)
}

/// The summary with the directory that it was listed for, where it names none.
pub open spec fn with_cwd(summary: SummaryView, root: Seq<char>) -> SummaryView {
    SummaryView { cwd: or_else(summary.cwd, Some(root)), ..summary }
}

/// The threads known so far, with those of one further page for a project root.
pub open spec fn with_page(
    known: Seq<SummaryView>,
    root: Seq<char>,
    page: Seq<SummaryView>,
) -> Seq<SummaryView>
    decreases page.len(),
{
    if page.len() == 0 {
        known
    } else {
        insert_keyed(
            with_page(known, root, page.drop_last()),
            with_cwd(page.last(), root),
            |m: SummaryView| m.id,
        )
    }
}

/// The models known so far, with those of one further page.
pub open spec fn with_models(known: Seq<ModelView>, page: Seq<ModelView>) -> Seq<ModelView>
    decreases page.len(),
{
    if page.len() == 0 {
        known
    } else {
        insert_keyed(
            with_models(known, page.drop_last()),
            page.last(),
            |m: ModelView| m.id,
        )
    }
}

/// However the pages of the list replies come, each thread is listed once.
pub proof fn law_pages_list_each_thread_once(
    known: Seq<SummaryView>,
    root: Seq<char>,
    page: Seq<SummaryView>,
)
    requires
        is_keyed(known, |m: SummaryView| m.id),
    ensures
        is_keyed(with_page(known, root, page), |m: SummaryView| m.id),
    decreases page.len(),
{
    if page.len() > 0 {
        law_pages_list_each_thread_once(known, root, page.drop_last());
        law_insert_keyed(
            with_page(known, root, page.drop_last()),
            with_cwd(page.last(), root),
            |m: SummaryView| m.id,
        );
    }
}

/// Where the next page of a list reply begins; there is none where the reply names none.
pub open spec fn next_page(result: JsonView) -> Option<JsonView> {
    match result.get("nextCursor"@) {
        Some(JsonView::Null) => None,
        Some(cursor) => Some(cursor),
        None => None,
    }
}

/// Where the next page of a list reply begins.
pub fn next_cursor(result: &JsonValue) -> (r: Option<JsonValue>)
    ensures
        match r {
            Some(cursor) => next_page(result@) == Some(cursor@),
            None => next_page(result@) is None,
        },
{
    match result.get("nextCursor") {
        Some(JsonValue::Null) => None,
        Some(cursor) => Some(cursor.clone()),
        None => None,
    }
}

/// One of the threads has the identifier.
pub open spec fn lists_thread(threads: Seq<SummaryView>, id: Seq<char>) -> bool {
    exists|i: int| 0 <= i < threads.len() && (#[trigger] threads[i]).id == id
}

/// The imported thread that has still to be read: one that is named and not listed yet.
pub open spec fn missing_thread(known: Seq<SummaryView>, thread_id: Seq<char>) -> Option<
    Seq<char>,
> {
    let id = trim(thread_id);
    if is_blank(thread_id) || lists_thread(known, id) {
        None
    } else {
        Some(id)
    }
}

/// The threads found so far, in the order of their identifiers.
pub struct CodexThreadCatalog {
    pub threads: Vec<CodexThreadSummary>,
}

impl CodexThreadCatalog {
    pub open spec fn view(&self) -> Seq<SummaryView> {
        summary_views(self.threads@)
    }

    /// No threads.
    pub fn new() -> (r: Self)
        ensures
            r@ == Seq::<SummaryView>::empty(),
    {
        let r = CodexThreadCatalog { threads: Vec::new() };
        assert(r@ =~= Seq::empty());
        r
    }

    /// Adds a thread; one with the same identifier gives way.
    pub fn insert(&mut self, summary: CodexThreadSummary)
        ensures
            final(self)@ == insert_keyed(old(self)@, summary@, |m: SummaryView| m.id),
    {
        let ghost before = entries(self.threads@);
        assert(before =~= summary_views(self.threads@));
        insert_by_key(&mut self.threads, summary);
        proof {
            assert(entries(self.threads@) =~= summary_views(self.threads@));
            assert((|m: SummaryView| CodexThreadSummary::key_of(m)) =~= (|m: SummaryView| m.id));
        }
    }

    /// Adds the threads of one page of the list reply for a project root, and says where the next
    /// page begins.
    pub fn add_page(&mut self, root: &str, result: &JsonValue) -> (r: Option<JsonValue>)
        ensures
            final(self)@ == with_page(
                old(self)@,
                root@,
                summaries_of(list_entries(result@, "threads"@)),
            ),
            match r {
                Some(cursor) => next_page(result@) == Some(cursor@),
                None => next_page(result@) is None,
            },
    {
        let ghost start = self@;
        let mut page = parse_thread_list(result);
        let ghost all = summary_views(page@);
        let ghost mut done: int = 0;
        assert(all.skip(0) =~= all);
        while page.len() > 0
            invariant
                0 <= done <= all.len(),
                summary_views(page@) == all.skip(done),
                self@ == with_page(start, root@, all.take(done)),
            decreases page@.len(),
        {
            let ghost rest = summary_views(page@);
            assert(rest.len() == page@.len());
            let mut summary = page.remove(0);
            proof {
                assert(rest[0] == summary@);
                assert(all[done] == rest[0]);
                assert(summary_views(page@) =~= rest.skip(1));
                assert(rest.skip(1) =~= all.skip(done + 1));
                assert(all.take(done + 1).drop_last() =~= all.take(done));
                assert(all.take(done + 1).last() == summary@);
            }
            if summary.cwd.is_none() {
                summary.cwd = Some(root.to_owned());
            }
            self.insert(summary);
            proof {
                done = done + 1;
            }
        }
        assert(all.skip(done).len() == 0);
        assert(all.take(done) =~= all);
        next_cursor(result)
    }

    /// The imported thread that has still to be read.
    pub fn missing_thread<'a>(&self, thread_id: &'a str) -> (r: Option<&'a str>)
        ensures
            opt_str_view(r) == missing_thread(self@, thread_id@),
    {
        let id = trimmed(thread_id);
        if blank(thread_id) {
            return None;
        }
        let mut i: usize = 0;
        while i < self.threads.len()
            invariant
                i <= self.threads@.len(),
                id@ == trim(thread_id@),
                forall|j: int| 0 <= j < i ==> (#[trigger] self@[j]).id != id@,
            decreases self.threads@.len() - i,
        {
            assert(self@[i as int] == self.threads@[i as int]@);
            if same(self.threads[i].id.as_str(), id) {
                assert(lists_thread(self@, id@));
                return None;
            }
            i = i + 1;
        }
        Some(id)
    }

    /// The list of threads: the latest first, then by title.
    pub fn into_threads(self) -> (r: Vec<CodexThreadSummary>)
        ensures
            summary_views(r@) == sorted_by(
                self@,
                |a: SummaryView, b: SummaryView| thread_precedes(a, b),
            ),
    {
        let ghost before = self@;
        let r = stable_sort(self.threads);
        proof {
            assert(models(self.threads@) =~= before);
            assert(models(r@) =~= summary_views(r@));
            assert((|a: SummaryView, b: SummaryView| CodexThreadSummary::precedes(a, b)) =~= (
            |a: SummaryView, b: SummaryView| thread_precedes(a, b)));
        }
        r
    }
}

/// The models known so far, with those of one further page of the list reply.
pub fn add_model_page(known: &mut Vec<CodexModelInfo>, result: &JsonValue) -> (r: Option<JsonValue>)
    ensures
        model_views(final(known)@) == with_models(
            model_views(old(known)@),
            models_of(list_entries(result@, "models"@)),
        ),
        match r {
            Some(cursor) => next_page(result@) == Some(cursor@),
            None => next_page(result@) is None,
        },
{
    let ghost start = model_views(known@);
    let mut page = parse_model_list(result);
    let ghost all = model_views(page@);
    let ghost mut done: int = 0;
    assert(all.skip(0) =~= all);
    while page.len() > 0
        invariant
            0 <= done <= all.len(),
            model_views(page@) == all.skip(done),
            model_views(known@) == with_models(start, all.take(done)),
        decreases page@.len(),
    {
        let ghost rest = model_views(page@);
        assert(rest.len() == page@.len());
        let model = page.remove(0);
        proof {
            assert(rest[0] == model@);
            assert(all[done] == rest[0]);
            assert(model_views(page@) =~= rest.skip(1));
            assert(rest.skip(1) =~= all.skip(done + 1));
            assert(all.take(done + 1).drop_last() =~= all.take(done));
            assert(all.take(done + 1).last() == model@);
            assert(entries(known@) =~= model_views(known@));
        }
        insert_by_key(known, model);
        proof {
            assert(entries(known@) =~= model_views(known@));
            assert((|m: ModelView| CodexModelInfo::key_of(m)) =~= (|m: ModelView| m.id));
            done = done + 1;
        }
    }
    assert(all.skip(done).len() == 0);
    assert(all.take(done) =~= all);
    next_cursor(result)
}

/// The parameters that ask for a page of the threads of a project root.
pub open spec fn thread_list_of(cursor: JsonView, root: Seq<char>) -> JsonView {
    JsonView::Object(
        seq![
            ("cursor"@, cursor),
            ("limit"@, JsonView::Number(whole_number(50))),
            ("cwd"@, JsonView::Text(root)),
            ("sortKey"@, JsonView::Text("updated_at"@)),
            ("archived"@, JsonView::Bool(false)),
            (
                "sourceKinds"@,
                JsonView::Array(
                    seq![
                        JsonView::Text("cli"@),
                        JsonView::Text("vscode"@),
                        JsonView::Text("appServer"@),
                    ],
                ),
            ),
        ],
    )
}

/// The parameters that ask for a page of the threads of a project root.
pub fn thread_list_params(cursor: JsonValue, root: &str) -> (r: JsonValue)
    ensures
        r@ == thread_list_of(cursor@, root@),
{
    broadcast use {JsonValue::lemma_array_view, JsonValue::lemma_object_view};

    let mut kinds: Vec<JsonValue> = Vec::new();
    kinds.push(JsonValue::Text("cli".to_owned()));
    kinds.push(JsonValue::Text("vscode".to_owned()));
    kinds.push(JsonValue::Text("appServer".to_owned()));
    assert(json_views(kinds@) =~= seq![
        JsonView::Text("cli"@),
        JsonView::Text("vscode"@),
        JsonView::Text("appServer"@),
    ]);
    let mut params: Vec<(String, JsonValue)> = Vec::new();
    params.push(("cursor".to_owned(), cursor));
    params.push(("limit".to_owned(), JsonValue::number(50)));
    params.push(("cwd".to_owned(), JsonValue::Text(root.to_owned())));
    params.push(("sortKey".to_owned(), JsonValue::Text("updated_at".to_owned())));
    params.push(("archived".to_owned(), JsonValue::Bool(false)));
    params.push(("sourceKinds".to_owned(), JsonValue::Array(kinds)));
    let r = JsonValue::Object(params);
    assert(r@->Object_0 =~= thread_list_of(cursor@, root@)->Object_0);
    r
}

/// The parameters that ask for a page of the models.
pub open spec fn model_list_of(cursor: JsonView) -> JsonView {
    JsonView::Object(
        seq![("cursor"@, cursor), ("limit"@, JsonView::Number(whole_number(100)))],
    )
}

/// The parameters that ask for a page of the models.
pub fn model_list_params(cursor: JsonValue) -> (r: JsonValue)
    ensures
        r@ == model_list_of(cursor@),
{
    broadcast use JsonValue::lemma_object_view;

    let mut params: Vec<(String, JsonValue)> = Vec::new();
    params.push(("cursor".to_owned(), cursor));
    params.push(("limit".to_owned(), JsonValue::number(100)));
    let r = JsonValue::Object(params);
    assert(r@->Object_0 =~= model_list_of(cursor@)->Object_0);
    r
}

/// The parameters that ask for a thread with its turns.
pub open spec fn thread_read_of(thread_id: Seq<char>) -> JsonView {
    JsonView::Object(
        seq![("threadId"@, JsonView::Text(thread_id)), ("includeTurns"@, JsonView::Bool(true))],
    )
}

/// The parameters that ask for a thread with its turns.
pub fn thread_read_params(thread_id: &str) -> (r: JsonValue)
    ensures
        r@ == thread_read_of(thread_id@),
{
    broadcast use JsonValue::lemma_object_view;

    let mut params: Vec<(String, JsonValue)> = Vec::new();
    params.push(("threadId".to_owned(), JsonValue::Text(thread_id.to_owned())));
    params.push(("includeTurns".to_owned(), JsonValue::Bool(true)));
    let r = JsonValue::Object(params);
    assert(r@->Object_0 =~= thread_read_of(thread_id@)->Object_0);
    r
}

/// The list of threads with a thread's latest summary: in the place of the summary with the same
/// identifier, else at the head. A summary that says nothing new changes nothing.
pub open spec fn upserted(
    style: PathStyle,
    threads: Seq<SummaryView>,
    summary: SummaryView,
) -> Seq<SummaryView> {
    match thread_position(threads, summary.id) {
        Some(i) => if threads[i].says_same(style, summary) {
            threads
        } else {
            threads.update(i, summary)
        },
        None => seq![summary] + threads,
    }
}

/// The summary says something that the list of threads does not say.
pub open spec fn is_news(
    style: PathStyle,
    threads: Seq<SummaryView>,
    summary: SummaryView,
) -> bool {
    match thread_position(threads, summary.id) {
        Some(i) => !threads[i].says_same(style, summary),
        None => true,
    }
}

/// The position of the first thread with an identifier.
pub open spec fn thread_position(threads: Seq<SummaryView>, id: Seq<char>) -> Option<int>
    decreases threads.len(),
{
    if threads.len() == 0 {
        None
    } else if threads[0].id == id {
        Some(0)
    } else {
        match thread_position(threads.skip(1), id) {
            Some(i) => Some(i + 1),
            None => None,
        }
    }
}

pub proof fn lemma_thread_position(threads: Seq<SummaryView>, id: Seq<char>)
    ensures
        match thread_position(threads, id) {
            Some(i) => 0 <= i < threads.len() && threads[i].id == id && forall|j: int|
                0 <= j < i ==> (#[trigger] threads[j]).id != id,
            None => forall|j: int| 0 <= j < threads.len() ==> (#[trigger] threads[j]).id != id,
        },
    decreases threads.len(),
{
    if threads.len() > 0 && threads[0].id != id {
        let rest = threads.skip(1);
        lemma_thread_position(rest, id);
        match thread_position(rest, id) {
            Some(i) => {
                assert forall|j: int| 0 <= j < i + 1 implies (#[trigger] threads[j]).id != id by {
                    if j > 0 {
                        assert(rest[j - 1] == threads[j]);
                    }
                }
            },
            None => {
                assert forall|j: int| 0 <= j < threads.len() implies (#[trigger] threads[j]).id
                    != id by {
                    if j > 0 {
                        assert(rest[j - 1] == threads[j]);
                    }
                }
            },
        }
    }
}

/// The position of the first thread with an identifier.
pub fn find_thread(threads: &Vec<CodexThreadSummary>, id: &str) -> (r: Option<usize>)
    ensures
        match r {
            Some(i) => i < threads@.len() && thread_position(summary_views(threads@), id@) == Some(
                i as int,
            ),
            None => thread_position(summary_views(threads@), id@) is None,
        },
{
    let ghost all = summary_views(threads@);
    proof {
        lemma_thread_position(all, id@);
    }
    let mut i: usize = 0;
    while i < threads.len()
        invariant
            i <= threads@.len(),
            all == summary_views(threads@),
            match thread_position(all, id@) {
                Some(p) => 0 <= p < all.len() && all[p].id == id@ && forall|j: int|
                    0 <= j < p ==> (#[trigger] all[j]).id != id@,
                None => forall|j: int| 0 <= j < all.len() ==> (#[trigger] all[j]).id != id@,
            },
            forall|j: int| 0 <= j < i ==> (#[trigger] all[j]).id != id@,
        decreases threads@.len() - i,
    {
        assert(all[i as int] == threads@[i as int]@);
        if same(threads[i].id.as_str(), id) {
            return Some(i);
        }
        i = i + 1;
    }
    None
}

/// Puts a thread's latest summary into the list, and says whether the list changed.
pub fn upsert_thread_summary(
    style: PathStyle,
    threads: &mut Vec<CodexThreadSummary>,
    summary: CodexThreadSummary,
) -> (changed: bool)
    ensures
        summary_views(final(threads)@) == upserted(style, summary_views(old(threads)@), summary@),
        changed == is_news(style, summary_views(old(threads)@), summary@),
{
    let ghost before = summary_views(threads@);
    proof {
        lemma_thread_position(before, summary@.id);
    }
    match find_thread(threads, summary.id.as_str()) {
        Some(i) => {
            assert(before[i as int] == threads@[i as int]@);
            if threads[i].same_as(style, &summary) {
                false
            } else {
                threads.set(i, summary);
                assert(summary_views(threads@) =~= before.update(i as int, summary@));
                true
            }
        },
        None => {
            threads.insert(0, summary);
            assert(summary_views(threads@) =~= seq![summary@] + before);
            true
        },
    }
}

/// Putting the same summary into the list a second time changes nothing, and says nothing new.
pub proof fn law_upsert_idempotent(
    style: PathStyle,
    threads: Seq<SummaryView>,
    summary: SummaryView,
)
    ensures
        upserted(
            style,
            upserted(style, threads, summary),
            summary,
        ) == upserted(style, threads, summary),
        !is_news(style, upserted(style, threads, summary), summary),
        lists_thread(upserted(style, threads, summary), summary.id),
{
    let once = upserted(style, threads, summary);
    lemma_thread_position(threads, summary.id);
    lemma_thread_position(once, summary.id);
    match thread_position(threads, summary.id) {
        Some(i) => {
            assert(once[i].id == summary.id);
            assert forall|j: int| 0 <= j < i implies (#[trigger] once[j]).id != summary.id by {
                assert(once[j] == threads[j]);
            }
            match thread_position(once, summary.id) {
                Some(k) => {
                    if k < i {
                        assert(once[k].id != summary.id);
                    }
                    assert(k == i);
                },
                None => {
                    assert(once[i].id != summary.id);
                },
            }
        },
        None => {
            assert(once[0] == summary);
        },
    }
}

/// A thread is resumed before a turn unless it was started on the same connection.
pub fn should_resume_thread(started_thread_id: Option<&str>, thread_id: &str) -> (r: bool)
    ensures
        r == (opt_str_view(started_thread_id) != Some(thread_id@)),
{
    match started_thread_id {
        Some(started) => !same(started, thread_id),
        None => true,
    }
}

/// What was polled is shown unless it would replace items by none.
pub open spec fn applies_polled(current: Option<DetailView>, next: DetailView) -> bool {
    next.items.len() > 0 || (match current {
        Some(current) => current.items.len() == 0,
        None => true,
    })
}

/// The model of a borrowed optional thread.
pub open spec fn opt_detail_ref(detail: Option<&CodexThreadDetail>) -> Option<DetailView> {
    match detail {
        Some(detail) => Some(detail@),
        None => None,
    }
}

/// What was polled is shown unless it would replace items by none.
pub fn should_apply_polled_thread_detail(
    current: Option<&CodexThreadDetail>,
    next: &CodexThreadDetail,
) -> (r: bool)
    ensures
        r == applies_polled(opt_detail_ref(current), next@),
{
    assert(next@.items.len() == next.items@.len());
    next.items.len() > 0 || match current {
        Some(current) => {
            assert(current@.items.len() == current.items@.len());
            current.items.len() == 0
        },
        None => true,
    }
}

} // verus!
