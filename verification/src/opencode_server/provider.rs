//! The models that the providers of an OpenCode server offer.
use crate::decode::{optional_text, read_optional_text, read_text};
use crate::json::{JsonValue, JsonView, canonical_entries, entry_views, json_views, sorted_entries};
use crate::members::{names_of, read_stated, stated, states_twice, twice_stated};
use crate::modeled::contents;
use crate::opencode_server::types::{ModelInfoView, OpenCodeModelInfo};
use crate::ordered::{
    Ranked, is_order, is_sorted, law_sorted_in_order, law_sorting_keeps_items, models, sorted_by,
    stable_sort,
};
use crate::text::{concat3, lemma_text_lt_total, lemma_text_lt_trans, less, opt_view, same, text_lt};
use crate::text_map::{find_value, pair_views, value_under};
use vstd::prelude::*;

verus! {

/// A model as its provider describes it, with the key that it stands under.
#[derive(Debug, PartialEq, Eq)]
pub struct OpenCodeProviderModelWire {
    pub key: String,
    pub id: Option<String>,
    pub name: Option<String>,
}

/// The model of an `OpenCodeProviderModelWire`.
pub struct ProviderModelView {
    pub key: Seq<char>,
    pub id: Option<Seq<char>>,
    pub name: Option<Seq<char>>,
}

/// A provider and its models.
#[derive(Debug, PartialEq, Eq)]
pub struct OpenCodeProviderWire {
    pub id: String,
    pub name: Option<String>,
    pub models: Vec<OpenCodeProviderModelWire>,
}

/// The model of an `OpenCodeProviderWire`.
pub struct ProviderView {
    pub id: Seq<char>,
    pub name: Option<Seq<char>>,
    pub models: Seq<ProviderModelView>,
}

/// The providers of a server, and the model that each of them prefers.
#[derive(Debug, PartialEq, Eq)]
pub struct ProviderListWire {
    pub providers: Vec<OpenCodeProviderWire>,
    pub default: Vec<(String, String)>,
}

/// The model of a `ProviderListWire`.
pub struct ProviderListView {
    pub providers: Seq<ProviderView>,
    pub default: Seq<(Seq<char>, Seq<char>)>,
}

impl OpenCodeProviderModelWire {
    pub open spec fn view(&self) -> ProviderModelView {
        ProviderModelView { key: self.key@, id: opt_view(self.id), name: opt_view(self.name) }
    }
}

/// The models of a list of described models.
pub open spec fn provider_model_views(models: Seq<OpenCodeProviderModelWire>) -> Seq<
    ProviderModelView,
> {
    models.map_values(|m: OpenCodeProviderModelWire| m@)
}

impl OpenCodeProviderWire {
    pub open spec fn view(&self) -> ProviderView {
        ProviderView {
            id: self.id@,
            name: opt_view(self.name),
            models: provider_model_views(self.models@),
        }
    }
}

/// The models of a list of providers.
pub open spec fn provider_views(providers: Seq<OpenCodeProviderWire>) -> Seq<ProviderView> {
    providers.map_values(|p: OpenCodeProviderWire| p@)
}

impl ProviderListWire {
    pub open spec fn view(&self) -> ProviderListView {
        ProviderListView {
            providers: provider_views(self.providers@),
            default: pair_views(self.default@),
        }
    }
}

/// The models that the entries of an object describe.
pub open spec fn described_models(entries: Seq<(Seq<char>, JsonView)>) -> Option<
    Seq<ProviderModelView>,
>
    decreases entries.len(),
{
    if entries.len() == 0 {
        Some(Seq::empty())
    } else {
        match (
            described_models(entries.drop_last()),
            stated(entries.last().1, seq!["id"@, "name"@], 2),
        ) {
            (Some(before), Some(value)) => match (
                optional_text(value, "id"@),
                optional_text(value, "name"@),
            ) {
                (Some(id), Some(name)) => Some(
                    before.push(ProviderModelView { key: entries.last().0, id, name }),
                ),
                _ => None,
            },
            _ => None,
        }
    }
}

/// The texts that the entries of an object hold.
pub open spec fn text_entries(entries: Seq<(Seq<char>, JsonView)>) -> Option<
    Seq<(Seq<char>, Seq<char>)>,
>
    decreases entries.len(),
{
    if entries.len() == 0 {
        Some(Seq::empty())
    } else {
        match (text_entries(entries.drop_last()), entries.last().1) {
            (Some(before), JsonView::Text(s)) => Some(before.push((entries.last().0, s))),
            _ => None,
        }
    }
}

/// The entries of an object that may be left out.
pub open spec fn entries_under(value: JsonView, key: Seq<char>) -> Option<
    Seq<(Seq<char>, JsonView)>,
> {
    match value.get(key) {
        None => Some(Seq::empty()),
        Some(JsonView::Object(entries)) => Some(entries),
        _ => None,
    }
}

/// The entries of a map: of those with one key the last, in the order of keys.
pub open spec fn map_entries(entries: Seq<(Seq<char>, JsonView)>) -> Seq<(Seq<char>, JsonView)> {
    sorted_entries(canonical_entries(entries))
}

/// The models of a map, where each entry describes one.
pub open spec fn mapped_models(entries: Seq<(Seq<char>, JsonView)>) -> Option<
    Seq<ProviderModelView>,
> {
    if described_models(entries) is Some {
        described_models(map_entries(entries))
    } else {
        None
    }
}

/// The texts of a map, where each entry holds one.
pub open spec fn mapped_texts(entries: Seq<(Seq<char>, JsonView)>) -> Option<
    Seq<(Seq<char>, Seq<char>)>,
> {
    if text_entries(entries) is Some {
        text_entries(map_entries(entries))
    } else {
        None
    }
}

/// The provider that a document describes.
pub open spec fn provider_of(value: JsonView) -> Option<ProviderView> {
    match stated(value, seq!["id"@, "name"@, "models"@], 2) {
        Some(value) => provider_members(value),
        None => None,
    }
}

/// The same, of an object that states no member twice.
pub open spec fn provider_members(value: JsonView) -> Option<ProviderView> {
    match (
        value.get_text("id"@),
        optional_text(value, "name"@),
        match entries_under(value, "models"@) {
            Some(entries) => mapped_models(entries),
            None => None,
        },
    ) {
        (Some(id), Some(name), Some(models)) => Some(ProviderView { id, name, models }),
        _ => None,
    }
}

/// The providers that the items of an array describe.
pub open spec fn providers_of(items: Seq<JsonView>) -> Option<Seq<ProviderView>>
    decreases items.len(),
{
    if items.len() == 0 {
        Some(Seq::empty())
    } else {
        match (providers_of(items.drop_last()), provider_of(items.last())) {
            (Some(before), Some(provider)) => Some(before.push(provider)),
            _ => None,
        }
    }
}

/// The list of providers: under `providers` or under `all`, not under both.
pub open spec fn provider_items(value: JsonView) -> Option<Seq<JsonView>> {
    match (value.get("providers"@), value.get("all"@)) {
        (None, None) => Some(Seq::empty()),
        (Some(JsonView::Array(items)), None) => Some(items),
        (None, Some(JsonView::Array(items))) => Some(items),
        _ => None,
    }
}

/// The providers of a server, as a document describes them.
pub open spec fn provider_list_of(value: JsonView) -> Option<ProviderListView> {
    if states_twice(value, "all"@) {
        None
    } else {
        match stated(value, seq!["providers"@, "default"@], 0) {
            Some(value) => provider_list_members(value),
            None => None,
        }
    }
}

/// The same, of an object that states no member twice.
pub open spec fn provider_list_members(value: JsonView) -> Option<ProviderListView> {
    match (
        match provider_items(value) {
            Some(items) => providers_of(items),
            None => None,
        },
        match entries_under(value, "default"@) {
            Some(entries) => mapped_texts(entries),
            None => None,
        },
    ) {
        (Some(providers), Some(default)) => Some(ProviderListView { providers, default }),
        _ => None,
    }
}

proof fn lemma_models_prefix(entries: Seq<(Seq<char>, JsonView)>, n: int)
    requires
        0 <= n <= entries.len(),
        described_models(entries.take(n)) is None,
    ensures
        described_models(entries) is None,
    decreases entries.len(),
{
    if n == entries.len() {
        assert(entries.take(n) =~= entries);
    } else {
        assert(entries.drop_last().take(n) =~= entries.take(n));
        lemma_models_prefix(entries.drop_last(), n);
    }
}

proof fn lemma_text_entries_prefix(entries: Seq<(Seq<char>, JsonView)>, n: int)
    requires
        0 <= n <= entries.len(),
        text_entries(entries.take(n)) is None,
    ensures
        text_entries(entries) is None,
    decreases entries.len(),
{
    if n == entries.len() {
        assert(entries.take(n) =~= entries);
    } else {
        assert(entries.drop_last().take(n) =~= entries.take(n));
        lemma_text_entries_prefix(entries.drop_last(), n);
    }
}

proof fn lemma_providers_prefix(items: Seq<JsonView>, n: int)
    requires
        0 <= n <= items.len(),
        providers_of(items.take(n)) is None,
    ensures
        providers_of(items) is None,
    decreases items.len(),
{
    if n == items.len() {
        assert(items.take(n) =~= items);
    } else {
        assert(items.drop_last().take(n) =~= items.take(n));
        lemma_providers_prefix(items.drop_last(), n);
    }
}

fn read_models(entries: &Vec<(String, JsonValue)>) -> (r: Option<Vec<OpenCodeProviderModelWire>>)
    ensures
        match r {
            Some(models) => described_models(entry_views(entries@)) == Some(
                provider_model_views(models@),
            ),
            None => described_models(entry_views(entries@)) is None,
        },
{
    let ghost all = entry_views(entries@);
    let mut r: Vec<OpenCodeProviderModelWire> = Vec::new();
    let mut i: usize = 0;
    assert(provider_model_views(r@) =~= Seq::empty());
    assert(described_models(all.take(0)) == Some(provider_model_views(r@)));
    while i < entries.len()
        invariant
            i <= entries@.len(),
            all == entry_views(entries@),
            described_models(all.take(i as int)) == Some(provider_model_views(r@)),
        decreases entries@.len() - i,
    {
        let ghost done = provider_model_views(r@);
        let value = &entries[i].1;
        proof {
            assert(all.take(i as int + 1).drop_last() =~= all.take(i as int));
            assert(all.take(i as int + 1).last() == (entries@[i as int].0@, value@));
        }
        assert(names_of(["id", "name"]@) =~= seq!["id"@, "name"@]);
        let described = match read_stated(value, &["id", "name"], 2) {
            Some(value) => match (
                read_optional_text(&value, "id"),
                read_optional_text(&value, "name"),
            ) {
                (Some(id), Some(name)) => Some((id, name)),
                _ => None,
            },
            None => None,
        };
        match described {
            Some((id, name)) => {
                let model = OpenCodeProviderModelWire { key: entries[i].0.clone(), id, name };
                r.push(model);
                assert(provider_model_views(r@) =~= done.push(model@));
            },
            None => {
                proof {
                    lemma_models_prefix(all, i as int + 1);
                }
                return None;
            },
        }
        i = i + 1;
    }
    assert(all.take(i as int) =~= all);
    Some(r)
}

fn read_text_entries(entries: &Vec<(String, JsonValue)>) -> (r: Option<Vec<(String, String)>>)
    ensures
        match r {
            Some(pairs) => text_entries(entry_views(entries@)) == Some(pair_views(pairs@)),
            None => text_entries(entry_views(entries@)) is None,
        },
{
    let ghost all = entry_views(entries@);
    let mut r: Vec<(String, String)> = Vec::new();
    let mut i: usize = 0;
    assert(pair_views(r@) =~= Seq::empty());
    assert(text_entries(all.take(0)) == Some(pair_views(r@)));
    while i < entries.len()
        invariant
            i <= entries@.len(),
            all == entry_views(entries@),
            text_entries(all.take(i as int)) == Some(pair_views(r@)),
        decreases entries@.len() - i,
    {
        let ghost done = pair_views(r@);
        proof {
            assert(all.take(i as int + 1).drop_last() =~= all.take(i as int));
            assert(all.take(i as int + 1).last() == (entries@[i as int].0@, entries@[i as int].1@));
        }
        match &entries[i].1 {
            JsonValue::Text(s) => {
                r.push((entries[i].0.clone(), s.clone()));
                assert(pair_views(r@) =~= done.push((entries@[i as int].0@, s@)));
            },
            _ => {
                proof {
                    lemma_text_entries_prefix(all, i as int + 1);
                }
                return None;
            },
        }
        i = i + 1;
    }
    assert(all.take(i as int) =~= all);
    Some(r)
}

fn settled_entries(entries: &Vec<(String, JsonValue)>) -> (r: Vec<(String, JsonValue)>)
    ensures
        entry_views(r@) == map_entries(entry_views(entries@)),
{
    broadcast use {JsonValue::lemma_object_view, JsonValue::lemma_array_view};

    let mut out: Vec<(String, JsonValue)> = Vec::new();
    let ghost all = entry_views(entries@);
    let mut i: usize = 0;
    assert(entry_views(out@) =~= all.take(0));
    while i < entries.len()
        invariant
            i <= entries@.len(),
            all == entry_views(entries@),
            entry_views(out@) == all.take(i as int),
        decreases entries@.len() - i,
    {
        let ghost done = entry_views(out@);
        out.push((entries[i].0.clone(), entries[i].1.clone()));
        assert(entry_views(out@) =~= done.push(all[i as int]));
        assert(all.take(i as int + 1) =~= done.push(all[i as int]));
        i = i + 1;
    }
    assert(all.take(i as int) =~= all);
    match JsonValue::Object(out).settled() {
        JsonValue::Object(settled) => settled,
        _ => {
            assert(false);
            Vec::new()
        },
    }
}

fn read_mapped_models(entries: &Vec<(String, JsonValue)>) -> (r: Option<
    Vec<OpenCodeProviderModelWire>,
>)
    ensures
        match r {
            Some(models) => mapped_models(entry_views(entries@)) == Some(
                provider_model_views(models@),
            ),
            None => mapped_models(entry_views(entries@)) is None,
        },
{
    if read_models(entries).is_none() {
        return None;
    }
    read_models(&settled_entries(entries))
}

fn read_mapped_texts(entries: &Vec<(String, JsonValue)>) -> (r: Option<Vec<(String, String)>>)
    ensures
        match r {
            Some(pairs) => mapped_texts(entry_views(entries@)) == Some(pair_views(pairs@)),
            None => mapped_texts(entry_views(entries@)) is None,
        },
{
    if read_text_entries(entries).is_none() {
        return None;
    }
    read_text_entries(&settled_entries(entries))
}

impl OpenCodeProviderWire {
    /// The provider that a document describes.
    pub fn from_json(value: &JsonValue) -> (r: Option<OpenCodeProviderWire>)
        ensures
            match r {
                Some(provider) => provider_of(value@) == Some(provider@),
                None => provider_of(value@) is None,
            },
    {
        broadcast use {JsonValue::lemma_object_view, JsonValue::lemma_array_view};

        assert(names_of(["id", "name", "models"]@) =~= seq!["id"@, "name"@, "models"@]);
        let value = match read_stated(value, &["id", "name", "models"], 2) {
            Some(value) => value,
            None => {
                return None;
            },
        };
        let models = match value.get("models") {
            None => {
                let models: Vec<OpenCodeProviderModelWire> = Vec::new();
                assert(provider_model_views(models@) =~= Seq::empty());
                Some(models)
            },
            Some(JsonValue::Object(entries)) => read_mapped_models(entries),
            Some(_) => None,
        };
        match (read_text(&value, "id"), read_optional_text(&value, "name"), models) {
            (Some(id), Some(name), Some(models)) => Some(
                OpenCodeProviderWire { id, name, models },
            ),
            _ => None,
        }
    }
}

fn read_providers(items: &Vec<JsonValue>) -> (r: Option<Vec<OpenCodeProviderWire>>)
    ensures
        match r {
            Some(providers) => providers_of(json_views(items@)) == Some(
                provider_views(providers@),
            ),
            None => providers_of(json_views(items@)) is None,
        },
{
    let ghost all = json_views(items@);
    let mut r: Vec<OpenCodeProviderWire> = Vec::new();
    let mut i: usize = 0;
    assert(provider_views(r@) =~= Seq::empty());
    assert(providers_of(all.take(0)) == Some(provider_views(r@)));
    while i < items.len()
        invariant
            i <= items@.len(),
            all == json_views(items@),
            providers_of(all.take(i as int)) == Some(provider_views(r@)),
        decreases items@.len() - i,
    {
        let ghost done = provider_views(r@);
        proof {
            assert(all.take(i as int + 1).drop_last() =~= all.take(i as int));
            assert(all.take(i as int + 1).last() == items@[i as int]@);
        }
        match OpenCodeProviderWire::from_json(&items[i]) {
            Some(provider) => {
                r.push(provider);
                assert(provider_views(r@) =~= done.push(provider@));
            },
            None => {
                proof {
                    lemma_providers_prefix(all, i as int + 1);
                }
                return None;
            },
        }
        i = i + 1;
    }
    assert(all.take(i as int) =~= all);
    Some(r)
}

impl ProviderListWire {
    /// The providers of a server, as a document describes them.
    pub fn from_json(value: &JsonValue) -> (r: Option<ProviderListWire>)
        ensures
            match r {
                Some(list) => provider_list_of(value@) == Some(list@),
                None => provider_list_of(value@) is None,
            },
    {
        broadcast use {JsonValue::lemma_object_view, JsonValue::lemma_array_view};

        if twice_stated(value, "all") {
            return None;
        }
        assert(names_of(["providers", "default"]@) =~= seq!["providers"@, "default"@]);
        let value = match read_stated(value, &["providers", "default"], 0) {
            Some(value) => value,
            None => {
                return None;
            },
        };
        let providers = match (value.get("providers"), value.get("all")) {
            (None, None) => {
                let providers: Vec<OpenCodeProviderWire> = Vec::new();
                assert(provider_views(providers@) =~= Seq::empty());
                Some(providers)
            },
            (Some(JsonValue::Array(items)), None) => read_providers(items),
            (None, Some(JsonValue::Array(items))) => read_providers(items),
            _ => None,
        };
        let default = match value.get("default") {
            None => {
                let default: Vec<(String, String)> = Vec::new();
                assert(pair_views(default@) =~= Seq::empty());
                Some(default)
            },
            Some(JsonValue::Object(entries)) => read_mapped_texts(entries),
            Some(_) => None,
        };
        match (providers, default) {
            (Some(providers), Some(default)) => Some(ProviderListWire { providers, default }),
            _ => None,
        }
    }
}

/// A model as the panel offers it: named after its provider, and told apart by both identifiers.
pub open spec fn offered_model(
    provider: ProviderView,
    model: ProviderModelView,
    preferred: Option<Seq<char>>,
) -> ModelInfoView {
    let model_id = match model.id {
        Some(id) => id,
        None => model.key,
    };
    ModelInfoView {
        id: provider.id + "/"@ + model_id,
        display_name: (match provider.name {
            Some(name) => name,
            None => provider.id,
        }) + ": "@ + (match model.name {
            Some(name) => name,
            None => model_id,
        }),
        provider_id: provider.id,
        model_id,
        is_default: preferred == Some(model_id),
    }
}

/// The models that a provider offers.
pub open spec fn offered_by(provider: ProviderView, preferred: Option<Seq<char>>) -> Seq<
    ModelInfoView,
> {
    provider.models.map_values(|m: ProviderModelView| offered_model(provider, m, preferred))
}

/// The models that the providers offer, one provider after the other.
pub open spec fn offered_models(
    providers: Seq<ProviderView>,
    default: Seq<(Seq<char>, Seq<char>)>,
) -> Seq<ModelInfoView>
    decreases providers.len(),
{
    if providers.len() == 0 {
        Seq::empty()
    } else {
        offered_models(providers.drop_last(), default) + offered_by(
            providers.last(),
            value_under(default, providers.last().id),
        )
    }
}

/// The order of the list of models: the preferred ones first, then by name.
pub open spec fn model_precedes(a: ModelInfoView, b: ModelInfoView) -> bool {
    (a.is_default && !b.is_default) || (a.is_default == b.is_default && text_lt(
        a.display_name,
        b.display_name,
    ))
}

/// The list of models.
pub open spec fn model_list(list: ProviderListView) -> Seq<ModelInfoView> {
    sorted_by(
        offered_models(list.providers, list.default),
        |a: ModelInfoView, b: ModelInfoView| model_precedes(a, b),
    )
}

/// The list of models is in its order and holds what the providers offer: the preferred ones come
/// first, and none stands behind one with a later name.
pub proof fn law_model_list_in_order(list: ProviderListView)
    ensures
        is_sorted(model_list(list), |a: ModelInfoView, b: ModelInfoView| model_precedes(a, b)),
        model_list(list).to_multiset() == offered_models(
            list.providers,
            list.default,
        ).to_multiset(),
{
    let precedes = |a: ModelInfoView, b: ModelInfoView| model_precedes(a, b);
    assert(is_order(precedes)) by {
        assert forall|a: ModelInfoView, b: ModelInfoView| #[trigger]
            precedes(a, b) implies !precedes(b, a) by {
            lemma_text_lt_total(a.display_name, b.display_name);
        }
        assert forall|a: ModelInfoView, b: ModelInfoView, c: ModelInfoView|
            !#[trigger] precedes(b, a) && !#[trigger] precedes(c, b) implies !precedes(c, a) by {
            lemma_text_lt_total(a.display_name, b.display_name);
            lemma_text_lt_total(b.display_name, c.display_name);
            lemma_text_lt_total(a.display_name, c.display_name);
            if text_lt(a.display_name, b.display_name) && text_lt(b.display_name, c.display_name) {
                lemma_text_lt_trans(a.display_name, b.display_name, c.display_name);
            }
        }
    }
    law_sorted_in_order(offered_models(list.providers, list.default), precedes);
    law_sorting_keeps_items(offered_models(list.providers, list.default), precedes);
}

impl Ranked for OpenCodeModelInfo {
    type Model = ModelInfoView;

    open spec fn model(&self) -> ModelInfoView {
        self@
    }

    open spec fn precedes(a: ModelInfoView, b: ModelInfoView) -> bool {
        model_precedes(a, b)
    }

    fn is_before(&self, other: &Self) -> (r: bool) {
        (self.is_default && !other.is_default) || (self.is_default == other.is_default && less(
            self.display_name.as_str(),
            other.display_name.as_str(),
        ))
    }
}

fn offer_model(
    provider: &OpenCodeProviderWire,
    model: &OpenCodeProviderModelWire,
    preferred: &Option<String>,
) -> (r: OpenCodeModelInfo)
    ensures
        r@ == offered_model(provider@, model@, opt_view(*preferred)),
{
    let model_id = match &model.id {
        Some(id) => id.as_str(),
        None => model.key.as_str(),
    };
    let provider_name = match &provider.name {
        Some(name) => name.as_str(),
        None => provider.id.as_str(),
    };
    let model_name = match &model.name {
        Some(name) => name.as_str(),
        None => model_id,
    };
    let is_default = match preferred {
        Some(preferred) => same(preferred.as_str(), model_id),
        None => false,
    };
    OpenCodeModelInfo {
        id: concat3(provider.id.as_str(), "/", model_id),
        display_name: concat3(provider_name, ": ", model_name),
        provider_id: provider.id.clone(),
        model_id: model_id.to_owned(),
        is_default,
    }
}

fn push_offers(
    offers: &mut Vec<OpenCodeModelInfo>,
    provider: &OpenCodeProviderWire,
    preferred: &Option<String>,
)
    ensures
        contents(final(offers)@) == contents(old(offers)@) + offered_by(
            provider@,
            opt_view(*preferred),
        ),
{
    let ghost start = contents(offers@);
    let ghost all = offered_by(provider@, opt_view(*preferred));
    let mut i: usize = 0;
    assert(start + all.take(0) =~= start);
    while i < provider.models.len()
        invariant
            i <= provider.models@.len(),
            all == offered_by(provider@, opt_view(*preferred)),
            contents(offers@) == start + all.take(i as int),
        decreases provider.models@.len() - i,
    {
        let ghost done = contents(offers@);
        let offer = offer_model(provider, &provider.models[i], preferred);
        offers.push(offer);
        proof {
            assert(provider@.models[i as int] == provider.models@[i as int]@);
            assert(all[i as int] == offer@);
            assert(contents(offers@) =~= done.push(offer@));
            assert(start + all.take(i as int + 1) =~= done.push(all[i as int]));
        }
        i = i + 1;
    }
    assert(all.take(i as int) =~= all);
}

/// The list of models.
pub fn provider_list_to_models(response: &ProviderListWire) -> (r: Vec<OpenCodeModelInfo>)
    ensures
        contents(r@) == model_list(response@),
{
    let ghost all = provider_views(response.providers@);
    let ghost default = pair_views(response.default@);
    let mut offers: Vec<OpenCodeModelInfo> = Vec::new();
    let mut i: usize = 0;
    assert(contents(offers@) =~= offered_models(all.take(0), default));
    while i < response.providers.len()
        invariant
            i <= response.providers@.len(),
            all == provider_views(response.providers@),
            default == pair_views(response.default@),
            contents(offers@) == offered_models(all.take(i as int), default),
        decreases response.providers@.len() - i,
    {
        proof {
            assert(all.take(i as int + 1).drop_last() =~= all.take(i as int));
            assert(all.take(i as int + 1).last() == response.providers@[i as int]@);
        }
        let preferred = find_value(&response.default, response.providers[i].id.as_str());
        push_offers(&mut offers, &response.providers[i], &preferred);
        i = i + 1;
    }
    assert(all.take(i as int) =~= all);
    let ghost before = contents(offers@);
    let r = stable_sort(offers);
    proof {
        assert(models(offers@) =~= before);
        assert(models(r@) =~= contents(r@));
        assert((|a: ModelInfoView, b: ModelInfoView| OpenCodeModelInfo::precedes(a, b)) =~= (
        |a: ModelInfoView, b: ModelInfoView| model_precedes(a, b)));
    }
    r
}

} // verus!
