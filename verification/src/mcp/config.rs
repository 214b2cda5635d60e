//! The terminal's own configuration file of servers.
use crate::json::{
    JsonValue, JsonView, canonical, entry_views, insert_entry, json_parse, lookup, opt_json_view,
    parse_view, pretty_text,
};
use crate::opencode_server::wire::is_object;
use crate::text::{
    blank, concat2, concat3, decimal, decimal_of, is_blank, less, opt_str_view, same, text_lt,
    text_result,
};
use vstd::prelude::*;

verus! {

/// Where a configuration keeps its servers.
pub enum ServersPlace {
    Nested,
    Under { key: Seq<char> },
}

/// The document is an object.
pub open spec fn is_some_object(value: Option<JsonView>) -> bool {
    value is Some && value->0 is Object
}

/// The value under `servers` in the value under `mcp`.
pub open spec fn nested_servers(config: JsonView) -> Option<JsonView> {
    match config.get("mcp"@) {
        Some(inner) => inner.get("servers"@),
        None => None,
    }
}

/// Where a configuration keeps its servers, or why it cannot keep any. The first place that holds
/// an object counts; where none does, they are kept under `mcpServers`.
pub open spec fn servers_place(config: JsonView) -> Result<ServersPlace, Seq<char>> {
    if is_some_object(nested_servers(config)) {
        Ok(ServersPlace::Nested)
    } else if is_some_object(config.get("servers"@)) {
        Ok(ServersPlace::Under { key: "servers"@ })
    } else if is_some_object(config.get("mcpServers"@)) {
        Ok(ServersPlace::Under { key: "mcpServers"@ })
    } else if is_some_object(config.get("mcp_servers"@)) {
        Ok(ServersPlace::Under { key: "mcp_servers"@ })
    } else if !(config is Object) {
        Err("Warp MCP config is not a JSON object"@)
    } else if config.get("mcpServers"@) is Some {
        Err("mcpServers is not a JSON object"@)
    } else {
        Ok(ServersPlace::Under { key: "mcpServers"@ })
    }
}

/// The entries of an object; none where the value is none or no object.
pub open spec fn entries_of(value: Option<JsonView>) -> Seq<(Seq<char>, JsonView)> {
    match value {
        Some(JsonView::Object(entries)) => entries,
        _ => Seq::empty(),
    }
}

/// The entries with further ones, each in its place; one with the same key gives way.
pub open spec fn extended(
    entries: Seq<(Seq<char>, JsonView)>,
    more: Seq<(Seq<char>, JsonView)>,
) -> Seq<(Seq<char>, JsonView)>
    decreases more.len(),
{
    if more.len() == 0 {
        entries
    } else {
        insert_entry(extended(entries, more.drop_last()), more.last())
    }
}

/// The object with a member.
pub open spec fn with_member(value: JsonView, key: Seq<char>, member: JsonView) -> JsonView {
    JsonView::Object(insert_entry(entries_of(Some(value)), (key, member)))
}

/// The configuration with further servers.
pub open spec fn with_servers(
    config: JsonView,
    place: ServersPlace,
    servers: Seq<(Seq<char>, JsonView)>,
) -> JsonView {
    match place {
        ServersPlace::Nested => with_member(
            config,
            "mcp"@,
            with_member(
                config.get("mcp"@)->0,
                "servers"@,
                JsonView::Object(extended(entries_of(nested_servers(config)), servers)),
            ),
        ),
        ServersPlace::Under { key } => with_member(
            config,
            key,
            JsonView::Object(extended(entries_of(config.get(key)), servers)),
        ),
    }
}

/// The one server that the resolved configuration of an installation describes, or why it
/// describes none.
pub open spec fn resolved_server(name: Seq<char>, resolved: Seq<char>) -> Result<
    Seq<(Seq<char>, JsonView)>,
    Seq<char>,
> {
    match json_parse(resolved) {
        Err(error) => Err(error),
        Ok(JsonView::Object(entries)) => if entries.len() == 1 {
            Ok(entries)
        } else {
            Err(
                "resolved MCP server config for '"@ + name
                    + "' must contain exactly one server, found "@ + decimal(entries.len()),
            )
        },
        Ok(_) => Err("resolved MCP server config for '"@ + name + "' is not a JSON object"@),
    }
}

/// The configuration that a file holds; an empty one where the file is missing or blank.
pub open spec fn config_of_file(contents: Option<Seq<char>>) -> Result<JsonView, Seq<char>> {
    match contents {
        None => Ok(JsonView::Object(Seq::empty())),
        Some(text) => if is_blank(text) {
            Ok(JsonView::Object(Seq::empty()))
        } else {
            json_parse(text)
        },
    }
}

/// The configuration file with the server of an installation, or why it cannot be added.
pub open spec fn merged_config(
    contents: Option<Seq<char>>,
    name: Seq<char>,
    resolved: Seq<char>,
) -> Result<Seq<char>, Seq<char>> {
    match (resolved_server(name, resolved), config_of_file(contents)) {
        (Err(error), _) => Err(error),
        (Ok(_), Err(error)) => Err(error),
        (Ok(server), Ok(config)) => match servers_place(config) {
            Err(error) => Err(error),
            Ok(place) => Ok(
                pretty_text(canonical(with_servers(config, place, server))) + "\n"@,
            ),
        },
    }
}

/// What was put under a key of an object is found there, and nothing else changes.
pub proof fn law_inserted_member(
    entries: Seq<(Seq<char>, JsonView)>,
    key: Seq<char>,
    member: JsonView,
    other: Seq<char>,
)
    ensures
        lookup(insert_entry(entries, (key, member)), other) == (if other == key {
            Some(member)
        } else {
            lookup(entries, other)
        }),
    decreases entries.len(),
{
    reveal_with_fuel(lookup, 2);
    let e = (key, member);
    let all = insert_entry(entries, e);
    if entries.len() == 0 {
        assert(all.skip(1) =~= Seq::empty());
    } else if entries[0].0 == key {
        assert(all.skip(1) =~= entries.skip(1));
    } else if text_lt(key, entries[0].0) {
        assert(all.skip(1) =~= entries);
    } else {
        law_inserted_member(entries.skip(1), key, member, other);
        assert(all.skip(1) =~= insert_entry(entries.skip(1), e));
        assert(all[0] == entries[0]);
    }
}

/// Adding the server of an installation keeps every other server and every other member of the
/// configuration, and the server is then found where the configuration keeps its servers.
pub proof fn law_merge_keeps_the_rest(
    config: JsonView,
    server: (Seq<char>, JsonView),
    other: Seq<char>,
)
    requires
        servers_place(config) is Ok,
    ensures
        ({
            let place = servers_place(config)->Ok_0;
            let merged = with_servers(config, place, seq![server]);
            match place {
                ServersPlace::Nested => is_some_object(nested_servers(merged)) && nested_servers(
                    merged,
                )->0.get(server.0) == Some(server.1) && (other != server.0 ==> nested_servers(
                    merged,
                )->0.get(other) == nested_servers(config)->0.get(other)) && (other != "mcp"@
                    ==> merged.get(other) == config.get(other)),
                ServersPlace::Under { key } => is_some_object(merged.get(key)) && merged.get(
                    key,
                )->0.get(server.0) == Some(server.1) && (other != server.0 ==> merged.get(
                    key,
                )->0.get(other) == lookup(entries_of(config.get(key)), other)) && (other != key
                    ==> merged.get(other) == config.get(other)),
            }
        }),
{
    let place = servers_place(config)->Ok_0;
    let servers = seq![server];
    assert(servers.drop_last() =~= Seq::empty());
    match place {
        ServersPlace::Nested => {
            let inner = entries_of(nested_servers(config));
            assert(extended(inner, servers.drop_last()) == inner);
            let put = insert_entry(inner, server);
            assert(extended(inner, servers) == put);
            law_inserted_member(inner, server.0, server.1, server.0);
            law_inserted_member(inner, server.0, server.1, other);
            let mcp = entries_of(config.get("mcp"@));
            law_inserted_member(mcp, "servers"@, JsonView::Object(put), "servers"@);
            let wrapped = with_member(config.get("mcp"@)->0, "servers"@, JsonView::Object(put));
            law_inserted_member(entries_of(Some(config)), "mcp"@, wrapped, "mcp"@);
            law_inserted_member(entries_of(Some(config)), "mcp"@, wrapped, other);
        },
        ServersPlace::Under { key } => {
            let inner = entries_of(config.get(key));
            assert(extended(inner, servers.drop_last()) == inner);
            let put = insert_entry(inner, server);
            assert(extended(inner, servers) == put);
            law_inserted_member(inner, server.0, server.1, server.0);
            law_inserted_member(inner, server.0, server.1, other);
            law_inserted_member(entries_of(Some(config)), key, JsonView::Object(put), key);
            law_inserted_member(entries_of(Some(config)), key, JsonView::Object(put), other);
        },
    }
}

/// Puts a member in its place among the entries of an object.
fn put_member(entries: &mut Vec<(String, JsonValue)>, key: &str, member: JsonValue)
    ensures
        entry_views(final(entries)@) == insert_entry(entry_views(old(entries)@), (key@, member@)),
{
    let ghost all = entry_views(entries@);
    let ghost e = (key@, member@);
    let mut i: usize = 0;
    assert(all.skip(0) =~= all);
    assert(all.take(0) + insert_entry(all.skip(0), e) =~= insert_entry(all, e));
    while i < entries.len() && !same(entries[i].0.as_str(), key) && !less(
        key,
        entries[i].0.as_str(),
    )
        invariant
            i <= entries@.len(),
            all == entry_views(entries@),
            e == (key@, member@),
            insert_entry(all, e) == all.take(i as int) + insert_entry(all.skip(i as int), e),
        decreases entries@.len() - i,
    {
        proof {
            let rest = all.skip(i as int);
            assert(rest[0] == (entries@[i as int].0@, entries@[i as int].1@));
            assert(rest.skip(1) =~= all.skip(i as int + 1));
            assert(all.take(i as int) + (seq![rest[0]] + insert_entry(rest.skip(1), e)) =~= all.take(
                i as int + 1,
            ) + insert_entry(all.skip(i as int + 1), e));
        }
        i = i + 1;
    }
    proof {
        let rest = all.skip(i as int);
        if i < entries@.len() {
            assert(rest[0] == (entries@[i as int].0@, entries@[i as int].1@));
        }
    }
    if i < entries.len() && same(entries[i].0.as_str(), key) {
        entries.set(i, (key.to_owned(), member));
        proof {
            assert(entry_views(entries@) =~= all.update(i as int, e));
            assert(all.update(i as int, e) =~= all.take(i as int) + (seq![e] + all.skip(
                i as int,
            ).skip(1)));
        }
    } else {
        entries.insert(i, (key.to_owned(), member));
        proof {
            assert(entry_views(entries@) =~= all.insert(i as int, e));
            if i < all.len() {
                assert(all.insert(i as int, e) =~= all.take(i as int) + (seq![e] + all.skip(
                    i as int,
                )));
            } else {
                assert(all.insert(i as int, e) =~= all.take(i as int) + seq![e]);
            }
        }
    }
}

fn own_entries(value: Option<&JsonValue>) -> (r: Vec<(String, JsonValue)>)
    ensures
        entry_views(r@) == entries_of(opt_json_view(value)),
{
    broadcast use {JsonValue::lemma_object_view, JsonValue::lemma_array_view};

    let mut r: Vec<(String, JsonValue)> = Vec::new();
    assert(entry_views(r@) =~= Seq::empty());
    if let Some(JsonValue::Object(entries)) = value {
        let ghost all = entry_views(entries@);
        let mut i: usize = 0;
        assert(entry_views(r@) =~= all.take(0));
        while i < entries.len()
            invariant
                i <= entries@.len(),
                all == entry_views(entries@),
                entry_views(r@) == all.take(i as int),
            decreases entries@.len() - i,
        {
            let ghost done = entry_views(r@);
            r.push((entries[i].0.clone(), entries[i].1.clone()));
            assert(entry_views(r@) =~= done.push(all[i as int]));
            assert(all.take(i as int + 1) =~= done.push(all[i as int]));
            i = i + 1;
        }
        assert(all.take(i as int) =~= all);
    }
    r
}

fn extend_entries(entries: Vec<(String, JsonValue)>, more: &Vec<(String, JsonValue)>) -> (r: Vec<
    (String, JsonValue),
>)
    ensures
        entry_views(r@) == extended(entry_views(entries@), entry_views(more@)),
{
    let ghost first = entry_views(entries@);
    let ghost all = entry_views(more@);
    let mut r = entries;
    let mut i: usize = 0;
    assert(all.take(0) =~= Seq::empty());
    while i < more.len()
        invariant
            i <= more@.len(),
            all == entry_views(more@),
            entry_views(r@) == extended(first, all.take(i as int)),
        decreases more@.len() - i,
    {
        proof {
            assert(all.take(i as int + 1).drop_last() =~= all.take(i as int));
            assert(all.take(i as int + 1).last() == (more@[i as int].0@, more@[i as int].1@));
        }
        put_member(&mut r, more[i].0.as_str(), more[i].1.clone());
        i = i + 1;
    }
    assert(all.take(i as int) =~= all);
    r
}

fn set_member(value: &JsonValue, key: &str, member: JsonValue) -> (r: JsonValue)
    ensures
        r@ == with_member(value@, key@, member@),
{
    broadcast use JsonValue::lemma_object_view;

    let mut entries = own_entries(Some(value));
    put_member(&mut entries, key, member);
    JsonValue::Object(entries)
}

fn holds_object(value: Option<&JsonValue>) -> (r: bool)
    ensures
        r == is_some_object(opt_json_view(value)),
{
    match value {
        Some(value) => is_object(value),
        None => false,
    }
}

/// The configuration with further servers, or why it cannot keep any.
pub fn add_servers(config: &JsonValue, servers: &Vec<(String, JsonValue)>) -> (r: Result<
    JsonValue,
    String,
>)
    ensures
        match r {
            Ok(merged) => servers_place(config@) matches Ok(place) && merged@ == with_servers(
                config@,
                place,
                entry_views(servers@),
            ),
            Err(error) => servers_place(config@) == Err::<ServersPlace, Seq<char>>(error@),
        },
{
    broadcast use JsonValue::lemma_object_view;

    if let Some(inner) = config.get("mcp") {
        if holds_object(inner.get("servers")) {
            let all = extend_entries(own_entries(inner.get("servers")), servers);
            let wrapped = set_member(inner, "servers", JsonValue::Object(all));
            return Ok(set_member(config, "mcp", wrapped));
        }
    }
    let key = if holds_object(config.get("servers")) {
        "servers"
    } else if holds_object(config.get("mcpServers")) {
        "mcpServers"
    } else if holds_object(config.get("mcp_servers")) {
        "mcp_servers"
    } else if !is_object(config) {
        return Err("Warp MCP config is not a JSON object".to_owned());
    } else if config.get("mcpServers").is_some() {
        return Err("mcpServers is not a JSON object".to_owned());
    } else {
        "mcpServers"
    };
    let all = extend_entries(own_entries(config.get(key)), servers);
    Ok(set_member(config, key, JsonValue::Object(all)))
}

/// The model of entries or an error.
pub open spec fn entries_result(r: Result<Vec<(String, JsonValue)>, String>) -> Result<
    Seq<(Seq<char>, JsonView)>,
    Seq<char>,
> {
    match r {
        Ok(entries) => Ok(entry_views(entries@)),
        Err(error) => Err(error@),
    }
}

/// The one server that the resolved configuration of an installation describes.
pub fn resolved_server_map(name: &str, resolved_json: &str) -> (r: Result<
    Vec<(String, JsonValue)>,
    String,
>)
    ensures
        entries_result(r) == resolved_server(name@, resolved_json@),
{
    broadcast use {JsonValue::lemma_object_view, JsonValue::lemma_array_view};

    match JsonValue::parse(resolved_json) {
        Err(error) => Err(error),
        Ok(JsonValue::Object(entries)) => {
            let count: usize = entries.len();
            assert(entry_views(entries@).len() == count);
            if count == 1 {
                Ok(entries)
            } else {
                Err(
                    concat2(
                        concat3(
                            "resolved MCP server config for '",
                            name,
                            "' must contain exactly one server, found ",
                        ).as_str(),
                        decimal_of(count as u128).as_str(),
                    ),
                )
            }
        },
        Ok(_) => Err(
            concat3("resolved MCP server config for '", name, "' is not a JSON object"),
        ),
    }
}

/// The configuration that a file holds.
pub fn read_warp_mcp_config(contents: Option<&str>) -> (r: Result<JsonValue, String>)
    ensures
        parse_view(r) == config_of_file(opt_str_view(contents)),
{
    broadcast use JsonValue::lemma_object_view;

    if let Some(text) = contents {
        if !blank(text) {
            return JsonValue::parse(text);
        }
    }
    let entries: Vec<(String, JsonValue)> = Vec::new();
    assert(entry_views(entries@) =~= Seq::empty());
    Ok(JsonValue::Object(entries))
}

/// The configuration file with the server of an installation.
pub fn merge_installation_into_warp_config(
    contents: Option<&str>,
    name: &str,
    resolved_json: &str,
) -> (r: Result<String, String>)
    ensures
        text_result(r) == merged_config(opt_str_view(contents), name@, resolved_json@),
{
    let servers = match resolved_server_map(name, resolved_json) {
        Ok(servers) => servers,
        Err(error) => {
            return Err(error);
        },
    };
    let config = match read_warp_mcp_config(contents) {
        Ok(config) => config,
        Err(error) => {
            return Err(error);
        },
    };
    match add_servers(&config, &servers) {
        Ok(merged) => Ok(concat2(merged.pretty().as_str(), "\n")),
        Err(error) => Err(error),
    }
}

} // verus!
