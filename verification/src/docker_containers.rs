//! The list of running Docker containers.
use crate::decode::{optional_text, read_optional_text, read_text, read_text_view};
use crate::json::{JsonValue, JsonView};
use crate::members::{members_parse, names_of, read_stated, stated};
use crate::shape::{
    Shape, find_optional_part_fault, find_optional_text_fault, find_text_fault, has_shape,
    law_faults, member_fits, optional_part_fault, optional_text_fault, shape_error, shape_fault_of,
    text_fault,
};
use crate::shell::{quote_for_shell, shell_quoted};
use crate::text::{
    blank, chars_of, clone_option, concat2, concat3, find, is_blank, lemma_find, lines, lines_of,
    opt_str_view, opt_view, rfind, rfind_char, same, split_once, string_of, strip_prefix,
    strip_suffix, text_result, trim, trim_start, trim_start_char, trimmed, trimmed_start,
    trimmed_start_char, views,
};
use crate::time::{Timestamp, formatted_time, parse_formatted, parse_rfc3339, rfc3339_time};
use vstd::prelude::*;

verus! {

/// The command that lists the running containers, a JSON object on each line.
pub const DOCKER_LIST_COMMAND: &'static str =
    "sh -lc 'docker ps --format '\"'\"'{{json .}}'\"'\"''";

/// A column that the containers can be sorted by.
#[derive(Clone, Copy, Debug, PartialEq, Eq, Hash, Structural)]
pub enum DockerContainerSortColumn {
    Name,
    Age,
    Image,
}

/// The name of a column.
pub open spec fn column_name(column: DockerContainerSortColumn) -> Seq<char> {
    match column {
        DockerContainerSortColumn::Name => "Name"@,
        DockerContainerSortColumn::Age => "Age"@,
        DockerContainerSortColumn::Image => "Image"@,
    }
}

impl DockerContainerSortColumn {
    /// The name of the column.
    pub fn label(self) -> (r: &'static str)
        ensures
            r@ == column_name(self),
    {
        match self {
            DockerContainerSortColumn::Name => "Name",
            DockerContainerSortColumn::Age => "Age",
            DockerContainerSortColumn::Image => "Image",
        }
    }
}

/// Which way a column is sorted.
#[derive(Clone, Copy, Debug, PartialEq, Eq, Structural)]
pub enum SortDirection {
    Asc,
    Desc,
}

/// The name of a direction.
pub open spec fn direction_name(direction: SortDirection) -> Seq<char> {
    match direction {
        SortDirection::Asc => "asc"@,
        SortDirection::Desc => "desc"@,
    }
}

impl SortDirection {
    /// The name of the direction.
    pub fn label(self) -> (r: &'static str)
        ensures
            r@ == direction_name(self),
    {
        match self {
            SortDirection::Asc => "asc",
            SortDirection::Desc => "desc",
        }
    }
}

/// What the user asks for.
#[derive(Debug, PartialEq, Eq)]
pub enum DockerContainersAction {
    Refresh,
    SortBy(DockerContainerSortColumn),
    OpenLogs(String),
    ToggleContainerMenu(String),
    StopContainer(String),
}

/// What the list tells those who watch it.
#[derive(Debug, PartialEq, Eq)]
pub enum DockerContainersEvent {
    OpenLogs { container_id: String, container_name: String, command: String },
}

/// A running container.
#[derive(Debug, PartialEq, Eq)]
pub struct DockerContainerSummary {
    pub id: String,
    pub name: String,
    pub image_name: String,
    pub image_tag: String,
    pub created_at: Option<Timestamp>,
}

/// The model of a `DockerContainerSummary`.
pub struct ContainerView {
    pub id: Seq<char>,
    pub name: Seq<char>,
    pub image_name: Seq<char>,
    pub image_tag: Seq<char>,
    pub created_at: Option<Timestamp>,
}

impl DockerContainerSummary {
    pub open spec fn view(&self) -> ContainerView {
        ContainerView {
            id: self.id@,
            name: self.name@,
            image_name: self.image_name@,
            image_tag: self.image_tag@,
            created_at: self.created_at,
        }
    }
}

impl Clone for DockerContainerSummary {
    fn clone(&self) -> (r: Self)
        ensures
            r@ == self@,
    {
        DockerContainerSummary {
            id: self.id.clone(),
            name: self.name.clone(),
            image_name: self.image_name.clone(),
            image_tag: self.image_tag.clone(),
            created_at: self.created_at,
        }
    }
}

/// The models of a list of containers.
pub open spec fn container_views(containers: Seq<DockerContainerSummary>) -> Seq<ContainerView> {
    containers.map_values(|c: DockerContainerSummary| c@)
}

/// The name of an image and its tag: what follows an `@`, or else what follows the last `:` behind
/// the last `/`, or else `latest`.
pub open spec fn image_parts(image: Seq<char>) -> (Seq<char>, Seq<char>) {
    if image.contains('@') {
        (image.take(find(image, '@')), image.skip(find(image, '@') + 1))
    } else if rfind(image, ':') > rfind(image, '/') {
        (image.take(rfind(image, ':')), image.skip(rfind(image, ':') + 1))
    } else {
        (image, "latest"@)
    }
}

/// The name of an image and its tag.
pub fn split_image_name_and_tag(image: &str) -> (r: (String, String))
    ensures
        (r.0@, r.1@) == image_parts(image@),
{
    proof {
        lemma_find(image@, '@');
    }
    if let Some((name, digest)) = split_once(image, '@') {
        return (name.to_owned(), digest.to_owned());
    }
    let chars = chars_of(image);
    let slash = rfind_char(&chars, '/');
    if let Some(colon) = rfind_char(&chars, ':') {
        let is_tag = match slash {
            Some(slash) => colon > slash,
            None => true,
        };
        if is_tag {
            let name = string_of(&chars, 0, colon);
            let tag = string_of(&chars, colon + 1, chars.len());
            assert(name@ =~= image@.take(colon as int));
            assert(tag@ =~= image@.skip(colon + 1));
            return (name, tag);
        }
    }
    proof {
        lemma_rfind_range(image@, '/');
    }
    (image.to_owned(), "latest".to_owned())
}

proof fn lemma_rfind_range(s: Seq<char>, c: char)
    ensures
        -1 <= rfind(s, c) < s.len(),
    decreases s.len(),
{
    if s.len() > 0 && s.last() != c {
        lemma_rfind_range(s.drop_last(), c);
    }
}

/// The name and the tag hold all of an image but the sign between them; an image without a tag is
/// its name.
pub proof fn law_image_parts(image: Seq<char>)
    ensures
        ({
            let (name, tag) = image_parts(image);
            image == name + seq!['@'] + tag || image == name + seq![':'] + tag || (image == name
                && tag == "latest"@)
        }),
{
    lemma_find(image, '@');
    lemma_rfind_range(image, '/');
    lemma_rfind_range(image, ':');
    lemma_rfind_char(image, ':');
    let (name, tag) = image_parts(image);
    if image.contains('@') {
        assert(image =~= name + seq!['@'] + tag);
    } else if rfind(image, ':') > rfind(image, '/') {
        assert(image =~= name + seq![':'] + tag);
    }
}

proof fn lemma_rfind_char(s: Seq<char>, c: char)
    ensures
        rfind(s, c) >= 0 ==> rfind(s, c) < s.len() && s[rfind(s, c)] == c,
    decreases s.len(),
{
    if s.len() > 0 && s.last() != c {
        lemma_rfind_char(s.drop_last(), c);
    }
}

/// The number of bytes that a character takes in UTF-8.
pub open spec fn utf8_len(c: char) -> nat {
    if (c as u32) < 0x80 {
        1
    } else if (c as u32) < 0x800 {
        2
    } else if (c as u32) < 0x10000 {
        3
    } else {
        4
    }
}

/// The number of characters that take the first `bytes` bytes of a text, where they end with a
/// character.
pub open spec fn chars_in_bytes(text: Seq<char>, bytes: int) -> Option<int>
    decreases text.len(),
{
    if bytes == 0 {
        Some(0int)
    } else if text.len() == 0 || bytes < utf8_len(text[0]) {
        None
    } else {
        match chars_in_bytes(text.skip(1), bytes - utf8_len(text[0])) {
            Some(n) => Some(n + 1),
            None => None,
        }
    }
}

/// The short form of an identifier: its first twelve bytes, where those are characters.
pub open spec fn short_id(id: Seq<char>) -> Seq<char> {
    match chars_in_bytes(id, 12) {
        Some(n) => id.take(n),
        None => id,
    }
}

/// The short form of a container's identifier.
pub fn short_container_id(id: &str) -> (r: String)
    ensures
        r@ == short_id(id@),
{
    let chars = chars_of(id);
    let mut left: u32 = 12;
    let mut i: usize = 0;
    assert(id@.skip(0) =~= id@);
    while i < chars.len() && left > 0
        invariant
            i <= chars@.len(),
            chars@ == id@,
            left <= 12,
            chars_in_bytes(id@, 12) == (match chars_in_bytes(id@.skip(i as int), left as int) {
                Some(n) => Some(n + i),
                None => None,
            }),
        decreases chars@.len() - i,
    {
        let c = chars[i];
        let code = c as u32;
        let size: u32 = if code < 0x80 {
            1
        } else if code < 0x800 {
            2
        } else if code < 0x10000 {
            3
        } else {
            4
        };
        proof {
            assert(id@.skip(i as int)[0] == c);
            assert(id@.skip(i as int).skip(1) =~= id@.skip(i as int + 1));
        }
        if size > left {
            return id.to_owned();
        }
        left = left - size;
        i = i + 1;
    }
    if left > 0 {
        return id.to_owned();
    }
    let r = string_of(&chars, 0, i);
    assert(r@ =~= id@.take(i as int));
    r
}

/// When a container was made, as Docker writes it: in the form of RFC 3339, or as `docker ps`
/// prints it.
pub open spec fn created_time(text: Seq<char>) -> Option<Timestamp> {
    match rfc3339_time(text) {
        Some(time) => Some(time),
        None => match formatted_time(text, "%Y-%m-%d %H:%M:%S %z %Z"@) {
            Some(time) => Some(time),
            None => if " UTC"@.is_suffix_of(text) {
                formatted_time(text.take(text.len() - " UTC"@.len()), "%Y-%m-%d %H:%M:%S %z"@)
            } else {
                None
            },
        },
    }
}

/// When a container was made.
pub fn parse_docker_created_at(created: &str) -> (r: Option<Timestamp>)
    ensures
        r == created_time(created@),
{
    if let Some(time) = parse_rfc3339(created) {
        return Some(time);
    }
    if let Some(time) = parse_formatted(created, "%Y-%m-%d %H:%M:%S %z %Z") {
        return Some(time);
    }
    match strip_suffix(created, " UTC") {
        Some(created) => parse_formatted(created, "%Y-%m-%d %H:%M:%S %z"),
        None => None,
    }
}

/// What Docker says of a container.
pub struct ContainerFacts {
    pub id: Seq<char>,
    pub name: Option<Seq<char>>,
    pub image: Option<Seq<char>>,
    pub created: Option<Seq<char>>,
}

/// The container that the facts describe.
pub open spec fn container_of(facts: ContainerFacts) -> ContainerView {
    let (image_name, image_tag) = image_parts(
        match facts.image {
            Some(image) => image,
            None => "<unknown>"@,
        },
    );
    ContainerView {
        id: facts.id,
        name: match facts.name {
            Some(name) => if name.len() == 0 {
                short_id(facts.id)
            } else {
                name
            },
            None => short_id(facts.id),
        },
        image_name,
        image_tag,
        created_at: match facts.created {
            Some(created) => created_time(created),
            None => None,
        },
    }
}

fn make_container(
    id: String,
    name: Option<&str>,
    image: &Option<String>,
    created: &Option<String>,
) -> (r: DockerContainerSummary)
    ensures
        r@ == container_of(
            (ContainerFacts {
                id: id@,
                name: opt_str_view(name),
                image: opt_view(*image),
                created: opt_view(*created),
            }),
        ),
{
    let (image_name, image_tag) = match image {
        Some(image) => split_image_name_and_tag(image.as_str()),
        None => split_image_name_and_tag("<unknown>"),
    };
    let created_at = match created {
        Some(created) => parse_docker_created_at(created.as_str()),
        None => None,
    };
    let name = match name {
        Some(name) => {
            if name.unicode_len() == 0 {
                short_container_id(id.as_str())
            } else {
                name.to_owned()
            }
        },
        None => short_container_id(id.as_str()),
    };
    DockerContainerSummary { id, name, image_name, image_tag, created_at }
}

/// The container that a line of `docker ps` describes. Of several names the first counts.
pub open spec fn container_of_ps(value: JsonView) -> Option<ContainerView> {
    match stated(value, seq!["ID"@, "Image"@, "Names"@, "CreatedAt"@], 4) {
        Some(value) => ps_container(value),
        None => None,
    }
}

/// The same, of an object that states no member twice.
pub open spec fn ps_container(value: JsonView) -> Option<ContainerView> {
    match (
        value.get_text("ID"@),
        optional_text(value, "Image"@),
        optional_text(value, "Names"@),
        optional_text(value, "CreatedAt"@),
    ) {
        (Some(id), Some(image), Some(names), Some(created)) => Some(
            container_of(
                ContainerFacts {
                    id,
                    name: match names {
                        Some(names) => Some(trim(names.take(find(names, ',')))),
                        None => None,
                    },
                    image,
                    created,
                },
            ),
        ),
        _ => None,
    }
}

/// The image that the configuration of an inspected container names. `None` where the
/// configuration cannot be read.
pub open spec fn inspected_image(value: JsonView) -> Option<Option<Seq<char>>> {
    match value.get("Config"@) {
        None | Some(JsonView::Null) => Some(None),
        Some(config) => match stated(config, seq!["Image"@], 1) {
            Some(config) => optional_text(config, "Image"@),
            None => None,
        },
    }
}

/// The container that a line of `docker inspect` describes. Its name stands behind a slash.
pub open spec fn container_of_inspect(value: JsonView) -> Option<ContainerView> {
    match stated(value, seq!["Id"@, "Name"@, "Created"@, "Config"@], 4) {
        Some(value) => inspected_container(value),
        None => None,
    }
}

/// The same, of an object that states no member twice.
pub open spec fn inspected_container(value: JsonView) -> Option<ContainerView> {
    match (
        value.get_text("Id"@),
        inspected_image(value),
        optional_text(value, "Name"@),
        optional_text(value, "Created"@),
    ) {
        (Some(id), Some(image), Some(name), Some(created)) => Some(
            container_of(
                ContainerFacts {
                    id,
                    name: match name {
                        Some(name) => Some(trim_start_char(name, '/')),
                        None => None,
                    },
                    image,
                    created,
                },
            ),
        ),
        _ => None,
    }
}

/// The model of an optional container.
pub open spec fn opt_container_view(container: Option<DockerContainerSummary>) -> Option<
    ContainerView,
> {
    match container {
        Some(container) => Some(container@),
        None => None,
    }
}

/// The container that a line of `docker ps` describes.
pub fn summary_from_docker_ps(value: &JsonValue) -> (r: Option<DockerContainerSummary>)
    ensures
        opt_container_view(r) == container_of_ps(value@),
{
    assert(names_of(["ID", "Image", "Names", "CreatedAt"]@) =~= seq![
        "ID"@,
        "Image"@,
        "Names"@,
        "CreatedAt"@,
    ]);
    let value = match read_stated(value, &["ID", "Image", "Names", "CreatedAt"], 4) {
        Some(value) => value,
        None => {
            return None;
        },
    };
    match (
        read_text(&value, "ID"),
        read_optional_text(&value, "Image"),
        read_optional_text(&value, "Names"),
        read_optional_text(&value, "CreatedAt"),
    ) {
        (Some(id), Some(image), Some(names), Some(created)) => {
            let name = match &names {
                Some(names) => {
                    proof {
                        lemma_find(names@, ',');
                        if find(names@, ',') == names@.len() {
                            assert(names@.take(find(names@, ',')) =~= names@);
                        }
                    }
                    match split_once(names.as_str(), ',') {
                        Some((first, _)) => Some(trimmed(first)),
                        None => Some(trimmed(names.as_str())),
                    }
                },
                None => None,
            };
            Some(make_container(id, name, &image, &created))
        },
        _ => None,
    }
}

fn read_inspected_image(value: &JsonValue) -> (r: Option<Option<String>>)
    ensures
        read_text_view(r) == inspected_image(value@),
{
    match value.get("Config") {
        None => Some(None),
        Some(JsonValue::Null) => Some(None),
        Some(config) => {
            assert(names_of(["Image"]@) =~= seq!["Image"@]);
            let config = match read_stated(config, &["Image"], 1) {
                Some(config) => config,
                None => {
                    return None;
                },
            };
            read_optional_text(&config, "Image")
        },
    }
}

/// The container that a line of `docker inspect` describes.
pub fn summary_from_docker_inspect(value: &JsonValue) -> (r: Option<DockerContainerSummary>)
    ensures
        opt_container_view(r) == container_of_inspect(value@),
{
    assert(names_of(["Id", "Name", "Created", "Config"]@) =~= seq![
        "Id"@,
        "Name"@,
        "Created"@,
        "Config"@,
    ]);
    let value = match read_stated(value, &["Id", "Name", "Created", "Config"], 4) {
        Some(value) => value,
        None => {
            return None;
        },
    };
    match (
        read_text(&value, "Id"),
        read_inspected_image(&value),
        read_optional_text(&value, "Name"),
        read_optional_text(&value, "Created"),
    ) {
        (Some(id), Some(image), Some(name), Some(created)) => {
            let name = match &name {
                Some(name) => Some(trimmed_start_char(name.as_str(), '/')),
                None => None,
            };
            Some(make_container(id, name, &image, &created))
        },
        _ => None,
    }
}

proof fn lemma_inspect_names()
    ensures
        "Id"@ != "Name"@,
        "Id"@ != "Created"@,
        "Id"@ != "Config"@,
        "Name"@ != "Created"@,
        "Name"@ != "Config"@,
        "Created"@ != "Config"@,
{
    reveal_strlit("Id");
    reveal_strlit("Name");
    reveal_strlit("Created");
    reveal_strlit("Config");
    assert("Id"@.len() == 2 && "Name"@.len() == 4 && "Created"@.len() == 7 && "Config"@.len() == 6);
}

/// The configuration in a line of `docker inspect`.
pub struct InspectConfigShape;

impl Shape for InspectConfigShape {
    open spec fn title() -> Seq<char> {
        "struct DockerInspectConfig"@
    }

    open spec fn names() -> Seq<Seq<char>> {
        seq!["Image"@]
    }

    open spec fn needed() -> nat {
        1
    }

    open spec fn may_lack(name: Seq<char>) -> bool {
        true
    }

    open spec fn fault(name: Seq<char>, member: JsonView) -> Option<Seq<char>> {
        optional_text_fault(name, member)
    }

    proof fn names_are_sound() {
    }

    fn expected() -> (r: &'static str) {
        "struct DockerInspectConfig"
    }

    fn member_names() -> (r: Vec<&'static str>) {
        let r: Vec<&'static str> = vec!["Image"];
        assert(names_of(r@) =~= Self::names());
        r
    }

    fn needed_count() -> (r: usize) {
        1
    }

    fn can_lack(_name: &str) -> (r: bool) {
        true
    }

    fn find_fault(name: &str, member: &JsonValue) -> (r: Option<String>) {
        find_optional_text_fault(name, member)
    }
}

/// A line of `docker inspect`.
pub struct InspectShape;

impl Shape for InspectShape {
    open spec fn title() -> Seq<char> {
        "struct DockerInspectContainer"@
    }

    open spec fn names() -> Seq<Seq<char>> {
        seq!["Id"@, "Name"@, "Created"@, "Config"@]
    }

    open spec fn needed() -> nat {
        4
    }

    open spec fn may_lack(name: Seq<char>) -> bool {
        name != "Id"@
    }

    open spec fn fault(name: Seq<char>, member: JsonView) -> Option<Seq<char>> {
        if name == "Id"@ {
            text_fault(name, member)
        } else if name == "Config"@ {
            optional_part_fault::<InspectConfigShape>(member)
        } else {
            optional_text_fault(name, member)
        }
    }

    proof fn names_are_sound() {
        lemma_inspect_names();
    }

    fn expected() -> (r: &'static str) {
        "struct DockerInspectContainer"
    }

    fn member_names() -> (r: Vec<&'static str>) {
        let r: Vec<&'static str> = vec!["Id", "Name", "Created", "Config"];
        assert(names_of(r@) =~= Self::names());
        r
    }

    fn needed_count() -> (r: usize) {
        4
    }

    fn can_lack(name: &str) -> (r: bool) {
        !same(name, "Id")
    }

    fn find_fault(name: &str, member: &JsonValue) -> (r: Option<String>) {
        if same(name, "Id") {
            find_text_fault(name, member)
        } else if same(name, "Config") {
            find_optional_part_fault::<InspectConfigShape>(member)
        } else {
            find_optional_text_fault(name, member)
        }
    }
}

/// The configuration cannot be read exactly where it has not the shape of one.
proof fn lemma_config_shape(value: JsonView)
    ensures
        inspected_image(value) is None <==> (value.get("Config"@) matches Some(config)
            && optional_part_fault::<InspectConfigShape>(config) is Some),
{
    let names = InspectConfigShape::names();
    assert(names[0] == "Image"@);
    if let Some(config) = value.get("Config"@) {
        law_faults::<InspectConfigShape>(config);
    }
}

/// A line of `docker inspect` describes no container exactly where it has not the shape of one.
pub proof fn law_inspect_shape(value: JsonView)
    ensures
        container_of_inspect(value) is None <==> !has_shape::<InspectShape>(value),
{
    let names = InspectShape::names();
    lemma_inspect_names();
    assert(names[0] == "Id"@ && names[1] == "Name"@ && names[2] == "Created"@ && names[3]
        == "Config"@);
    if let Some(object) = stated(value, names, 4) {
        lemma_config_shape(object);
        if container_of_inspect(value) is Some {
            assert forall|k: int| 0 <= k < names.len() implies member_fits::<InspectShape>(
                object,
                #[trigger] names[k],
            ) by {
                assert(k == 0 || k == 1 || k == 2 || k == 3);
            }
        }
    }
}

/// The container that a line describes, or what is said of a line that describes none.
pub open spec fn container_of_line(line: Seq<char>) -> Result<ContainerView, Seq<char>> {
    match members_parse(line) {
        Err(error) => Err("Could not parse Docker output: "@ + error),
        Ok(value) => match container_of_ps(value) {
            Some(container) => Ok(container),
            None => match container_of_inspect(value) {
                Some(container) => Ok(container),
                None => Err(
                    "Could not parse Docker output: "@ + shape_error::<InspectShape>(value),
                ),
            },
        },
    }
}

/// The model of an attempt to read a container.
pub open spec fn container_result(r: Result<DockerContainerSummary, String>) -> Result<
    ContainerView,
    Seq<char>,
> {
    match r {
        Ok(container) => Ok(container@),
        Err(error) => Err(error@),
    }
}

/// The container that a line describes.
pub fn parse_docker_container(line: &str) -> (r: Result<DockerContainerSummary, String>)
    ensures
        container_result(r) == container_of_line(line@),
{
    let value = match JsonValue::parse_members(line) {
        Ok(value) => value,
        Err(error) => {
            return Err(concat2("Could not parse Docker output: ", error.as_str()));
        },
    };
    if let Some(container) = summary_from_docker_ps(&value) {
        return Ok(container);
    }
    match summary_from_docker_inspect(&value) {
        Some(container) => Ok(container),
        None => {
            proof {
                law_inspect_shape(value@);
            }
            let fault = shape_fault_of::<InspectShape>(&value);
            Err(concat2("Could not parse Docker output: ", fault.as_str()))
        },
    }
}

/// The containers that lines describe, blank lines left out; the first line that describes none
/// makes the whole unreadable.
pub open spec fn containers_of(all: Seq<Seq<char>>) -> Result<Seq<ContainerView>, Seq<char>>
    decreases all.len(),
{
    if all.len() == 0 {
        Ok(Seq::empty())
    } else {
        match containers_of(all.drop_last()) {
            Err(error) => Err(error),
            Ok(before) => if is_blank(all.last()) {
                Ok(before)
            } else {
                match container_of_line(all.last()) {
                    Ok(container) => Ok(before.push(container)),
                    Err(error) => Err(error),
                }
            },
        }
    }
}

/// The model of an attempt to read containers.
pub open spec fn containers_result(r: Result<Vec<DockerContainerSummary>, String>) -> Result<
    Seq<ContainerView>,
    Seq<char>,
> {
    match r {
        Ok(containers) => Ok(container_views(containers@)),
        Err(error) => Err(error@),
    }
}

proof fn lemma_containers_error(all: Seq<Seq<char>>, n: int)
    requires
        0 <= n <= all.len(),
        containers_of(all.take(n)) is Err,
    ensures
        containers_of(all) == containers_of(all.take(n)),
    decreases all.len() - n,
{
    if n < all.len() {
        assert(all.take(n + 1).drop_last() =~= all.take(n));
        lemma_containers_error(all, n + 1);
    } else {
        assert(all.take(n) =~= all);
    }
}

/// The containers that Docker lists.
pub fn parse_docker_containers(output: &str) -> (r: Result<Vec<DockerContainerSummary>, String>)
    ensures
        containers_result(r) == containers_of(lines(output@)),
{
    let lines_out = lines_of(output);
    let ghost all = lines(output@);
    let mut r: Vec<DockerContainerSummary> = Vec::new();
    let mut i: usize = 0;
    assert(container_views(r@) =~= Seq::empty());
    assert(all.take(0) =~= Seq::empty());
    while i < lines_out.len()
        invariant
            i <= lines_out@.len(),
            all == views(lines_out@),
            all == lines(output@),
            containers_of(all.take(i as int)) == Ok::<Seq<ContainerView>, Seq<char>>(
                container_views(r@),
            ),
        decreases lines_out@.len() - i,
    {
        let ghost done = container_views(r@);
        proof {
            assert(all.take(i as int + 1).drop_last() =~= all.take(i as int));
            assert(all.take(i as int + 1).last() == lines_out@[i as int]@);
        }
        if !blank(lines_out[i].as_str()) {
            match parse_docker_container(lines_out[i].as_str()) {
                Ok(container) => {
                    r.push(container);
                    assert(container_views(r@) =~= done.push(container@));
                },
                Err(error) => {
                    proof {
                        lemma_containers_error(all, i as int + 1);
                    }
                    return Err(error);
                },
            }
        }
        i = i + 1;
    }
    assert(all.take(i as int) =~= all);
    Ok(r)
}

/// The command that stops a container.
pub fn docker_stop_command(container_id: &str) -> (r: String)
    ensures
        r@ == "docker stop "@ + shell_quoted(container_id@),
{
    concat2("docker stop ", quote_for_shell(container_id).as_str())
}

/// The command that follows the log of a container.
pub open spec fn logs_command(container_id: Seq<char>) -> Seq<char> {
    "docker logs --tail 200 -f "@ + shell_quoted(container_id)
}

/// The command that follows the log of a container.
pub fn docker_logs_command(container_id: &str) -> (r: String)
    ensures
        r@ == logs_command(container_id@),
{
    concat2("docker logs --tail 200 -f ", quote_for_shell(container_id).as_str())
}

/// Where the log of a container is followed.
#[derive(Debug, PartialEq, Eq)]
pub enum DockerLogTarget {
    Local,
    RemoteSsh {
        spawning_command: Option<String>,
        control_path: Option<String>,
        host: String,
        port: Option<String>,
    },
}

/// The model of a `DockerLogTarget`.
pub enum LogTargetView {
    Local,
    RemoteSsh {
        spawning_command: Option<Seq<char>>,
        control_path: Option<Seq<char>>,
        host: Seq<char>,
        port: Option<Seq<char>>,
    },
}

impl DockerLogTarget {
    pub open spec fn view(&self) -> LogTargetView {
        match self {
            DockerLogTarget::Local => LogTargetView::Local,
            DockerLogTarget::RemoteSsh { spawning_command, control_path, host, port } => {
                LogTargetView::RemoteSsh {
                    spawning_command: opt_view(*spawning_command),
                    control_path: opt_view(*control_path),
                    host: host@,
                    port: opt_view(*port),
                }
            },
        }
    }
}

impl Clone for DockerLogTarget {
    fn clone(&self) -> (r: Self)
        ensures
            r@ == self@,
    {
        match self {
            DockerLogTarget::Local => DockerLogTarget::Local,
            DockerLogTarget::RemoteSsh { spawning_command, control_path, host, port } => {
                DockerLogTarget::RemoteSsh {
                    spawning_command: clone_option(spawning_command),
                    control_path: clone_option(control_path),
                    host: host.clone(),
                    port: clone_option(port),
                }
            },
        }
    }
}

/// The SSH command with which a session was opened, as one that runs a command without a
/// terminal.
pub open spec fn reusable_ssh(command: Seq<char>) -> Option<Seq<char>> {
    let command = trim_start(command);
    if "ssh "@.is_prefix_of(command) {
        Some("ssh -T "@ + trim_start(command.skip("ssh "@.len() as int)))
    } else if "command ssh "@.is_prefix_of(command) {
        Some("command ssh -T "@ + trim_start(command.skip("command ssh "@.len() as int)))
    } else {
        None
    }
}

/// The SSH command with which a session was opened, as one that runs a command without a
/// terminal.
pub fn reusable_non_interactive_ssh_command(command: &str) -> (r: Option<String>)
    ensures
        opt_view(r) == reusable_ssh(command@),
{
    let command = trimmed_start(command);
    if let Some(rest) = strip_prefix(command, "ssh ") {
        return Some(concat2("ssh -T ", trimmed_start(rest)));
    }
    match strip_prefix(command, "command ssh ") {
        Some(rest) => Some(concat2("command ssh -T ", trimmed_start(rest))),
        None => None,
    }
}

/// The command that follows the log of a container where it runs: over the connection's own
/// socket where there is one, or else with the command that opened the session, or else with a new
/// connection.
pub open spec fn log_tail_command(container_id: Seq<char>, target: LogTargetView) -> Seq<char> {
    let command = logs_command(container_id);
    match target {
        LogTargetView::Local => command,
        LogTargetView::RemoteSsh { spawning_command, control_path, host, port } => {
            match control_path {
                Some(control_path) => "ssh -T -S "@ + shell_quoted(control_path) + " "@
                    + shell_quoted(host) + " "@ + shell_quoted(command),
                None => if spawning_command is Some && reusable_ssh(spawning_command->0) is Some {
                    reusable_ssh(spawning_command->0)->0 + " "@ + shell_quoted(command)
                } else {
                    match port {
                        Some(port) => "ssh -T -p "@ + shell_quoted(port) + " "@ + shell_quoted(host)
                            + " "@ + shell_quoted(command),
                        None => "ssh -T "@ + shell_quoted(host) + " "@ + shell_quoted(command),
                    }
                },
            }
        },
    }
}

fn ssh_command(options: &str, host: &str, command: &str) -> (r: String)
    ensures
        r@ == options@ + " "@ + shell_quoted(host@) + " "@ + shell_quoted(command@),
{
    concat3(
        concat3(options, " ", quote_for_shell(host).as_str()).as_str(),
        " ",
        quote_for_shell(command).as_str(),
    )
}

/// The command that follows the log of a container where it runs.
pub fn docker_log_tail_command(container_id: &str, log_target: &DockerLogTarget) -> (r: String)
    ensures
        r@ == log_tail_command(container_id@, log_target@),
{
    let command = docker_logs_command(container_id);
    match log_target {
        DockerLogTarget::Local => command,
        DockerLogTarget::RemoteSsh { spawning_command, control_path, host, port } => {
            if let Some(control_path) = control_path {
                let options = concat2(
                    "ssh -T -S ",
                    quote_for_shell(control_path.as_str()).as_str(),
                );
                return ssh_command(options.as_str(), host.as_str(), command.as_str());
            }
            if let Some(spawning_command) = spawning_command {
                if let Some(ssh) = reusable_non_interactive_ssh_command(spawning_command.as_str()) {
                    return concat3(ssh.as_str(), " ", quote_for_shell(command.as_str()).as_str());
                }
            }
            match port {
                Some(port) => {
                    let options = concat2("ssh -T -p ", quote_for_shell(port.as_str()).as_str());
                    ssh_command(options.as_str(), host.as_str(), command.as_str())
                },
                None => {
                    let r = concat3(
                        concat2("ssh -T ", quote_for_shell(host.as_str()).as_str()).as_str(),
                        " ",
                        quote_for_shell(command.as_str()).as_str(),
                    );
                    r
                },
            }
        },
    }
}

/// What is known of a session.
#[derive(Debug, PartialEq, Eq)]
pub struct SessionFacts {
    pub is_remote: bool,
    pub control_path: Option<String>,
    pub ssh_host: Option<String>,
    pub ssh_port: Option<String>,
    pub spawning_command: Option<String>,
    pub user: String,
    pub hostname: String,
}

/// The host to connect to where the session does not name it.
pub open spec fn fallback_host(user: Seq<char>, hostname: Seq<char>) -> Seq<char> {
    if hostname.len() == 0 || user.len() == 0 {
        hostname
    } else {
        user + "@"@ + hostname
    }
}

/// Where the logs of a session's containers are followed.
pub open spec fn log_target_of(facts: SessionFacts) -> LogTargetView {
    if !facts.is_remote {
        LogTargetView::Local
    } else {
        LogTargetView::RemoteSsh {
            spawning_command: match facts.spawning_command {
                Some(command) => if is_blank(command@) {
                    None
                } else {
                    Some(trim(command@))
                },
                None => None,
            },
            control_path: opt_view(facts.control_path),
            host: match facts.ssh_host {
                Some(host) => host@,
                None => fallback_host(facts.user@, facts.hostname@),
            },
            port: opt_view(facts.ssh_port),
        }
    }
}

/// Where the logs of a session's containers are followed.
pub fn docker_log_target_for_session(facts: &SessionFacts) -> (r: DockerLogTarget)
    ensures
        r@ == log_target_of(*facts),
{
    if !facts.is_remote {
        return DockerLogTarget::Local;
    }
    let spawning_command = match &facts.spawning_command {
        Some(command) => {
            if blank(command.as_str()) {
                None
            } else {
                Some(trimmed(command.as_str()).to_owned())
            }
        },
        None => None,
    };
    let host = match &facts.ssh_host {
        Some(host) => host.clone(),
        None => {
            if facts.hostname.as_str().unicode_len() == 0 || facts.user.as_str().unicode_len()
                == 0 {
                facts.hostname.clone()
            } else {
                concat3(facts.user.as_str(), "@", facts.hostname.as_str())
            }
        },
    };
    DockerLogTarget::RemoteSsh {
        spawning_command,
        control_path: clone_option(&facts.control_path),
        host,
        port: clone_option(&facts.ssh_port),
    }
}

/// How a command for Docker ended.
#[derive(Debug, PartialEq, Eq)]
pub enum DockerCommandOutcome {
    Finished { success: bool, output: String },
    Failed { error: String },
    TimedOut,
}

/// What a command for Docker gave, or what is said of its failure.
pub open spec fn command_result(outcome: DockerCommandOutcome) -> Result<Seq<char>, Seq<char>> {
    match outcome {
        DockerCommandOutcome::Finished { success, output } => if success {
            Ok(output@)
        } else if is_blank(output@) {
            Err("Docker command failed without output."@)
        } else {
            Err(trim(output@))
        },
        DockerCommandOutcome::Failed { error } => Err("Docker command failed: "@ + error@),
        DockerCommandOutcome::TimedOut => Err("Docker command timed out after 20 seconds."@),
    }
}

/// What a command for Docker gave.
pub fn docker_command_result(outcome: DockerCommandOutcome) -> (r: Result<String, String>)
    ensures
        text_result(r) == command_result(outcome),
{
    match outcome {
        DockerCommandOutcome::Finished { success, output } => {
            if success {
                Ok(output)
            } else if blank(output.as_str()) {
                Err("Docker command failed without output.".to_owned())
            } else {
                Err(trimmed(output.as_str()).to_owned())
            }
        },
        DockerCommandOutcome::Failed { error } => Err(
            concat2("Docker command failed: ", error.as_str()),
        ),
        DockerCommandOutcome::TimedOut => Err(
            "Docker command timed out after 20 seconds.".to_owned(),
        ),
    }
}

} // verus!
