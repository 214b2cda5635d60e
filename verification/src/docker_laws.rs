//! What holds of the containers that Docker lists, and of the commands for them.
use crate::docker_containers::{
    ContainerView, DockerCommandOutcome, LogTargetView, SessionFacts, chars_in_bytes,
    command_result, container_of_inspect, container_of_line, container_of_ps, containers_of,
    created_time, image_parts, log_tail_command, log_target_of, logs_command, reusable_ssh,
    short_id, utf8_len,
};
use crate::json::JsonView;
use crate::members::{members_parse, stated};
use crate::shell::shell_quoted;
use crate::text::{
    find, is_blank, is_space, lemma_find, lemma_find_unique, opt_view, rfind, trim, trim_start,
    trim_start_char,
};
use vstd::prelude::*;

verus! {

/// The lines that say something, in order.
pub open spec fn telling_lines(all: Seq<Seq<char>>) -> Seq<Seq<char>> {
    all.filter(|line: Seq<char>| !is_blank(line))
}

/// Where every line that is not blank describes a container, there are exactly as many containers
/// as such lines, and each is the one that its line describes, in the order of the lines.
pub proof fn law_each_line_is_a_container(all: Seq<Seq<char>>)
    ensures
        (forall|i: int|
            0 <= i < telling_lines(all).len() ==> container_of_line(
                #[trigger] telling_lines(all)[i],
            ) is Ok) ==> containers_of(all) is Ok,
        containers_of(all) matches Ok(containers) ==> containers.len() == telling_lines(all).len()
            && forall|i: int|
            0 <= i < telling_lines(all).len() ==> container_of_line(
                #[trigger] telling_lines(all)[i],
            ) == Ok::<ContainerView, Seq<char>>(containers[i]),
    decreases all.len(),
{
    reveal(Seq::filter);
    if all.len() > 0 {
        let front = all.drop_last();
        law_each_line_is_a_container(front);
        let before = telling_lines(front);
        let lines = telling_lines(all);
        if !is_blank(all.last()) {
            assert(lines =~= before.push(all.last()));
            assert(forall|i: int| 0 <= i < before.len() ==> before[i] == #[trigger] lines[i]);
            assert(lines[lines.len() - 1] == all.last());
            if forall|i: int|
                0 <= i < lines.len() ==> container_of_line(#[trigger] lines[i]) is Ok {
                assert forall|i: int| 0 <= i < before.len() implies container_of_line(
                    #[trigger] before[i],
                ) is Ok by {
                    assert(before[i] == lines[i]);
                }
            }
        } else {
            assert(lines == before);
        }
        if let Ok(containers) = containers_of(all) {
            let done = containers_of(front)->Ok_0;
            assert forall|i: int| 0 <= i < lines.len() implies container_of_line(
                #[trigger] lines[i],
            ) == Ok::<ContainerView, Seq<char>>(containers[i]) by {
                if i < before.len() {
                    assert(before[i] == lines[i]);
                    assert(containers[i] == done[i]);
                }
            }
        }
    }
}

/// The list is refused only where a line that is not blank describes no container, and with what is
/// said of the first such line.
pub proof fn law_first_unreadable_line_is_told(all: Seq<Seq<char>>)
    ensures
        containers_of(all) matches Err(error) ==> exists|i: int|
            0 <= i < all.len() && !is_blank(all[i]) && container_of_line(
                #[trigger] all[i]
            ) == Err::<
                ContainerView,
                Seq<char>,
            >(error) && containers_of(all.take(i)) is Ok,
    decreases all.len(),
{
    if all.len() > 0 && containers_of(all) is Err {
        let front = all.drop_last();
        law_first_unreadable_line_is_told(front);
        if containers_of(front) is Err {
            let error = containers_of(front)->Err_0;
            let i = choose|i: int|
                0 <= i < front.len() && !is_blank(front[i]) && container_of_line(
                    #[trigger] front[i],
                ) == Err::<ContainerView, Seq<char>>(error) && containers_of(front.take(i)) is Ok;
            assert(all[i] == front[i]);
            assert(all.take(i) =~= front.take(i));
        } else {
            let n = all.len() - 1;
            assert(all.take(n) =~= front);
            assert(all[n] == all.last());
        }
    }
}

/// A line is read as one of `docker ps` where it is one, else as one of `docker inspect`, and
/// refused only where it is neither.
pub proof fn law_line_of_either_kind(line: Seq<char>, value: JsonView)
    requires
        members_parse(line) == Ok::<JsonView, Seq<char>>(value),
    ensures
        container_of_ps(value) matches Some(container) ==> container_of_line(line) == Ok::<
            ContainerView,
            Seq<char>,
        >(container),
        container_of_ps(value) is None ==> (container_of_inspect(value) matches Some(container)
            ==> container_of_line(line) == Ok::<ContainerView, Seq<char>>(container)),
        container_of_line(line) is Err <==> container_of_ps(value) is None && container_of_inspect(
            value,
        ) is None,
{
}

/// A container is listed with what its line states: its identifier, its image, and of its names
/// the first; one without a name goes by its short identifier.
pub proof fn law_listed_container(
    value: JsonView,
    object: JsonView,
    container: ContainerView,
    first: Seq<char>,
    rest: Seq<char>,
)
    requires
        stated(value, seq!["ID"@, "Image"@, "Names"@, "CreatedAt"@], 4) == Some(object),
        container_of_ps(value) == Some(container),
        !first.contains(','),
    ensures
        object.get_text("ID"@) == Some(container.id),
        object.get_text("Image"@) matches Some(image) ==> (
            container.image_name,
            container.image_tag,
        ) == image_parts(image),
        object.get_text("Names"@) == Some(first) && trim(first).len() > 0 ==> container.name == trim(
            first,
        ),
        object.get_text("Names"@) == Some(first.push(',') + rest) && trim(first).len() > 0
            ==> container.name == trim(first),
        object.get_text("Names"@) is None ==> container.name == short_id(container.id),
        object.get_text("CreatedAt"@) matches Some(created) ==> container.created_at
            == created_time(created),
{
    let names = first.push(',') + rest;
    lemma_find(first, ',');
    if find(first, ',') < first.len() {
        assert(first[find(first, ',')] == ',');
    }
    assert(first.take(find(first, ',')) =~= first);
    assert(names[first.len() as int] == ',');
    lemma_find_unique(names, ',', first.len() as int);
    assert(names.take(first.len() as int) =~= first);
}

/// An inspected container is listed with what its line states; the slash before its name does not
/// count.
pub proof fn law_inspected_container(
    value: JsonView,
    object: JsonView,
    container: ContainerView,
    name: Seq<char>,
)
    requires
        stated(value, seq!["Id"@, "Name"@, "Created"@, "Config"@], 4) == Some(object),
        container_of_inspect(value) == Some(container),
        name.len() > 0,
        name[0] != '/',
    ensures
        object.get_text("Id"@) == Some(container.id),
        object.get_text("Name"@) == Some(name) || object.get_text("Name"@) == Some(
            seq!['/'] + name,
        ) ==> container.name == name,
        object.get_text("Name"@) is None ==> container.name == short_id(container.id),
        object.get_text("Created"@) matches Some(created) ==> container.created_at == created_time(
            created,
        ),
        object.get("Config"@) matches Some(config) ==> (stated(
            config,
            seq!["Image"@],
            1,
        ) matches Some(
            config,
        ) ==> (config.get_text("Image"@) matches Some(image) ==> (
            container.image_name,
            container.image_tag,
        ) == image_parts(image))),
{
    let slashed = seq!['/'] + name;
    assert(slashed.skip(1) =~= name);
    assert(trim_start_char(name, '/') == name);
    assert(trim_start_char(slashed, '/') == trim_start_char(slashed.skip(1), '/'));
}

/// The bytes that a text takes.
pub open spec fn byte_len(text: Seq<char>) -> nat
    decreases text.len(),
{
    if text.len() == 0 {
        0
    } else {
        byte_len(text.drop_last()) + utf8_len(text.last())
    }
}

proof fn lemma_chars_in_bytes(text: Seq<char>, bytes: int)
    requires
        0 <= bytes,
    ensures
        match chars_in_bytes(text, bytes) {
            Some(n) => 0 <= n <= text.len() && byte_len(text.take(n)) == bytes,
            None => forall|n: int| 0 <= n <= text.len() ==> byte_len(
                #[trigger] text.take(n)
            ) != bytes,
        },
    decreases text.len(),
{
    assert(text.take(0) =~= Seq::empty());
    if bytes == 0 {
    } else if text.len() == 0 {
        assert forall|n: int| 0 <= n <= text.len() implies byte_len(#[trigger] text.take(n))
            != bytes by {
            assert(text.take(n) =~= Seq::empty());
        }
    } else {
        let rest = text.skip(1);
        if bytes >= utf8_len(text[0]) {
            lemma_chars_in_bytes(rest, bytes - utf8_len(text[0]));
        }
        assert forall|n: int| 1 <= n <= text.len() implies byte_len(#[trigger] text.take(n))
            == utf8_len(text[0]) + byte_len(rest.take(n - 1)) by {
            lemma_first_char(text, n);
        }
        if chars_in_bytes(text, bytes) is None {
            assert forall|n: int| 0 <= n <= text.len() implies byte_len(#[trigger] text.take(n))
                != bytes by {
                if n > 0 {
                    assert(byte_len(rest.take(n - 1)) >= 0);
                }
            }
        }
    }
}

proof fn lemma_first_char(text: Seq<char>, n: int)
    requires
        1 <= n <= text.len(),
    ensures
        byte_len(text.take(n)) == utf8_len(text[0]) + byte_len(text.skip(1).take(n - 1)),
    decreases n,
{
    let rest = text.skip(1);
    assert(text.take(n).drop_last() =~= text.take(n - 1));
    if n == 1 {
        assert(text.take(0) =~= Seq::empty());
        assert(rest.take(0) =~= Seq::empty());
    } else {
        lemma_first_char(text, n - 1);
        assert(rest.take(n - 1).drop_last() =~= rest.take(n - 2));
        assert(rest.take(n - 1).last() == text.take(n).last());
    }
}

/// The short form of an identifier is its beginning of twelve bytes, where it has one; else the
/// identifier itself.
pub proof fn law_short_id(id: Seq<char>)
    ensures
        short_id(id).is_prefix_of(id),
        byte_len(short_id(id)) == 12 || short_id(id) == id,
        (exists|n: int| 0 <= n <= id.len() && byte_len(#[trigger] id.take(n)) == 12) ==> byte_len(
            short_id(id),
        ) == 12,
{
    lemma_chars_in_bytes(id, 12);
    assert(id.take(id.len() as int) =~= id);
    if let Some(n) = chars_in_bytes(id, 12) {
        assert(id.take(n).is_prefix_of(id));
    }
}

/// What Docker printed is taken as it is where the command succeeded, and never otherwise.
pub proof fn law_docker_output(outcome: DockerCommandOutcome, output: Seq<char>)
    ensures
        command_result(outcome) == Ok::<Seq<char>, Seq<char>>(output) <==> (outcome matches
            DockerCommandOutcome::Finished { success, output: printed } && success && printed@
            == output),
        outcome matches DockerCommandOutcome::Finished { success, output: printed } ==> (!success
            && !is_blank(printed@) ==> command_result(outcome) == Err::<Seq<char>, Seq<char>>(
            trim(printed@),
        )),
{
}

/// Wherever the log of a container is followed, it is the log of that container: on this machine
/// the command is run as it is, elsewhere it is handed to SSH as one word at the end.
pub proof fn law_log_of_the_container(container_id: Seq<char>, target: LogTargetView)
    ensures
        target is Local ==> log_tail_command(container_id, target) == logs_command(container_id),
        target is RemoteSsh ==> (" "@ + shell_quoted(logs_command(container_id))).is_suffix_of(
            log_tail_command(container_id, target),
        ),
        target is RemoteSsh ==> "ssh -T "@.is_prefix_of(log_tail_command(container_id, target))
            || "command ssh -T "@.is_prefix_of(log_tail_command(container_id, target)),
        shell_quoted(container_id).is_suffix_of(logs_command(container_id)),
{
    reveal_strlit("ssh -T ");
    reveal_strlit("ssh -T -S ");
    reveal_strlit("ssh -T -p ");
    reveal_strlit("command ssh -T ");
    let all = log_tail_command(container_id, target);
    let last = " "@ + shell_quoted(logs_command(container_id));
    lemma_ends_with("docker logs --tail 200 -f "@, shell_quoted(container_id));
    if let LogTargetView::RemoteSsh { spawning_command, control_path, host, port } = target {
        let lead = all.take(all.len() - last.len());
        match control_path {
            Some(path) => {
                let front = "ssh -T -S "@ + shell_quoted(path) + " "@ + shell_quoted(host);
                assert(all =~= front + last);
                lemma_ends_with(front, last);
                assert(all.take("ssh -T "@.len() as int) =~= "ssh -T "@);
            },
            None => if spawning_command is Some && reusable_ssh(spawning_command->0) is Some {
                let front = reusable_ssh(spawning_command->0)->0;
                assert(all =~= front + last);
                lemma_ends_with(front, last);
                if "ssh -T "@.is_prefix_of(front) {
                    assert(all.take("ssh -T "@.len() as int) =~= front.take(
                        "ssh -T "@.len() as int,
                    ));
                } else {
                    assert(front.take("command ssh -T "@.len() as int) =~= "command ssh -T "@);
                    assert(all.take("command ssh -T "@.len() as int) =~= "command ssh -T "@);
                }
            } else {
                match port {
                    Some(port) => {
                        let front = "ssh -T -p "@ + shell_quoted(port) + " "@ + shell_quoted(host);
                        assert(all =~= front + last);
                        lemma_ends_with(front, last);
                        assert(all.take("ssh -T "@.len() as int) =~= "ssh -T "@);
                    },
                    None => {
                        let front = "ssh -T "@ + shell_quoted(host);
                        assert(all =~= front + last);
                        lemma_ends_with(front, last);
                        assert(all.take("ssh -T "@.len() as int) =~= "ssh -T "@);
                    },
                }
            },
        }
    }
}

proof fn lemma_ends_with(front: Seq<char>, last: Seq<char>)
    ensures
        last.is_suffix_of(front + last),
{
    let all = front + last;
    assert(all.subrange(all.len() - last.len(), all.len() as int) =~= last);
}

/// A host is reached the way the session reached it: through its open connection where there is
/// one, else with the command that opened the session where that is SSH, else by its name and port.
pub proof fn law_log_is_followed_through_the_session(
    container_id: Seq<char>,
    spawning_command: Option<Seq<char>>,
    path: Seq<char>,
    host: Seq<char>,
    port: Option<Seq<char>>,
)
    ensures
        ("ssh -T -S "@ + shell_quoted(path) + " "@ + shell_quoted(host)).is_prefix_of(
            log_tail_command(
                container_id,
                LogTargetView::RemoteSsh { spawning_command, control_path: Some(path), host, port },
            ),
        ),
        spawning_command is Some && reusable_ssh(spawning_command->0) is Some ==> reusable_ssh(
            spawning_command->0,
        )->0.is_prefix_of(
            log_tail_command(
                container_id,
                LogTargetView::RemoteSsh { spawning_command, control_path: None, host, port },
            ),
        ),
        port matches Some(number) ==> ("ssh -T -p "@ + shell_quoted(number) + " "@ + shell_quoted(
            host,
        )).is_prefix_of(
            log_tail_command(
                container_id,
                LogTargetView::RemoteSsh {
                    spawning_command: None,
                    control_path: None,
                    host,
                    port,
                },
            ),
        ),
{
    let last = " "@ + shell_quoted(logs_command(container_id));
    let a = "ssh -T -S "@ + shell_quoted(path) + " "@ + shell_quoted(host);
    assert((a + last).take(a.len() as int) =~= a);
    assert(log_tail_command(
        container_id,
        LogTargetView::RemoteSsh { spawning_command, control_path: Some(path), host, port },
    ) =~= a + last);
    if let Some(command) = spawning_command {
        if let Some(opened) = reusable_ssh(command) {
            assert((opened + last).take(opened.len() as int) =~= opened);
            assert(log_tail_command(
                container_id,
                LogTargetView::RemoteSsh { spawning_command, control_path: None, host, port },
            ) =~= opened + last);
        }
    }
    if let Some(number) = port {
        let b = "ssh -T -p "@ + shell_quoted(number) + " "@ + shell_quoted(host);
        assert((b + last).take(b.len() as int) =~= b);
        assert(log_tail_command(
            container_id,
            LogTargetView::RemoteSsh { spawning_command: None, control_path: None, host, port },
        ) =~= b + last);
    }
}

/// The arguments of an SSH command are kept when it is used again, and no terminal is asked for.
pub proof fn law_ssh_command_is_reused(arguments: Seq<char>)
    requires
        arguments.len() > 0,
        !is_space(arguments[0]),
    ensures
        reusable_ssh("ssh "@ + arguments) == Some("ssh -T "@ + arguments),
        reusable_ssh("command ssh "@ + arguments) == Some("command ssh -T "@ + arguments),
        forall|command: Seq<char>|
            command.len() > 0 && !is_space(command[0]) && !"ssh "@.is_prefix_of(command)
                && !"command ssh "@.is_prefix_of(command) ==> #[trigger] reusable_ssh(
                command,
            ) is None,
{
    reveal_strlit("ssh ");
    reveal_strlit("command ssh ");
    let a = "ssh "@ + arguments;
    let b = "command ssh "@ + arguments;
    assert(a[0] == 's' && b[0] == 'c');
    assert(trim_start(a) == a && trim_start(b) == b);
    assert(a.take(4) =~= "ssh "@);
    assert(a.skip(4) =~= arguments);
    assert(b.take("command ssh "@.len() as int) =~= "command ssh "@);
    assert(b.skip("command ssh "@.len() as int) =~= arguments);
    assert(!"ssh "@.is_prefix_of(b)) by {
        assert("ssh "@[0] != b[0]);
    }
    assert(trim_start(arguments) == arguments);
}

/// The log of a session's containers is followed on this machine exactly where the session runs on
/// it; else on the host that the session names.
pub proof fn law_log_target(facts: SessionFacts)
    ensures
        log_target_of(facts) is Local <==> !facts.is_remote,
        log_target_of(facts) matches LogTargetView::RemoteSsh { host, port, control_path, .. }
            ==> port == opt_view(facts.ssh_port) && control_path == opt_view(facts.control_path)
            && (facts.ssh_host matches Some(named) ==> host == named@) && (facts.ssh_host is None
            && facts.user@.len() > 0 && facts.hostname@.len() > 0 ==> host == facts.user@ + "@"@
            + facts.hostname@),
        log_target_of(facts) matches LogTargetView::RemoteSsh { spawning_command, .. } ==> (
        facts.spawning_command matches Some(command) ==> (!is_blank(command@)
            ==> spawning_command == Some(trim(command@)))),
{
}

/// An image is told from its tag by the colon behind its last slash, so that the port of a registry
/// is no tag; from its digest by the first at sign; and without either its tag is the latest.
pub proof fn law_image_tag(name: Seq<char>, tag: Seq<char>)
    requires
        !name.contains('@'),
        !tag.contains('/'),
        !tag.contains(':'),
    ensures
        !tag.contains('@') ==> image_parts(name.push(':') + tag) == (name, tag),
        image_parts(name.push('@') + tag) == (name, tag),
        !tag.contains('@') ==> image_parts(name.push('/') + tag) == (
            name.push('/') + tag,
            "latest"@,
        ),
        !tag.contains('@') ==> image_parts(tag) == (tag, "latest"@),
{
    let tagged = name.push(':') + tag;
    let digested = name.push('@') + tag;
    let plain = name.push('/') + tag;
    let at = name.len() as int;
    assert(digested[at] == '@');
    assert(digested.contains('@'));
    lemma_find_unique(digested, '@', at);
    assert(digested.take(at) =~= name);
    assert(digested.skip(at + 1) =~= tag);
    if !tag.contains('@') {
        assert(!tagged.contains('@'));
        assert(!plain.contains('@'));
        lemma_rfind_at(tagged, ':', at);
        lemma_rfind_before(tagged, '/', at);
        assert(tagged.take(at) =~= name);
        assert(tagged.skip(at + 1) =~= tag);
        lemma_rfind_at(plain, '/', at);
        lemma_rfind_before(plain, ':', at);
        lemma_rfind_before(tag, ':', 0);
        lemma_rfind_before(tag, '/', 0);
    }
}

proof fn lemma_rfind_at(s: Seq<char>, c: char, at: int)
    requires
        0 <= at < s.len(),
        s[at] == c,
        forall|i: int| at < i < s.len() ==> s[i] != c,
    ensures
        rfind(s, c) == at,
    decreases s.len(),
{
    if at < s.len() - 1 {
        lemma_rfind_at(s.drop_last(), c, at);
    }
}

proof fn lemma_rfind_before(s: Seq<char>, c: char, at: int)
    requires
        0 <= at <= s.len(),
        forall|i: int| at <= i < s.len() ==> s[i] != c,
    ensures
        -1 <= rfind(s, c) < at || (at == 0 && rfind(s, c) == -1),
    decreases s.len(),
{
    if s.len() > at {
        lemma_rfind_before(s.drop_last(), c, at);
    } else if s.len() > 0 {
        if s.last() != c {
            lemma_rfind_before(s.drop_last(), c, at - 1);
        }
    }
}

} // verus!
