//! The commands of an attach, and what they print.

use vstd::prelude::*;

use crate::arthas::ip;
use crate::exec::shell;
use crate::exec::shell::Script;
use crate::exec::ssh;
use crate::ids;
use crate::text;

pub use crate::ids::generate_token;

verus! {

/// The first port that arthas may listen on.
pub const ARTHAS_PORT_START: u16 = 18563;

/// How many ports arthas may listen on.
pub const ARTHAS_PORT_CANDIDATES: u16 = 10;

/// Where the log of an attach lies, as told to the user.
pub const ARTHAS_LOG_HINT: &'static str = "/tmp/arthas-friday-<pid>.log";

// ---------------------------------------------------------------------------------------------
// Configuration
// ---------------------------------------------------------------------------------------------

/// The configuration of arthas: HTTP on a port of an address, behind a token, no telnet.
pub open spec fn properties(http_port: u16, token: Seq<char>, bind_ip: Seq<char>) -> Seq<char> {
    "arthas.config.overrideAll=true\narthas.mcpEndpoint=/mcp\narthas.telnetPort=-1\narthas.httpPort="@
        + text::dec(http_port as nat) + "\narthas.password="@ + token
        + "\narthas.localConnectionNonAuth=true\narthas.ip="@ + bind_ip + "\n"@
}

/// The configuration of arthas: HTTP on a port of an address, behind a token, no telnet.
fn arthas_properties_content_with_bind(http_port: u16, token: &str, bind_ip: &str) -> (r: String)
    ensures
        r@ == properties(http_port, token@, bind_ip@),
{
    "arthas.config.overrideAll=true\narthas.mcpEndpoint=/mcp\narthas.telnetPort=-1\narthas.httpPort=".to_owned()
        .concat(text::u64_text(http_port as u64).as_str())
        .concat("\narthas.password=")
        .concat(token)
        .concat("\narthas.localConnectionNonAuth=true\narthas.ip=")
        .concat(bind_ip)
        .concat("\n")
}

/// The configuration of arthas on a host, where only local connections are taken.
pub fn arthas_properties_content(http_port: u16, token: &str) -> (r: String)
    ensures
        r@ == properties(http_port, token@, "127.0.0.1"@),
{
    arthas_properties_content_with_bind(http_port, token, "127.0.0.1")
}

/// The configuration of arthas in a pod, where connections come from the host.
pub fn arthas_properties_content_pod(http_port: u16, token: &str) -> (r: String)
    ensures
        r@ == properties(http_port, token@, "0.0.0.0"@),
{
    arthas_properties_content_with_bind(http_port, token, "0.0.0.0")
}

/// A character that the shell takes as it is between quotes of either kind.
pub open spec fn is_inert(c: char) -> bool {
    c != '\'' && c != '$'
}

/// Whether every character is inert.
pub open spec fn all_inert(s: Seq<char>) -> bool {
    forall|i: int| 0 <= i < s.len() ==> is_inert(#[trigger] s[i])
}

proof fn lemma_inert_concat(a: Seq<char>, b: Seq<char>)
    requires
        all_inert(a),
        all_inert(b),
    ensures
        all_inert(a + b),
{
    assert forall|i: int| 0 <= i < (a + b).len() implies is_inert(#[trigger] (a + b)[i]) by {
        if i < a.len() {
            assert(is_inert(a[i]));
        } else {
            assert(is_inert(b[i - a.len()]));
        }
    }
}

proof fn lemma_inert_dec(n: nat)
    ensures
        all_inert(text::dec(n)),
{
    text::lemma_dec_plain(n);
    assert forall|i: int| 0 <= i < text::dec(n).len() implies is_inert(
        #[trigger] text::dec(n)[i],
    ) by {
        assert(text::is_digit(text::dec(n)[i]));
    }
}

/// The configuration holds no single quote and no dollar sign, for both addresses, exactly where the
/// token holds none, so it can then stand between single quotes as it is.
pub proof fn law_properties_are_inert(http_port: u16, token: Seq<char>, bind_ip: Seq<char>)
    requires
        bind_ip == "127.0.0.1"@ || bind_ip == "0.0.0.0"@,
    ensures
        all_inert(properties(http_port, token, bind_ip)) <==> all_inert(token),
{
    reveal_strlit("arthas.config.overrideAll=true\narthas.mcpEndpoint=/mcp\narthas.telnetPort=-1\narthas.httpPort=");
    reveal_strlit("\narthas.password=");
    reveal_strlit("\narthas.localConnectionNonAuth=true\narthas.ip=");
    reveal_strlit("\n");
    reveal_strlit("127.0.0.1");
    reveal_strlit("0.0.0.0");
    let a = "arthas.config.overrideAll=true\narthas.mcpEndpoint=/mcp\narthas.telnetPort=-1\narthas.httpPort="@;
    let p = text::dec(http_port as nat);
    let b = "\narthas.password="@;
    let c = "\narthas.localConnectionNonAuth=true\narthas.ip="@;
    let d = "\n"@;
    let whole = properties(http_port, token, bind_ip);
    if all_inert(token) {
        lemma_inert_dec(http_port as nat);
        lemma_inert_concat(a, p);
        lemma_inert_concat(a + p, b);
        lemma_inert_concat(a + p + b, token);
        lemma_inert_concat(a + p + b + token, c);
        lemma_inert_concat(a + p + b + token + c, bind_ip);
        lemma_inert_concat(a + p + b + token + c + bind_ip, d);
    }
    if all_inert(whole) {
        let k = (a + p + b).len();
        assert forall|i: int| 0 <= i < token.len() implies is_inert(#[trigger] token[i]) by {
            assert(whole[k + i] == token[i]);
        }
    }
}

/// A token that was drawn holds no single quote and no dollar sign.
pub proof fn law_tokens_are_inert(token: Seq<char>)
    requires
        ids::is_token(token),
    ensures
        all_inert(token),
{
    assert forall|i: int| 0 <= i < token.len() implies is_inert(#[trigger] token[i]) by {
        assert(ids::is_hex(token[i]));
    }
}

// ---------------------------------------------------------------------------------------------
// Users
// ---------------------------------------------------------------------------------------------

/// Prints the user of a process, three dashes, and the user of this session.
pub open spec fn user_check(pid: i64) -> Seq<char> {
    "ps -o user= -p "@ + text::signed_dec(pid as int) + " 2>/dev/null; echo '---'; id -un"@
}

/// Prints the user of a process, three dashes, and the user of this session.
pub fn check_user_command(pid: i64) -> (r: String)
    ensures
        r@ == user_check(pid),
{
    "ps -o user= -p ".to_owned()
        .concat(text::i64_text(pid).as_str())
        .concat(" 2>/dev/null; echo '---'; id -un")
}

/// The part of the output before the dashes.
pub open spec fn before_dashes(stdout: Seq<char>) -> Seq<char> {
    match text::split_once(stdout, "---"@) {
        Some((a, _)) => a,
        None => stdout,
    }
}

/// The part of the output behind the dashes.
pub open spec fn behind_dashes(stdout: Seq<char>) -> Seq<char> {
    match text::split_once(stdout, "---"@) {
        Some((_, b)) => b,
        None => Seq::empty(),
    }
}

/// The last line that is not blank, trimmed; empty where there is none.
pub open spec fn last_line(s: Seq<char>) -> Seq<char> {
    let filled = text::filled_lines(s);
    if filled.len() == 0 {
        Seq::empty()
    } else {
        filled.last()
    }
}

/// The users of the JVM and of the session, or why they are not known.
pub open spec fn users(stdout: Seq<char>) -> Result<(Seq<char>, Seq<char>), Seq<char>> {
    let jvm = last_line(before_dashes(stdout));
    let ssh = last_line(behind_dashes(stdout));
    if jvm.len() == 0 {
        Err("目标进程不存在或已退出（ps 无属主输出）"@)
    } else if ssh.len() == 0 {
        Err("无法确定当前 SSH 用户（id -un 无输出）"@)
    } else {
        Ok((jvm, ssh))
    }
}

fn last_line_of(s: &str) -> (r: String)
    ensures
        r@ == last_line(s@),
{
    let filled: Vec<String> = text::filled_lines_of(s);
    proof {
        assert(text::views(filled@).len() == filled@.len());
        assert(text::filled_lines(s@).len() == filled@.len());
    }
    if filled.len() == 0 {
        String::new()
    } else {
        proof {
            assert(text::filled_lines(s@).last() == filled@[filled@.len() - 1]@);
        }
        filled[filled.len() - 1].clone()
    }
}

/// The users of the JVM and of the session.
pub fn parse_user_check(stdout: &str) -> (r: Result<(String, String), String>)
    ensures
        (match r {
            Ok((a, b)) => Ok((a@, b@)),
            Err(e) => Err(e@),
        }) == users(stdout@),
{
    let parts: (String, String) = match text::split_at_first(stdout, "---") {
        Some((a, b)) => (a, b),
        None => (stdout.to_owned(), String::new()),
    };
    let jvm: String = last_line_of(parts.0.as_str());
    let ssh: String = last_line_of(parts.1.as_str());
    if jvm.as_str().is_empty() {
        return Err("目标进程不存在或已退出（ps 无属主输出）".to_owned());
    }
    if ssh.as_str().is_empty() {
        return Err("无法确定当前 SSH 用户（id -un 无输出）".to_owned());
    }
    Ok((jvm, ssh))
}

// ---------------------------------------------------------------------------------------------
// Ports
// ---------------------------------------------------------------------------------------------

/// Prints `busy` where a local port takes connections, `free` where it does not.
pub open spec fn port_probe(port: u16) -> Seq<char> {
    "if (exec 3<>/dev/tcp/127.0.0.1/"@ + text::dec(port as nat)
        + ") 2>/dev/null; then exec 3>&- 3<&-; echo busy; else echo free; fi"@
}

/// Prints `busy` where a local port takes connections, `free` where it does not.
pub fn port_probe_command(port: u16) -> (r: String)
    ensures
        r@ == port_probe(port),
{
    "if (exec 3<>/dev/tcp/127.0.0.1/".to_owned()
        .concat(text::u64_text(port as u64).as_str())
        .concat(") 2>/dev/null; then exec 3>&- 3<&-; echo busy; else echo free; fi")
}

/// Prints the address of a pod.
pub open spec fn pod_ip_query(pod: Seq<char>) -> Seq<char> {
    "kubectl get pod "@ + ssh::shell_quote(pod) + " -o jsonpath='{.status.podIP}'"@
}

/// Prints the address of a pod.
pub fn pod_ip_command(pod: &str) -> (r: String)
    ensures
        r@ == pod_ip_query(pod@),
{
    "kubectl get pod ".to_owned()
        .concat(ssh::shell_quote_single(pod).as_str())
        .concat(" -o jsonpath='{.status.podIP}'")
}

/// Prints `busy` where a port of a pod takes connections, `free` where it does not.
pub open spec fn pod_ip_probe(pod_ip: Seq<char>, port: u16) -> Seq<char> {
    "timeout 1 bash -c 'exec 3<>/dev/tcp/"@ + pod_ip + "/"@ + text::dec(port as nat)
        + "' 2>/dev/null && echo busy || echo free"@
}

/// Prints `busy` where a port of a pod takes connections, `free` where it does not.
pub fn pod_ip_probe_command(pod_ip: &str, port: u16) -> (r: String)
    ensures
        r@ == pod_ip_probe(pod_ip@, port),
{
    "timeout 1 bash -c 'exec 3<>/dev/tcp/".to_owned()
        .concat(pod_ip)
        .concat("/")
        .concat(text::u64_text(port as u64).as_str())
        .concat("' 2>/dev/null && echo busy || echo free")
}

/// Checks that what kubectl printed is the address of a pod.
pub fn validate_pod_ip(pod_ip: &str) -> (r: Result<(), String>)
    ensures
        r is Ok <==> ip::is_ip(pod_ip@),
        r matches Err(e) ==> e@ == pod_ip_error(pod_ip@),
{
    if ip::ip(pod_ip) {
        Ok(())
    } else {
        Err(pod_ip_error_text(pod_ip))
    }
}

pub open spec fn pod_ip_error(pod_ip: Seq<char>) -> Seq<char> {
    "kubectl 返回的 PodIP 不是合法 IP: "@ + text::quoted(pod_ip)
}

fn pod_ip_error_text(pod_ip: &str) -> (r: String)
    ensures
        r@ == pod_ip_error(pod_ip@),
{
    "kubectl 返回的 PodIP 不是合法 IP: ".to_owned().concat(text::debug_text(pod_ip).as_str())
}

/// Prints the first two free ports of so many candidates, one to a line.
pub open spec fn free_port_search(start: u16, count: u16) -> Seq<char> {
    "for p in $(seq "@ + text::dec(start as nat) + " "@ + text::dec((start + count - 1) as nat)
        + "); do if (exec 3<>/dev/tcp/127.0.0.1/$p) 2>/dev/null; then exec 3>&- 3<&-; else echo $p; fi; done | head -2; true"@
}

/// Prints the first two free ports of so many candidates, one to a line.
pub fn find_free_port_command(start: u16, count: u16) -> (r: String)
    requires
        1 <= start + count <= u16::MAX,
    ensures
        r@ == free_port_search(start, count),
{
    let end: u16 = start + count - 1;
    "for p in $(seq ".to_owned().concat(text::u64_text(start as u64).as_str()).concat(" ").concat(
        text::u64_text(end as u64).as_str(),
    ).concat(
        "); do if (exec 3<>/dev/tcp/127.0.0.1/$p) 2>/dev/null; then exec 3>&- 3<&-; else echo $p; fi; done | head -2; true",
    )
}

/// Prints the first two free ports of so many candidates of a pod, one to a line.
pub open spec fn free_port_search_pod(pod_ip: Seq<char>, start: u16, count: u16) -> Seq<char> {
    "for p in $(seq "@ + text::dec(start as nat) + " "@ + text::dec((start + count - 1) as nat)
        + "); do timeout 1 bash -c \"exec 3<>/dev/tcp/"@ + pod_ip
        + "/$p\" 2>/dev/null || echo $p; done | head -2; true"@
}

/// Prints the first two free ports of so many candidates of a pod, one to a line.
pub fn find_free_port_pod_command(pod_ip: &str, start: u16, count: u16) -> (r: String)
    requires
        1 <= start + count <= u16::MAX,
    ensures
        r@ == free_port_search_pod(pod_ip@, start, count),
{
    let end: u16 = start + count - 1;
    "for p in $(seq ".to_owned().concat(text::u64_text(start as u64).as_str()).concat(" ").concat(
        text::u64_text(end as u64).as_str(),
    ).concat("); do timeout 1 bash -c \"exec 3<>/dev/tcp/").concat(pod_ip).concat(
        "/$p\" 2>/dev/null || echo $p; done | head -2; true",
    )
}

/// The ports that the lines are the numerals of, in order; lines that are none are passed over.
pub open spec fn ports_in(lines: Seq<Seq<char>>) -> Seq<nat>
    decreases lines.len(),
{
    if lines.len() == 0 {
        Seq::empty()
    } else {
        match text::parse_uint(lines.last(), u16::MAX as nat) {
            Some(p) => ports_in(lines.drop_last()).push(p),
            None => ports_in(lines.drop_last()),
        }
    }
}

/// The last port that arthas may listen on.
pub open spec fn last_candidate() -> nat {
    (ARTHAS_PORT_START + ARTHAS_PORT_CANDIDATES - 1) as nat
}

/// The first two free ports, or why there are not two.
pub open spec fn free_ports(stdout: Seq<char>) -> Result<(nat, nat), Seq<char>> {
    let ports = ports_in(text::filled_lines(stdout));
    if ports.len() >= 2 {
        Ok((ports[0], ports[1]))
    } else if ports.len() == 1 {
        Err(
            "端口 "@ + text::dec(ARTHAS_PORT_START as nat) + "~"@ + text::dec(last_candidate())
                + " 中只有 1 个空闲（需要 2 个：HTTP + telnet 预检），请稍后重试"@,
        )
    } else {
        Err(
            "端口 "@ + text::dec(ARTHAS_PORT_START as nat) + "~"@ + text::dec(last_candidate())
                + " 均被占用，请减少同机并发 attach 的 JVM 数或稍后重试"@,
        )
    }
}

/// The ports that a sequence of them stands for.
pub open spec fn port_numbers(ports: Seq<u16>) -> Seq<nat> {
    ports.map_values(|p: u16| p as nat)
}

fn range_text(tail: &str) -> (r: String)
    ensures
        r@ == "端口 "@ + text::dec(ARTHAS_PORT_START as nat) + "~"@ + text::dec(last_candidate())
            + tail@,
{
    "端口 ".to_owned().concat(text::u64_text(ARTHAS_PORT_START as u64).as_str()).concat("~").concat(
        text::u64_text((ARTHAS_PORT_START + ARTHAS_PORT_CANDIDATES - 1) as u64).as_str(),
    ).concat(tail)
}

/// The ports for HTTP and for the telnet check: the first two free ones.
pub fn parse_free_port(stdout: &str) -> (r: Result<(u16, u16), String>)
    ensures
        (match r {
            Ok((a, b)) => Ok((a as nat, b as nat)),
            Err(e) => Err(e@),
        }) == free_ports(stdout@),
{
    let lines: Vec<String> = text::filled_lines_of(stdout);
    let ghost all = text::filled_lines(stdout@);
    let mut ports: Vec<u16> = Vec::new();
    let mut i: usize = 0;
    proof {
        assert(all.len() == lines@.len());
        assert(port_numbers(ports@) =~= ports_in(all.take(0)));
    }
    while i < lines.len()
        invariant
            i <= lines@.len(),
            text::views(lines@) == all,
            all.len() == lines@.len(),
            port_numbers(ports@) == ports_in(all.take(i as int)),
        decreases lines.len() - i,
    {
        let ghost before = ports@;
        proof {
            assert(all.take(i as int + 1).drop_last() =~= all.take(i as int));
            assert(all.take(i as int + 1).last() == lines@[i as int]@);
        }
        match text::parse_number(lines[i].as_str(), u16::MAX as u64) {
            Some(p) => {
                ports.push(p as u16);
                proof {
                    assert(port_numbers(ports@) =~= port_numbers(before).push(p as nat));
                }
            },
            None => {},
        }
        i = i + 1;
    }
    proof {
        assert(all.take(i as int) =~= all);
        assert(port_numbers(ports@).len() == ports@.len());
    }
    if ports.len() >= 2 {
        return Ok((ports[0], ports[1]));
    }
    if ports.len() == 1 {
        return Err(
            range_text(" 中只有 1 个空闲（需要 2 个：HTTP + telnet 预检），请稍后重试"),
        );
    }
    Err(range_text(" 均被占用，请减少同机并发 attach 的 JVM 数或稍后重试"))
}

// ---------------------------------------------------------------------------------------------
// Attach and stop
// ---------------------------------------------------------------------------------------------

/// Writes the configuration where arthas reads it, readable for all.
pub open spec fn write_properties(home: Seq<char>, content: Seq<char>) -> Seq<char> {
    "printf '%s' "@ + ssh::shell_quote(content) + " > "@ + home
        + "/arthas.properties && chmod 644 "@ + home + "/arthas.properties"@
}

/// Writes the configuration where arthas reads it, readable for all.
pub fn write_properties_command(home: &str, content: &str) -> (r: String)
    ensures
        r@ == write_properties(home@, content@),
{
    "printf '%s' ".to_owned()
        .concat(ssh::shell_quote_single(content).as_str())
        .concat(" > ")
        .concat(home)
        .concat("/arthas.properties && chmod 644 ")
        .concat(home)
        .concat("/arthas.properties")
}

/// Attaches arthas to a process, in the background.
pub open spec fn attach(java: Seq<char>, home: Seq<char>, http_port: u16, telnet_det_port: u16, pid: i64) -> Seq<char> {
    "cd "@ + home + " && nohup "@ + java + " -jar arthas-boot.jar --attach-only --http-port "@
        + text::dec(http_port as nat) + " --telnet-port "@ + text::dec(telnet_det_port as nat)
        + " "@ + text::signed_dec(pid as int) + " < /dev/null >> /tmp/arthas-friday-"@
        + text::signed_dec(pid as int) + ".log 2>&1 & echo attach-started"@
}

/// Attaches arthas to a process, in the background.
pub fn attach_command(java: &str, home: &str, http_port: u16, telnet_det_port: u16, pid: i64) -> (r: String)
    ensures
        r@ == attach(java@, home@, http_port, telnet_det_port, pid),
{
    "cd ".to_owned()
        .concat(home)
        .concat(" && nohup ")
        .concat(java)
        .concat(" -jar arthas-boot.jar --attach-only --http-port ")
        .concat(text::u64_text(http_port as u64).as_str())
        .concat(" --telnet-port ")
        .concat(text::u64_text(telnet_det_port as u64).as_str())
        .concat(" ")
        .concat(text::i64_text(pid).as_str())
        .concat(" < /dev/null >> /tmp/arthas-friday-")
        .concat(text::i64_text(pid).as_str())
        .concat(".log 2>&1 & echo attach-started")
}

/// Asks arthas to stop, with curl or with wget; whatever comes of it counts as done.
pub open spec fn stop(port: u16, token: Seq<char>) -> Seq<char> {
    "curl -s -m 10 -X POST -H 'Authorization: Bearer "@ + token
        + "' -H 'Content-Type: application/json' -d '{\"action\":\"exec\",\"command\":\"stop\"}' http://127.0.0.1:"@
        + text::dec(port as nat)
        + "/api || wget -q -O /dev/null --header='Authorization: Bearer "@ + token
        + "' --post-data='{\"action\":\"exec\",\"command\":\"stop\"}' http://127.0.0.1:"@
        + text::dec(port as nat) + "/api || true"@
}

/// Asks arthas to stop, with curl or with wget; whatever comes of it counts as done.
pub fn stop_command(port: u16, token: &str) -> (r: String)
    ensures
        r@ == stop(port, token@),
{
    "curl -s -m 10 -X POST -H 'Authorization: Bearer ".to_owned()
        .concat(token)
        .concat("' -H 'Content-Type: application/json' -d '{\"action\":\"exec\",\"command\":\"stop\"}' http://127.0.0.1:")
        .concat(text::u64_text(port as u64).as_str())
        .concat("/api || wget -q -O /dev/null --header='Authorization: Bearer ")
        .concat(token)
        .concat("' --post-data='{\"action\":\"exec\",\"command\":\"stop\"}' http://127.0.0.1:")
        .concat(text::u64_text(port as u64).as_str())
        .concat("/api || true")
}

// ---------------------------------------------------------------------------------------------
// What is printed is read back
// ---------------------------------------------------------------------------------------------

/// A name of a user: a word without dashes.
pub open spec fn is_user_name(s: Seq<char>) -> bool {
    text::is_word(s) && !s.contains('-')
}

/// What the user check prints for two users.
pub open spec fn user_lines(jvm: Seq<char>, ssh: Seq<char>) -> Seq<char> {
    jvm + seq!['\n'] + "---"@ + (seq!['\n'] + (ssh + seq!['\n']))
}

/// The users that the check printed are the users that are read.
pub proof fn law_users_are_read_back(jvm: Seq<char>, ssh: Seq<char>)
    requires
        is_user_name(jvm),
        text::is_word(ssh),
    ensures
        users(user_lines(jvm, ssh)) == Ok::<(Seq<char>, Seq<char>), Seq<char>>((jvm, ssh)),
{
    reveal_strlit("---");
    let head = jvm + seq!['\n'];
    let tail = seq!['\n'] + (ssh + seq!['\n']);
    let whole = user_lines(jvm, ssh);
    let at = head.len() as int;
    assert(whole.subrange(at, at + 3) =~= "---"@);
    assert(text::occurs_at(whole, "---"@, at));
    assert forall|j: int| 0 <= j < at implies !text::occurs_at(whole, "---"@, j) by {
        if text::occurs_at(whole, "---"@, j) {
            assert(whole.subrange(j, j + 3)[0] == whole[j]);
            assert(whole[j] == head[j]);
            if j < jvm.len() {
                assert(head[j] == jvm[j]);
                assert(jvm.contains(jvm[j]));
            }
        }
    }
    text::lemma_split_once_at(whole, "---"@, at);
    assert(whole.subrange(0, at) =~= head);
    assert(whole.subrange(at + 3, whole.len() as int) =~= tail);
    text::lemma_word_line(jvm);
    text::lemma_word_line_after_blank(ssh);
}

/// The two free ports that the search printed are the ports that are read.
pub proof fn law_ports_are_read_back(a: u16, b: u16)
    ensures
        free_ports(
            text::dec(a as nat) + seq!['\n'] + (text::dec(b as nat) + seq!['\n']),
        ) == Ok::<(nat, nat), Seq<char>>((a as nat, b as nat)),
{
    let x = text::dec(a as nat);
    let y = text::dec(b as nat);
    text::lemma_dec_is_word(a as nat);
    text::lemma_dec_is_word(b as nat);
    text::lemma_two_word_lines(x, y);
    text::law_number_round_trip(a as nat, u16::MAX as nat);
    text::law_number_round_trip(b as nat, u16::MAX as nat);
    let lines = seq![x, y];
    assert(lines.drop_last() =~= seq![x]);
    assert(seq![x].drop_last() =~= Seq::<Seq<char>>::empty());
    assert(ports_in(Seq::<Seq<char>>::empty()) =~= Seq::<nat>::empty());
    assert(ports_in(seq![x]) =~= seq![a as nat]);
    assert(ports_in(lines) =~= seq![a as nat, b as nat]);
}

// ---------------------------------------------------------------------------------------------
// What the commands do
// ---------------------------------------------------------------------------------------------

/// The test that succeeds where a port of this machine takes connections.
pub open spec fn local_test(port: Seq<char>) -> Seq<char> {
    "(exec 3<>/dev/tcp/127.0.0.1/"@ + port + ") 2>/dev/null"@
}

/// What closes the connection of a test again.
pub open spec fn hang_up() -> Seq<char> {
    "exec 3>&- 3<&-"@
}

/// The test that succeeds where a port of a pod takes connections, in quotes of a kind.
pub open spec fn pod_test(pod_ip: Seq<char>, port: Seq<char>, quote: Seq<char>) -> Seq<char> {
    "timeout 1 bash -c "@ + quote + "exec 3<>/dev/tcp/"@ + pod_ip + "/"@ + port + quote
        + " 2>/dev/null"@
}

/// The script of one round of the local search.
pub open spec fn search_round() -> Script {
    Script::If {
        test: local_test("$p"@),
        yes: Box::new(Script::Run { cmd: hang_up() }),
        no: Box::new(Script::Echo { word: "$p"@ }),
    }
}

/// The script of one round of the search in a pod.
pub open spec fn search_round_pod(pod_ip: Seq<char>) -> Script {
    Script::Unless {
        test: pod_test(pod_ip, "$p"@, "\""@),
        no: Box::new(Script::Echo { word: "$p"@ }),
    }
}

/// Whether an answer names the first two ports of the range that are not open, or is an error
/// because there are no two.
pub open spec fn names_first_two_free(
    answer: Result<(nat, nat), Seq<char>>,
    start: u16,
    count: u16,
    open_port: spec_fn(nat) -> bool,
) -> bool {
    match answer {
        Ok((a, b)) => {
            &&& start <= a < b < start + count
            &&& !open_port(a)
            &&& !open_port(b)
            &&& forall|c: nat| start <= c < b && c != a ==> #[trigger] open_port(c)
        },
        Err(_) => forall|a: nat, b: nat|
            start <= a < b < start + count ==> #[trigger] open_port(a) || #[trigger] open_port(b),
    }
}

proof fn lemma_nothing_printed()
    ensures
        text::filled_lines(Seq::empty()) == Seq::<Seq<char>>::empty(),
{
    let e = Seq::<char>::empty();
    assert(text::split(e, text::Sep::Char('\n')) =~= seq![e]);
    assert(text::lines(e) =~= Seq::<Seq<char>>::empty());
    assert(text::lines(e).map_values(|l: Seq<char>| text::trimmed(l)) =~= Seq::<
        Seq<char>,
    >::empty());
}

/// A loop that prints the ports of a range that are not open is read as the first two of them.
proof fn lemma_search_is_read(
    start: u16,
    count: u16,
    body: Script,
    open_port: spec_fn(nat) -> bool,
    succeeds: spec_fn(Seq<char>, nat) -> bool,
    says: spec_fn(Seq<char>) -> Seq<Seq<char>>,
)
    requires
        1 <= start + count <= u16::MAX,
        forall|p: nat| #[trigger]
            shell::printed(body, p, succeeds, says) == (if !open_port(p) {
                seq![text::dec(p)]
            } else {
                Seq::empty()
            }),
    ensures
        names_first_two_free(
            free_ports(
                shell::as_text(
                    shell::loop_printed(
                        start as nat,
                        (start + count - 1) as nat,
                        body,
                        2,
                        succeeds,
                        says,
                    ),
                ),
            ),
            start,
            count,
            open_port,
        ),
{
    let first = start as nat;
    let last = (start + count - 1) as nat;
    let wanted = |p: nat| !open_port(p);
    assert forall|p: nat| #[trigger]
        shell::printed(body, p, succeeds, says) == (if wanted(p) {
            seq![text::dec(p)]
        } else {
            Seq::empty()
        }) by {}
    shell::lemma_rounds_list(first, last, body, succeeds, says, wanted);
    let all = shell::rounds_printed(first, last, body, succeeds, says);
    let (a, b) = shell::lemma_first_two(all, first, last, wanted);
    let out = shell::loop_printed(first, last, body, 2, succeeds, says);
    let none = Seq::<Seq<char>>::empty();
    assert(shell::as_text(none) =~= Seq::<char>::empty());
    assert forall|c: nat| #[trigger] open_port(c) == !wanted(c) by {}
    if all.len() >= 2 {
        let x = text::dec(a);
        let y = text::dec(b);
        assert(out =~= seq![x, y]);
        assert(seq![x, y].drop_last() =~= seq![x]);
        assert(seq![x].drop_last() =~= none);
        assert(shell::as_text(seq![x]) =~= x + seq!['\n']);
        assert(shell::as_text(out) =~= x + seq!['\n'] + (y + seq!['\n']));
        law_ports_are_read_back(a as u16, b as u16);
        assert forall|c: nat| start <= c < b && c != a implies #[trigger] open_port(c) by {
            assert(!wanted(c));
        }
    } else if all.len() == 1 {
        let x = text::dec(a);
        assert(out =~= seq![x]);
        assert(seq![x].drop_last() =~= none);
        assert(shell::as_text(out) =~= x + seq!['\n']);
        text::lemma_dec_is_word(a);
        text::lemma_word_line(x);
        text::law_number_round_trip(a, u16::MAX as nat);
        assert(ports_in(none) =~= Seq::<nat>::empty());
        assert(ports_in(seq![x]) =~= seq![a]);
        assert forall|c: nat, d: nat| start <= c < d < start + count implies #[trigger] open_port(c)
            || #[trigger] open_port(d) by {
            if c != a {
                assert(!wanted(c));
            } else {
                assert(!wanted(d));
            }
        }
    } else {
        assert(out =~= none);
        lemma_nothing_printed();
        assert(ports_in(none) =~= Seq::<nat>::empty());
        assert forall|c: nat, d: nat| start <= c < d < start + count implies #[trigger] open_port(c)
            || #[trigger] open_port(d) by {
            assert(!wanted(c));
        }
    }
}

proof fn lemma_two_is_written()
    ensures
        text::dec(2) == "2"@,
{
    reveal_strlit("2");
    assert(text::dec(2) =~= "2"@);
}

proof fn lemma_search_source(start: u16, count: u16)
    requires
        1 <= start + count <= u16::MAX,
    ensures
        free_port_search(start, count) == shell::loop_source(
            start as nat,
            (start + count - 1) as nat,
            search_round(),
            2,
        ),
{
    lemma_two_is_written();
    reveal_strlit("); do if (exec 3<>/dev/tcp/127.0.0.1/$p) 2>/dev/null; then exec 3>&- 3<&-; else echo $p; fi; done | head -2; true");
    reveal_strlit("); do ");
    reveal_strlit("if ");
    reveal_strlit("(exec 3<>/dev/tcp/127.0.0.1/");
    reveal_strlit("$p");
    reveal_strlit(") 2>/dev/null");
    reveal_strlit("; then ");
    reveal_strlit("exec 3>&- 3<&-");
    reveal_strlit("; else ");
    reveal_strlit("echo ");
    reveal_strlit("; fi");
    reveal_strlit("; done | head -");
    reveal_strlit("2");
    reveal_strlit("; true");
    reveal_with_fuel(shell::source, 3);
    let echo = "echo "@ + "$p"@;
    assert(shell::source(Script::Echo { word: "$p"@ }) == echo);
    assert(shell::source(Script::Run { cmd: hang_up() }) == "exec 3>&- 3<&-"@);
    let body = shell::source(search_round());
    assert(body == "if "@ + local_test("$p"@) + "; then "@ + hang_up() + "; else "@ + echo
        + "; fi"@);
    let tail = "); do "@ + body + "; done | head -"@ + "2"@ + "; true"@;
    assert(tail =~= "); do if (exec 3<>/dev/tcp/127.0.0.1/$p) 2>/dev/null; then exec 3>&- 3<&-; else echo $p; fi; done | head -2; true"@);
    let head = "for p in $(seq "@ + text::dec(start as nat) + " "@ + text::dec(
        (start + count - 1) as nat,
    );
    assert(head + "); do "@ + body + "; done | head -"@ + "2"@ + "; true"@ =~= head + tail);
}

/// Whichever ports of this machine are open, the search prints what is read as the first two
/// candidates that are not, or as an error where there are no two: an open port is never taken, and
/// no free one is passed over. With no port open, the first two candidates are taken.
pub proof fn law_search_finds_free_ports(
    start: u16,
    count: u16,
    open_port: spec_fn(nat) -> bool,
    succeeds: spec_fn(Seq<char>, nat) -> bool,
    says: spec_fn(Seq<char>) -> Seq<Seq<char>>,
)
    requires
        1 <= start + count <= u16::MAX,
        forall|p: nat| #[trigger]
            succeeds("(exec 3<>/dev/tcp/127.0.0.1/"@ + "$p"@ + ") 2>/dev/null"@, p) == open_port(p),
        says("exec 3>&- 3<&-"@).len() == 0,
    ensures
        ({
            let last = (start + count - 1) as nat;
            let printed = shell::as_text(
                shell::loop_printed(start as nat, last, search_round(), 2, succeeds, says),
            );
            &&& free_port_search(start, count) == shell::loop_source(
                start as nat,
                last,
                search_round(),
                2,
            )
            &&& names_first_two_free(free_ports(printed), start, count, open_port)
            &&& count >= 2 && (forall|p: nat|
                start <= p < start + count ==> !#[trigger] open_port(p)) ==> free_ports(printed)
                == Ok::<(nat, nat), Seq<char>>((start as nat, start as nat + 1))
        }),
{
    let body = search_round();
    let last = (start + count - 1) as nat;
    lemma_search_source(start, count);
    reveal_with_fuel(shell::printed, 3);
    assert forall|p: nat| #[trigger]
        shell::printed(body, p, succeeds, says) == (if !open_port(p) {
            seq![text::dec(p)]
        } else {
            Seq::empty()
        }) by {
        assert(succeeds(local_test("$p"@), p) == open_port(p));
        assert(says(hang_up()) =~= Seq::<Seq<char>>::empty());
    }
    lemma_search_is_read(start, count, body, open_port, succeeds, says);
    if count >= 2 && (forall|p: nat| start <= p < start + count ==> !#[trigger] open_port(p)) {
        assert(!open_port(start as nat));
        assert(!open_port(start as nat + 1));
    }
}

proof fn lemma_search_source_pod(pod_ip: Seq<char>, start: u16, count: u16)
    requires
        1 <= start + count <= u16::MAX,
    ensures
        free_port_search_pod(pod_ip, start, count) == shell::loop_source(
            start as nat,
            (start + count - 1) as nat,
            search_round_pod(pod_ip),
            2,
        ),
{
    lemma_two_is_written();
    reveal_strlit("); do timeout 1 bash -c \"exec 3<>/dev/tcp/");
    reveal_strlit("/$p\" 2>/dev/null || echo $p; done | head -2; true");
    reveal_strlit("); do ");
    reveal_strlit("timeout 1 bash -c ");
    reveal_strlit("\"");
    reveal_strlit("exec 3<>/dev/tcp/");
    reveal_strlit("/");
    reveal_strlit("$p");
    reveal_strlit(" 2>/dev/null");
    reveal_strlit(" || ");
    reveal_strlit("echo ");
    reveal_strlit("; done | head -");
    reveal_strlit("2");
    reveal_strlit("; true");
    reveal_with_fuel(shell::source, 3);
    let echo = "echo "@ + "$p"@;
    assert(shell::source(Script::Echo { word: "$p"@ }) == echo);
    let test = pod_test(pod_ip, "$p"@, "\""@);
    let body = shell::source(search_round_pod(pod_ip));
    assert(body == test + " || "@ + echo);
    let one = "); do timeout 1 bash -c \"exec 3<>/dev/tcp/"@;
    let two = "/$p\" 2>/dev/null || echo $p; done | head -2; true"@;
    assert(one =~= "); do "@ + "timeout 1 bash -c "@ + "\""@ + "exec 3<>/dev/tcp/"@);
    assert(two =~= "/"@ + "$p"@ + "\""@ + " 2>/dev/null"@ + " || "@ + echo + "; done | head -"@
        + "2"@ + "; true"@);
    let head = "for p in $(seq "@ + text::dec(start as nat) + " "@ + text::dec(
        (start + count - 1) as nat,
    );
    assert(head + "); do "@ + body + "; done | head -"@ + "2"@ + "; true"@ =~= head + one + pod_ip
        + two);
}

/// Whichever ports of a pod are open, the search prints what is read as the first two candidates
/// that are not, or as an error where there are no two.
pub proof fn law_search_finds_free_ports_of_pod(
    pod_ip: Seq<char>,
    start: u16,
    count: u16,
    open_port: spec_fn(nat) -> bool,
    succeeds: spec_fn(Seq<char>, nat) -> bool,
    says: spec_fn(Seq<char>) -> Seq<Seq<char>>,
)
    requires
        1 <= start + count <= u16::MAX,
        forall|p: nat| #[trigger]
            succeeds(
                "timeout 1 bash -c "@ + "\""@ + "exec 3<>/dev/tcp/"@ + pod_ip + "/"@ + "$p"@ + "\""@
                    + " 2>/dev/null"@,
                p,
            ) == open_port(p),
    ensures
        ({
            let last = (start + count - 1) as nat;
            let printed = shell::as_text(
                shell::loop_printed(start as nat, last, search_round_pod(pod_ip), 2, succeeds, says),
            );
            &&& free_port_search_pod(pod_ip, start, count) == shell::loop_source(
                start as nat,
                last,
                search_round_pod(pod_ip),
                2,
            )
            &&& names_first_two_free(free_ports(printed), start, count, open_port)
            &&& count >= 2 && (forall|p: nat|
                start <= p < start + count ==> !#[trigger] open_port(p)) ==> free_ports(printed)
                == Ok::<(nat, nat), Seq<char>>((start as nat, start as nat + 1))
        }),
{
    let body = search_round_pod(pod_ip);
    lemma_search_source_pod(pod_ip, start, count);
    reveal_with_fuel(shell::printed, 3);
    assert forall|p: nat| #[trigger]
        shell::printed(body, p, succeeds, says) == (if !open_port(p) {
            seq![text::dec(p)]
        } else {
            Seq::empty()
        }) by {
        assert(succeeds(pod_test(pod_ip, "$p"@, "\""@), p) == open_port(p));
    }
    lemma_search_is_read(start, count, body, open_port, succeeds, says);
    if count >= 2 && (forall|p: nat| start <= p < start + count ==> !#[trigger] open_port(p)) {
        assert(!open_port(start as nat));
        assert(!open_port(start as nat + 1));
    }
}

/// The script of the probe of a port of this machine.
pub open spec fn probe_script(port: u16) -> Script {
    Script::If {
        test: local_test(text::dec(port as nat)),
        yes: Box::new(
            Script::Both {
                first: Box::new(Script::Run { cmd: hang_up() }),
                second: Box::new(Script::Echo { word: "busy"@ }),
            },
        ),
        no: Box::new(Script::Echo { word: "free"@ }),
    }
}

/// The script of the probe of a port of a pod.
pub open spec fn probe_script_pod(pod_ip: Seq<char>, port: u16) -> Script {
    Script::Either {
        test: pod_test(pod_ip, text::dec(port as nat), "'"@),
        yes: Box::new(Script::Echo { word: "busy"@ }),
        no: Box::new(Script::Echo { word: "free"@ }),
    }
}

proof fn lemma_answer_is_read(word: Seq<char>)
    requires
        text::is_word(word),
    ensures
        text::trimmed(shell::as_text(seq![word])) == word,
{
    assert(seq![word].drop_last() =~= Seq::<Seq<char>>::empty());
    assert(shell::as_text(Seq::<Seq<char>>::empty()) =~= Seq::<char>::empty());
    assert(shell::as_text(seq![word]) =~= word + seq!['\n']);
    let whole = word + seq!['\n'];
    assert(whole[0] == word[0]);
    assert(text::trim_start(whole) == whole);
    assert(whole.drop_last() =~= word);
    reveal_with_fuel(text::trim_end, 2);
    assert(!text::is_white(word.last()));
    assert(text::trim_end(word) == word);
}

/// The probe of a port of this machine is read as busy exactly where the port takes connections.
pub proof fn law_probe_tells_busy_from_free(
    port: u16,
    succeeds: spec_fn(Seq<char>, nat) -> bool,
    says: spec_fn(Seq<char>) -> Seq<Seq<char>>,
    p: nat,
)
    requires
        says("exec 3>&- 3<&-"@).len() == 0,
    ensures
        port_probe(port) == shell::source(probe_script(port)),
        text::trimmed(
            shell::as_text(shell::printed(probe_script(port), p, succeeds, says)),
        ) == (if succeeds(
            "(exec 3<>/dev/tcp/127.0.0.1/"@ + text::dec(port as nat) + ") 2>/dev/null"@,
            p,
        ) {
            "busy"@
        } else {
            "free"@
        }),
{
    reveal_strlit("if (exec 3<>/dev/tcp/127.0.0.1/");
    reveal_strlit(") 2>/dev/null; then exec 3>&- 3<&-; echo busy; else echo free; fi");
    reveal_strlit("if ");
    reveal_strlit("(exec 3<>/dev/tcp/127.0.0.1/");
    reveal_strlit(") 2>/dev/null");
    reveal_strlit("; then ");
    reveal_strlit("exec 3>&- 3<&-");
    reveal_strlit("; ");
    reveal_strlit("; else ");
    reveal_strlit("echo ");
    reveal_strlit("busy");
    reveal_strlit("free");
    reveal_strlit("; fi");
    reveal_with_fuel(shell::source, 4);
    reveal_with_fuel(shell::printed, 4);
    let s = probe_script(port);
    let one = "if (exec 3<>/dev/tcp/127.0.0.1/"@;
    let two = ") 2>/dev/null; then exec 3>&- 3<&-; echo busy; else echo free; fi"@;
    assert(one =~= "if "@ + "(exec 3<>/dev/tcp/127.0.0.1/"@);
    assert(two =~= ") 2>/dev/null"@ + "; then "@ + ("exec 3>&- 3<&-"@ + "; "@ + ("echo "@
        + "busy"@)) + "; else "@ + ("echo "@ + "free"@) + "; fi"@);
    assert(shell::source(s) =~= one + text::dec(port as nat) + two);
    reveal_strlit("$p");
    assert("busy"@ != "$p"@) by {
        assert("busy"@.len() != "$p"@.len());
    }
    assert("free"@ != "$p"@) by {
        assert("free"@.len() != "$p"@.len());
    }
    assert(says(hang_up()) + seq!["busy"@] =~= seq!["busy"@]);
    lemma_answer_is_read("busy"@);
    lemma_answer_is_read("free"@);
}

/// The probe of a port of a pod is read as busy exactly where the port takes connections.
pub proof fn law_pod_probe_tells_busy_from_free(
    pod_ip: Seq<char>,
    port: u16,
    succeeds: spec_fn(Seq<char>, nat) -> bool,
    says: spec_fn(Seq<char>) -> Seq<Seq<char>>,
    p: nat,
)
    ensures
        pod_ip_probe(pod_ip, port) == shell::source(probe_script_pod(pod_ip, port)),
        text::trimmed(
            shell::as_text(shell::printed(probe_script_pod(pod_ip, port), p, succeeds, says)),
        ) == (if succeeds(
            "timeout 1 bash -c "@ + "'"@ + "exec 3<>/dev/tcp/"@ + pod_ip + "/"@ + text::dec(
                port as nat,
            ) + "'"@ + " 2>/dev/null"@,
            p,
        ) {
            "busy"@
        } else {
            "free"@
        }),
{
    reveal_strlit("timeout 1 bash -c 'exec 3<>/dev/tcp/");
    reveal_strlit("/");
    reveal_strlit("' 2>/dev/null && echo busy || echo free");
    reveal_strlit("timeout 1 bash -c ");
    reveal_strlit("'");
    reveal_strlit("exec 3<>/dev/tcp/");
    reveal_strlit(" 2>/dev/null");
    reveal_strlit(" && ");
    reveal_strlit(" || ");
    reveal_strlit("echo ");
    reveal_strlit("busy");
    reveal_strlit("free");
    reveal_with_fuel(shell::source, 3);
    reveal_with_fuel(shell::printed, 3);
    let s = probe_script_pod(pod_ip, port);
    let one = "timeout 1 bash -c 'exec 3<>/dev/tcp/"@;
    let two = "' 2>/dev/null && echo busy || echo free"@;
    assert(one =~= "timeout 1 bash -c "@ + "'"@ + "exec 3<>/dev/tcp/"@);
    assert(two =~= "'"@ + " 2>/dev/null"@ + " && "@ + ("echo "@ + "busy"@) + " || "@ + ("echo "@
        + "free"@));
    assert(shell::source(s) =~= one + pod_ip + "/"@ + text::dec(port as nat) + two);
    reveal_strlit("$p");
    assert("busy"@ != "$p"@) by {
        assert("busy"@.len() != "$p"@.len());
    }
    assert("free"@ != "$p"@) by {
        assert("free"@.len() != "$p"@.len());
    }
    lemma_answer_is_read("busy"@);
    lemma_answer_is_read("free"@);
}

/// The script of the check of the users.
pub open spec fn user_script(pid: i64) -> Script {
    Script::Both {
        first: Box::new(
            Script::Run { cmd: "ps -o user= -p "@ + text::signed_dec(pid as int) + " 2>/dev/null"@ },
        ),
        second: Box::new(
            Script::Both {
                first: Box::new(Script::EchoQuoted { word: "---"@ }),
                second: Box::new(Script::Run { cmd: "id -un"@ }),
            },
        ),
    }
}

/// The check of the users reads the user that `ps` names for the process as that of the JVM, and
/// the user that `id` names as that of the session.
pub proof fn law_users_are_told_apart(
    pid: i64,
    jvm: Seq<char>,
    ssh: Seq<char>,
    succeeds: spec_fn(Seq<char>, nat) -> bool,
    says: spec_fn(Seq<char>) -> Seq<Seq<char>>,
    p: nat,
)
    requires
        is_user_name(jvm),
        text::is_word(ssh),
        says("ps -o user= -p "@ + text::signed_dec(pid as int) + " 2>/dev/null"@) == seq![jvm],
        says("id -un"@) == seq![ssh],
    ensures
        user_check(pid) == shell::source(user_script(pid)),
        users(shell::as_text(shell::printed(user_script(pid), p, succeeds, says))) == Ok::<
            (Seq<char>, Seq<char>),
            Seq<char>,
        >((jvm, ssh)),
{
    reveal_strlit("ps -o user= -p ");
    reveal_strlit(" 2>/dev/null; echo '---'; id -un");
    reveal_strlit(" 2>/dev/null");
    reveal_strlit("; ");
    reveal_strlit("echo '");
    reveal_strlit("---");
    reveal_strlit("'");
    reveal_strlit("id -un");
    reveal_with_fuel(shell::source, 4);
    reveal_with_fuel(shell::printed, 4);
    let s = user_script(pid);
    let tail = " 2>/dev/null; echo '---'; id -un"@;
    assert(tail =~= " 2>/dev/null"@ + "; "@ + (("echo '"@ + "---"@ + "'"@) + "; "@ + "id -un"@));
    assert(shell::source(s) =~= "ps -o user= -p "@ + text::signed_dec(pid as int) + tail);
    let none = Seq::<Seq<char>>::empty();
    let out = shell::printed(s, p, succeeds, says);
    let dashes = "---"@;
    assert(out =~= seq![jvm, dashes, ssh]);
    assert(out.drop_last() =~= seq![jvm, dashes]);
    assert(seq![jvm, dashes].drop_last() =~= seq![jvm]);
    assert(seq![jvm].drop_last() =~= none);
    assert(shell::as_text(none) =~= Seq::<char>::empty());
    assert(shell::as_text(seq![jvm]) =~= jvm + seq!['\n']);
    let two = seq![jvm, dashes];
    assert(shell::as_text(two) =~= (jvm + seq!['\n']) + (dashes + seq!['\n']));
    assert(shell::as_text(out) =~= shell::as_text(two) + (ssh + seq!['\n']));
    assert(shell::as_text(out) =~= user_lines(jvm, ssh));
    law_users_are_read_back(jvm, ssh);
}

/// The configuration makes arthas listen on the port, ask for the token, listen at the address, serve
/// `/mcp` and open no telnet port.
pub proof fn law_properties_say_what_is_asked(
    http_port: u16,
    token: Seq<char>,
    bind_ip: Seq<char>,
)
    ensures
        ({
            let p = properties(http_port, token, bind_ip);
            &&& text::starts(
                p,
                "arthas.config.overrideAll=true\narthas.mcpEndpoint=/mcp\narthas.telnetPort=-1\narthas.httpPort="@
                    + text::dec(http_port as nat) + "\narthas.password="@,
            )
            &&& text::contains(
                p,
                "\narthas.password="@ + token + "\narthas.localConnectionNonAuth=true\narthas.ip="@,
            )
            &&& text::contains(
                p,
                "\narthas.localConnectionNonAuth=true\narthas.ip="@ + bind_ip + "\n"@,
            )
        }),
{
    let c0 = "arthas.config.overrideAll=true\narthas.mcpEndpoint=/mcp\narthas.telnetPort=-1\narthas.httpPort="@;
    let c1 = text::dec(http_port as nat);
    let c2 = "\narthas.password="@;
    let c3 = token;
    let c4 = "\narthas.localConnectionNonAuth=true\narthas.ip="@;
    let c5 = bind_ip;
    let c6 = "\n"@;
    let p0 = c0;
    let p1 = p0 + c1;
    let p2 = p1 + c2;
    let p3 = p2 + c3;
    let p4 = p3 + c4;
    let p5 = p4 + c5;
    let p6 = p5 + c6;
    let t2_5 = c2 + c3 + c4;
    text::lemma_part_of_three(p1, c2, c3, c4);
    text::lemma_part_kept(p4, t2_5, c5);
    text::lemma_part_kept(p5, t2_5, c6);
    let t4_7 = c4 + c5 + c6;
    text::lemma_part_of_three(p3, c4, c5, c6);
    text::lemma_start(p2, c3);
    text::lemma_start_kept(p3, p2, c4);
    text::lemma_start_kept(p4, p2, c5);
    text::lemma_start_kept(p5, p2, c6);
}

/// The configuration is written as it is: the shell hands it to `printf` as one word, and what is
/// printed goes to the file that arthas reads, which is then made readable for all.
pub proof fn law_properties_are_written_where_they_are_read(home: Seq<char>, content: Seq<char>)
    ensures
        ({
            let cmd = write_properties(home, content);
            &&& text::starts(cmd, "printf '%s' "@ + ssh::shell_quote(content) + " > "@ + home)
            &&& ssh::sh_word(ssh::shell_quote(content), false) == Some(content)
            &&& text::contains(cmd, " > "@ + home + "/arthas.properties && chmod 644 "@)
            &&& text::contains(
                cmd,
                "/arthas.properties && chmod 644 "@ + home + "/arthas.properties"@,
            )
        }),
{
    ssh::law_quote_round_trip(content);
    let c0 = "printf '%s' "@;
    let c1 = ssh::shell_quote(content);
    let c2 = " > "@;
    let c3 = home;
    let c4 = "/arthas.properties && chmod 644 "@;
    let c5 = home;
    let c6 = "/arthas.properties"@;
    let p0 = c0;
    let p1 = p0 + c1;
    let p2 = p1 + c2;
    let p3 = p2 + c3;
    let p4 = p3 + c4;
    let p5 = p4 + c5;
    let p6 = p5 + c6;
    let t2_5 = c2 + c3 + c4;
    text::lemma_part_of_three(p1, c2, c3, c4);
    text::lemma_part_kept(p4, t2_5, c5);
    text::lemma_part_kept(p5, t2_5, c6);
    let t4_7 = c4 + c5 + c6;
    text::lemma_part_of_three(p3, c4, c5, c6);
    text::lemma_start(p3, c4);
    text::lemma_start_kept(p4, p3, c5);
    text::lemma_start_kept(p5, p3, c6);
}

/// Arthas is started in its home, with the Java that is named, for the process and with the ports that
/// are named, and writes to the log of that process.
pub proof fn law_attach_names_its_process(
    java: Seq<char>,
    home: Seq<char>,
    http_port: u16,
    telnet_det_port: u16,
    pid: i64,
)
    ensures
        ({
            let cmd = attach(java, home, http_port, telnet_det_port, pid);
            let p = text::signed_dec(pid as int);
            &&& text::starts(cmd, "cd "@ + home + " && nohup "@ + java)
            &&& text::contains(
                cmd,
                " && nohup "@ + java + " -jar arthas-boot.jar --attach-only --http-port "@,
            )
            &&& text::contains(
                cmd,
                " -jar arthas-boot.jar --attach-only --http-port "@ + text::dec(http_port as nat)
                    + " --telnet-port "@,
            )
            &&& text::contains(
                cmd,
                " --telnet-port "@ + text::dec(telnet_det_port as nat) + " "@,
            )
            &&& text::contains(cmd, " "@ + p + " < /dev/null >> /tmp/arthas-friday-"@)
            &&& text::contains(
                cmd,
                " < /dev/null >> /tmp/arthas-friday-"@ + p + ".log 2>&1 & echo attach-started"@,
            )
        }),
{
    let c0 = "cd "@;
    let c1 = home;
    let c2 = " && nohup "@;
    let c3 = java;
    let c4 = " -jar arthas-boot.jar --attach-only --http-port "@;
    let c5 = text::dec(http_port as nat);
    let c6 = " --telnet-port "@;
    let c7 = text::dec(telnet_det_port as nat);
    let c8 = " "@;
    let c9 = text::signed_dec(pid as int);
    let c10 = " < /dev/null >> /tmp/arthas-friday-"@;
    let c11 = text::signed_dec(pid as int);
    let c12 = ".log 2>&1 & echo attach-started"@;
    let p0 = c0;
    let p1 = p0 + c1;
    let p2 = p1 + c2;
    let p3 = p2 + c3;
    let p4 = p3 + c4;
    let p5 = p4 + c5;
    let p6 = p5 + c6;
    let p7 = p6 + c7;
    let p8 = p7 + c8;
    let p9 = p8 + c9;
    let p10 = p9 + c10;
    let p11 = p10 + c11;
    let p12 = p11 + c12;
    let t2_5 = c2 + c3 + c4;
    text::lemma_part_of_three(p1, c2, c3, c4);
    text::lemma_part_kept(p4, t2_5, c5);
    text::lemma_part_kept(p5, t2_5, c6);
    text::lemma_part_kept(p6, t2_5, c7);
    text::lemma_part_kept(p7, t2_5, c8);
    text::lemma_part_kept(p8, t2_5, c9);
    text::lemma_part_kept(p9, t2_5, c10);
    text::lemma_part_kept(p10, t2_5, c11);
    text::lemma_part_kept(p11, t2_5, c12);
    let t4_7 = c4 + c5 + c6;
    text::lemma_part_of_three(p3, c4, c5, c6);
    text::lemma_part_kept(p6, t4_7, c7);
    text::lemma_part_kept(p7, t4_7, c8);
    text::lemma_part_kept(p8, t4_7, c9);
    text::lemma_part_kept(p9, t4_7, c10);
    text::lemma_part_kept(p10, t4_7, c11);
    text::lemma_part_kept(p11, t4_7, c12);
    let t6_9 = c6 + c7 + c8;
    text::lemma_part_of_three(p5, c6, c7, c8);
    text::lemma_part_kept(p8, t6_9, c9);
    text::lemma_part_kept(p9, t6_9, c10);
    text::lemma_part_kept(p10, t6_9, c11);
    text::lemma_part_kept(p11, t6_9, c12);
    let t8_11 = c8 + c9 + c10;
    text::lemma_part_of_three(p7, c8, c9, c10);
    text::lemma_part_kept(p10, t8_11, c11);
    text::lemma_part_kept(p11, t8_11, c12);
    let t10_13 = c10 + c11 + c12;
    text::lemma_part_of_three(p9, c10, c11, c12);
    text::lemma_start(p3, c4);
    text::lemma_start_kept(p4, p3, c5);
    text::lemma_start_kept(p5, p3, c6);
    text::lemma_start_kept(p6, p3, c7);
    text::lemma_start_kept(p7, p3, c8);
    text::lemma_start_kept(p8, p3, c9);
    text::lemma_start_kept(p9, p3, c10);
    text::lemma_start_kept(p10, p3, c11);
    text::lemma_start_kept(p11, p3, c12);
}

/// Arthas is asked to stop at the port that is named, with the token that is named, once with each of
/// two programs; neither failing makes the command fail.
pub proof fn law_stop_names_its_port(port: u16, token: Seq<char>)
    ensures
        ({
            let cmd = stop(port, token);
            let d = text::dec(port as nat);
            let curl = "' -H 'Content-Type: application/json' -d '{\"action\":\"exec\",\"command\":\"stop\"}' http://127.0.0.1:"@;
            let wget = "' --post-data='{\"action\":\"exec\",\"command\":\"stop\"}' http://127.0.0.1:"@;
            let other = "/api || wget -q -O /dev/null --header='Authorization: Bearer "@;
            &&& text::starts(cmd, "curl -s -m 10 -X POST -H 'Authorization: Bearer "@ + token)
            &&& text::contains(cmd, token + curl)
            &&& text::contains(cmd, curl + d + other)
            &&& text::contains(cmd, other + token + wget)
            &&& text::contains(cmd, wget + d + "/api || true"@)
        }),
{
    let c0 = "curl -s -m 10 -X POST -H 'Authorization: Bearer "@;
    let c1 = token;
    let c2 = "' -H 'Content-Type: application/json' -d '{\"action\":\"exec\",\"command\":\"stop\"}' http://127.0.0.1:"@;
    let c3 = text::dec(port as nat);
    let c4 = "/api || wget -q -O /dev/null --header='Authorization: Bearer "@;
    let c5 = token;
    let c6 = "' --post-data='{\"action\":\"exec\",\"command\":\"stop\"}' http://127.0.0.1:"@;
    let c7 = text::dec(port as nat);
    let c8 = "/api || true"@;
    let p0 = c0;
    let p1 = p0 + c1;
    let p2 = p1 + c2;
    let p3 = p2 + c3;
    let p4 = p3 + c4;
    let p5 = p4 + c5;
    let p6 = p5 + c6;
    let p7 = p6 + c7;
    let p8 = p7 + c8;
    let t1_3 = c1 + c2;
    text::lemma_part_of_two(p0, c1, c2);
    text::lemma_part_kept(p2, t1_3, c3);
    text::lemma_part_kept(p3, t1_3, c4);
    text::lemma_part_kept(p4, t1_3, c5);
    text::lemma_part_kept(p5, t1_3, c6);
    text::lemma_part_kept(p6, t1_3, c7);
    text::lemma_part_kept(p7, t1_3, c8);
    let t2_5 = c2 + c3 + c4;
    text::lemma_part_of_three(p1, c2, c3, c4);
    text::lemma_part_kept(p4, t2_5, c5);
    text::lemma_part_kept(p5, t2_5, c6);
    text::lemma_part_kept(p6, t2_5, c7);
    text::lemma_part_kept(p7, t2_5, c8);
    let t4_7 = c4 + c5 + c6;
    text::lemma_part_of_three(p3, c4, c5, c6);
    text::lemma_part_kept(p6, t4_7, c7);
    text::lemma_part_kept(p7, t4_7, c8);
    let t6_9 = c6 + c7 + c8;
    text::lemma_part_of_three(p5, c6, c7, c8);
    text::lemma_start(p1, c2);
    text::lemma_start_kept(p2, p1, c3);
    text::lemma_start_kept(p3, p1, c4);
    text::lemma_start_kept(p4, p1, c5);
    text::lemma_start_kept(p5, p1, c6);
    text::lemma_start_kept(p6, p1, c7);
    text::lemma_start_kept(p7, p1, c8);
}

/// The address of a pod is asked for by its name, as one word.
pub proof fn law_address_is_asked_of_its_pod(pod: Seq<char>)
    ensures
        text::starts(pod_ip_query(pod), "kubectl get pod "@ + ssh::shell_quote(pod)),
        ssh::sh_word(ssh::shell_quote(pod), false) == Some(pod),
        text::contains(pod_ip_query(pod), " -o jsonpath='{.status.podIP}'"@),
{
    ssh::law_quote_round_trip(pod);
    let head = "kubectl get pod "@ + ssh::shell_quote(pod);
    text::lemma_start(head, " -o jsonpath='{.status.podIP}'"@);
    text::lemma_part(head, " -o jsonpath='{.status.podIP}'"@);
}

/// Fewer than two free ports are an error that says how many there are: one, or none.
pub proof fn law_too_few_ports_are_refused(stdout: Seq<char>)
    ensures
        ({
            let n = ports_in(text::filled_lines(stdout)).len();
            &&& n >= 2 <==> free_ports(stdout) is Ok
            &&& n == 1 ==> (free_ports(stdout) matches Err(e) && text::contains(
                e,
                " 中只有 1 个空闲（需要 2 个：HTTP + telnet 预检），请稍后重试"@,
            ))
            &&& n == 0 ==> (free_ports(stdout) matches Err(e) && text::contains(
                e,
                " 均被占用，请减少同机并发 attach 的 JVM 数或稍后重试"@,
            ))
        }),
{
    let head = "端口 "@ + text::dec(ARTHAS_PORT_START as nat) + "~"@ + text::dec(last_candidate());
    text::lemma_part(head, " 中只有 1 个空闲（需要 2 个：HTTP + telnet 预检），请稍后重试"@);
    text::lemma_part(head, " 均被占用，请减少同机并发 attach 的 JVM 数或稍后重试"@);
}

} // verus!
