//! The way to arthas in a pod: `kubectl port-forward` on the host, and a tunnel from here to the
//! port that it listens on.

use vstd::prelude::*;

use crate::exec::k8s;
use crate::exec::ssh;
use crate::flow;
use crate::flow::{Action, Output, Reply, Site};
use crate::json;
use crate::json::Json;
use crate::text;

verus! {

/// Where the host's end of a tunnel listens.
pub const TUNNEL_REMOTE_HOST: &'static str = "127.0.0.1";

/// Where the local end of a tunnel listens.
pub const TUNNEL_LOCAL_HOST: &'static str = "127.0.0.1";

/// How long the log of a port-forward may lack the line that names its port, in milliseconds.
pub const PF_LOG_POLL_BUDGET_MS: u64 = 10000;

/// How long to wait between two looks at the log, in milliseconds.
pub const PF_LOG_POLL_INTERVAL_MS: u64 = 500;

/// How long the local end may refuse connections, in milliseconds.
pub const PF_HEALTH_BUDGET_MS: u64 = 2000;

/// How long to wait between two attempts to connect, in milliseconds.
pub const PROBE_INTERVAL_MS: u64 = 200;

/// How long a command of the tunnel may take, in seconds.
pub const PF_COMMAND_SECS: u64 = 15;

/// A tunnel that stands.
#[derive(Clone, Copy, Debug, PartialEq, Eq, Structural)]
pub struct PfLease {
    /// The process of the port-forward on the host.
    pub pf_pid: u32,
    /// The port that it listens on.
    pub host_port: u16,
    /// The local port that leads to it.
    pub local_port: u16,
}

/// How long the steps of a tunnel may take, in milliseconds.
#[derive(Clone, Copy, Debug, PartialEq, Eq, Structural)]
pub struct PfTunnelParams {
    pub log_budget: u64,
    pub log_interval: u64,
    pub health_budget: u64,
}

/// The limits of a tunnel where none are given.
pub open spec fn default_params() -> PfTunnelParams {
    PfTunnelParams {
        log_budget: PF_LOG_POLL_BUDGET_MS,
        log_interval: PF_LOG_POLL_INTERVAL_MS,
        health_budget: PF_HEALTH_BUDGET_MS,
    }
}

impl Default for PfTunnelParams {
    fn default() -> (r: Self)
        ensures
            r == default_params(),
    {
        PfTunnelParams {
            log_budget: PF_LOG_POLL_BUDGET_MS,
            log_interval: PF_LOG_POLL_INTERVAL_MS,
            health_budget: PF_HEALTH_BUDGET_MS,
        }
    }
}

// ---------------------------------------------------------------------------------------------
// Commands, and what they print
// ---------------------------------------------------------------------------------------------

/// The flag that names the container, as it stands on a command line that is running.
pub open spec fn bare_flag(container: Option<Seq<char>>) -> Seq<char> {
    match container {
        Some(c) => "-c "@ + c + " "@,
        None => Seq::empty(),
    }
}

fn bare_flag_text(container: Option<&str>) -> (r: String)
    ensures
        r@ == bare_flag(text::opt_str(container)),
{
    match container {
        Some(c) => "-c ".to_owned().concat(c).concat(" "),
        None => String::new(),
    }
}

/// The command line of the port-forward of a session.
pub open spec fn pf_cmdline(pod: Seq<char>, container: Option<Seq<char>>, mcp_port: u16) -> Seq<char> {
    "kubectl port-forward pod/"@ + pod + " "@ + bare_flag(container) + "--address 127.0.0.1 0:"@
        + text::dec(mcp_port as nat)
}

/// The command line of the port-forward of a session.
fn pf_cmdline_text(pod: &str, container: Option<&str>, mcp_port: u16) -> (r: String)
    ensures
        r@ == pf_cmdline(pod@, text::opt_str(container), mcp_port),
{
    "kubectl port-forward pod/".to_owned()
        .concat(pod)
        .concat(" ")
        .concat(bare_flag_text(container).as_str())
        .concat("--address 127.0.0.1 0:")
        .concat(text::u64_text(mcp_port as u64).as_str())
}

/// Kills the port-forward that a session like this one left behind, by its command line.
pub open spec fn pf_cleanup(pod: Seq<char>, container: Option<Seq<char>>, mcp_port: u16) -> Seq<char> {
    "pkill -f "@ + ssh::shell_quote(k8s::kill_pattern(pf_cmdline(pod, container, mcp_port)))
        + " || true"@
}

/// Kills the port-forward that a session like this one left behind, by its command line.
pub fn pf_cleanup_command(pod: &str, container: Option<&str>, mcp_port: u16) -> (r: String)
    ensures
        r@ == pf_cleanup(pod@, text::opt_str(container), mcp_port),
{
    "pkill -f ".to_owned()
        .concat(ssh::shell_quote_single(k8s::pkill_pattern(pf_cmdline_text(pod, container, mcp_port).as_str()).as_str()).as_str())
        .concat(" || true")
}

/// The log of the port-forward of a session.
pub open spec fn pf_log(pod: Seq<char>, mcp_port: u16) -> Seq<char> {
    "/tmp/friday-tools/pf-"@ + pod + "-"@ + text::dec(mcp_port as nat) + ".log"@
}

/// The log of the port-forward of a session.
pub fn pf_log_path(pod: &str, mcp_port: u16) -> (r: String)
    ensures
        r@ == pf_log(pod@, mcp_port),
{
    "/tmp/friday-tools/pf-".to_owned()
        .concat(pod)
        .concat("-")
        .concat(text::u64_text(mcp_port as u64).as_str())
        .concat(".log")
}

/// Starts the port-forward of a session and prints its process number.
pub open spec fn pf_start(pod: Seq<char>, container: Option<Seq<char>>, mcp_port: u16) -> Seq<char> {
    "mkdir -p /tmp/friday-tools && nohup kubectl port-forward pod/"@ + ssh::shell_quote(pod)
        + " "@ + k8s::container_flag(container) + "--address 127.0.0.1 0:"@
        + text::dec(mcp_port as nat) + " < /dev/null > "@
        + ssh::shell_quote(pf_log(pod, mcp_port)) + " 2>&1 & echo $!"@
}

/// Starts the port-forward of a session and prints its process number.
pub fn pf_start_command(pod: &str, container: Option<&str>, mcp_port: u16) -> (r: String)
    ensures
        r@ == pf_start(pod@, text::opt_str(container), mcp_port),
{
    "mkdir -p /tmp/friday-tools && nohup kubectl port-forward pod/".to_owned()
        .concat(ssh::shell_quote_single(pod).as_str())
        .concat(" ")
        .concat(k8s::container_flag_text(container).as_str())
        .concat("--address 127.0.0.1 0:")
        .concat(text::u64_text(mcp_port as u64).as_str())
        .concat(" < /dev/null > ")
        .concat(ssh::shell_quote_single(pf_log_path(pod, mcp_port).as_str()).as_str())
        .concat(" 2>&1 & echo $!")
}

/// Prints the log of the port-forward of a session.
pub open spec fn pf_log_read(pod: Seq<char>, mcp_port: u16) -> Seq<char> {
    "cat "@ + ssh::shell_quote(pf_log(pod, mcp_port)) + " 2>/dev/null || true"@
}

/// Prints the log of the port-forward of a session.
pub fn pf_log_read_command(pod: &str, mcp_port: u16) -> (r: String)
    ensures
        r@ == pf_log_read(pod@, mcp_port),
{
    "cat ".to_owned()
        .concat(ssh::shell_quote_single(pf_log_path(pod, mcp_port).as_str()).as_str())
        .concat(" 2>/dev/null || true")
}

/// Kills a port-forward.
pub open spec fn kill_pf(pid: u32) -> Seq<char> {
    "kill "@ + text::dec(pid as nat) + " 2>/dev/null || true"@
}

/// Kills a port-forward.
pub fn kill_pf_command(pid: u32) -> (r: String)
    ensures
        r@ == kill_pf(pid),
{
    "kill ".to_owned()
        .concat(text::u64_text(pid as u64).as_str())
        .concat(" 2>/dev/null || true")
}

/// The process number that the start of a port-forward printed.
pub open spec fn pf_pid_of(stdout: Seq<char>) -> Option<nat> {
    text::parse_uint(text::trimmed(stdout), u32::MAX as nat)
}

/// The process number that the start of a port-forward printed.
pub fn parse_pf_pid(stdout: &str) -> (r: Option<u32>)
    ensures
        (match r {
            Some(n) => Some(n as nat),
            None => None,
        }) == pf_pid_of(stdout@),
{
    match text::parse_number(text::trim(stdout).as_str(), u32::MAX as u64) {
        Some(n) => Some(n as u32),
        None => None,
    }
}

/// The port of the host that a line of the log names.
pub open spec fn line_port(line: Seq<char>) -> Option<nat> {
    match text::split_once(line, "Forwarding from 127.0.0.1:"@) {
        Some((_, rest)) => match text::split_once(rest, " -> "@) {
            Some((port, _)) => text::parse_uint(text::trimmed(port), u16::MAX as nat),
            None => None,
        },
        None => None,
    }
}

/// The port of the first line that names one.
pub open spec fn first_port(lines: Seq<Seq<char>>) -> Option<nat>
    decreases lines.len(),
{
    if lines.len() == 0 {
        None
    } else {
        match line_port(lines[0]) {
            Some(p) => Some(p),
            None => first_port(lines.subrange(1, lines.len() as int)),
        }
    }
}

/// The port of the host that the log names.
pub open spec fn log_port(log: Seq<char>) -> Option<nat> {
    first_port(text::lines(log))
}

fn port_in_line(line: &str) -> (r: Option<u16>)
    ensures
        (match r {
            Some(n) => Some(n as nat),
            None => None,
        }) == line_port(line@),
{
    match text::split_at_first(line, "Forwarding from 127.0.0.1:") {
        Some((_, rest)) => match text::split_at_first(rest.as_str(), " -> ") {
            Some((port, _)) => match text::parse_number(
                text::trim(port.as_str()).as_str(),
                u16::MAX as u64,
            ) {
                Some(n) => Some(n as u16),
                None => None,
            },
            None => None,
        },
        None => None,
    }
}

/// The port of the host that the log of a port-forward names.
pub fn forwarded_from_port(log: &str) -> (r: Option<u16>)
    ensures
        (match r {
            Some(n) => Some(n as nat),
            None => None,
        }) == log_port(log@),
{
    let lines: Vec<String> = text::lines_of(log);
    let ghost all = text::lines(log@);
    let mut i: usize = 0;
    proof {
        assert(all.subrange(0, all.len() as int) =~= all);
    }
    while i < lines.len()
        invariant
            i <= lines@.len(),
            all == text::lines(log@),
            text::views(lines@) == all,
            all.len() == lines@.len(),
            first_port(all.subrange(i as int, all.len() as int)) == first_port(all),
        decreases lines.len() - i,
    {
        proof {
            let rest = all.subrange(i as int, all.len() as int);
            assert(rest[0] == lines@[i as int]@);
            assert(rest.subrange(1, rest.len() as int) =~= all.subrange(
                i as int + 1,
                all.len() as int,
            ));
        }
        match port_in_line(lines[i].as_str()) {
            Some(p) => {
                return Some(p);
            },
            None => {},
        }
        i = i + 1;
    }
    None
}

/// The line by which kubectl names the ports.
pub open spec fn forwarding_line(host_port: u16, mcp_port: u16) -> Seq<char> {
    "Forwarding from 127.0.0.1:"@ + text::dec(host_port as nat) + " -> "@ + text::dec(
        mcp_port as nat,
    )
}

/// The port that kubectl named in its line is the port that is read from it.
pub proof fn law_forwarding_line(host_port: u16, mcp_port: u16)
    ensures
        log_port(forwarding_line(host_port, mcp_port)) == Some(host_port as nat),
{
    reveal_strlit("Forwarding from 127.0.0.1:");
    reveal_strlit(" -> ");
    let head = "Forwarding from 127.0.0.1:"@;
    let arrow = " -> "@;
    let p = text::dec(host_port as nat);
    let m = text::dec(mcp_port as nat);
    let line = forwarding_line(host_port, mcp_port);
    text::lemma_dec_plain(host_port as nat);
    text::lemma_dec_plain(mcp_port as nat);
    assert forall|i: int| 0 <= i < line.len() implies #[trigger] line[i] != '\n' by {
        if i < head.len() {
            assert(line[i] == head[i]);
        } else if i < head.len() + p.len() {
            assert(line[i] == p[i - head.len()]);
        } else if i < head.len() + p.len() + arrow.len() {
            assert(line[i] == arrow[i - head.len() - p.len()]);
        } else {
            assert(line[i] == m[i - head.len() - p.len() - arrow.len()]);
        }
    }
    text::lemma_one_line(line);
    assert(line.subrange(0, head.len() as int) =~= head);
    assert(text::occurs_at(line, head, 0));
    text::lemma_split_once_at(line, head, 0);
    let rest = line.subrange(head.len() as int, line.len() as int);
    assert(rest =~= p + arrow + m);
    assert(rest.subrange(p.len() as int, (p.len() + arrow.len()) as int) =~= arrow);
    assert(text::occurs_at(rest, arrow, p.len() as int));
    assert forall|j: int| 0 <= j < p.len() implies !text::occurs_at(rest, arrow, j) by {
        if text::occurs_at(rest, arrow, j) {
            assert(rest.subrange(j, j + arrow.len())[0] == rest[j]);
            assert(rest[j] == p[j]);
            assert(text::is_digit(p[j]));
        }
    }
    text::lemma_split_once_at(rest, arrow, p.len() as int);
    assert(rest.subrange(0, p.len() as int) =~= p);
    text::law_number_round_trip(host_port as nat, u16::MAX as nat);
    assert(text::lines(line)[0] == line);
    assert(line_port(line) == Some(host_port as nat));
}

proof fn lemma_first_port_joined(a: Seq<Seq<char>>, b: Seq<Seq<char>>)
    ensures
        first_port(a + b) == (match first_port(a) {
            Some(p) => Some(p),
            None => first_port(b),
        }),
    decreases a.len(),
{
    if a.len() == 0 {
        assert(a + b =~= b);
    } else {
        let rest = a.subrange(1, a.len() as int);
        lemma_first_port_joined(rest, b);
        assert((a + b).subrange(1, (a + b).len() as int) =~= rest + b);
    }
}

/// A carriage return at the end of a line does not matter.
proof fn lemma_line_port_cr(line: Seq<char>)
    ensures
        line_port(text::strip_cr(line)) == line_port(line),
{
    reveal_strlit("Forwarding from 127.0.0.1:");
    reveal_strlit(" -> ");
    let head = "Forwarding from 127.0.0.1:"@;
    let arrow = " -> "@;
    if line.len() > 0 && line.last() == '\r' {
        let short = line.drop_last();
        assert(line =~= short.push('\r'));
        text::lemma_split_once_push(short, '\r', head);
        match text::split_once(short, head) {
            Some((_, rest)) => {
                text::lemma_split_once_push(rest, '\r', arrow);
            },
            None => {},
        }
    }
}

proof fn lemma_no_port()
    ensures
        line_port(Seq::empty()) is None,
{
    reveal_strlit("Forwarding from 127.0.0.1:");
    let head = "Forwarding from 127.0.0.1:"@;
    assert(forall|i: int| !text::occurs_at(Seq::<char>::empty(), head, i));
}

/// In two logs with a line feed between them, the first line that names a port wins, and the other
/// lines are skipped.
pub proof fn law_first_forwarding_wins(a: Seq<char>, b: Seq<char>)
    ensures
        log_port(a + seq!['\n'] + b) == (match log_port(a) {
            Some(p) => Some(p),
            None => log_port(b),
        }),
{
    let pieces = text::split(a, text::Sep::Char('\n'));
    let ended = pieces.map_values(|l: Seq<char>| text::strip_cr(l));
    text::lemma_split_len(a, text::Sep::Char('\n'));
    text::lemma_lines_joined(a, b);
    lemma_first_port_joined(ended, text::lines(b));
    let head = pieces.drop_last();
    let last = pieces.last();
    let ended_head = head.map_values(|l: Seq<char>| text::strip_cr(l));
    assert(ended =~= ended_head.push(text::strip_cr(last)));
    assert(ended =~= ended_head + seq![text::strip_cr(last)]);
    lemma_first_port_joined(ended_head, seq![text::strip_cr(last)]);
    lemma_first_port_joined(ended_head, seq![last]);
    lemma_line_port_cr(last);
    lemma_no_port();
    assert(ended_head.push(last) =~= ended_head + seq![last]);
    assert(seq![last].subrange(1, 1) =~= Seq::empty());
    assert(seq![text::strip_cr(last)].subrange(1, 1) =~= Seq::empty());
    reveal_with_fuel(first_port, 2);
    assert(first_port(seq![last]) == line_port(last));
    assert(first_port(seq![text::strip_cr(last)]) == line_port(last));
    if last.len() == 0 {
        assert(last =~= Seq::empty());
    }
}

/// A process number that was printed, with line feeds or blanks around it or without, is read
/// back.
pub proof fn law_pid_is_read_back(pid: u32)
    ensures
        pf_pid_of(text::dec(pid as nat)) == Some(pid as nat),
        pf_pid_of(text::dec(pid as nat).push('\n')) == Some(pid as nat),
{
    let d = text::dec(pid as nat);
    text::lemma_dec_plain(pid as nat);
    text::lemma_dec_value(pid as nat);
    text::law_number_round_trip(pid as nat, u32::MAX as nat);
    let line = d.push('\n');
    assert(text::is_digit(d[0]));
    assert(line[0] == d[0]);
    assert(text::trim_start(line) == line);
    assert(line.subrange(0, line.len() - 1) =~= d);
    assert(text::is_digit(d[d.len() - 1]));
    assert(text::trim_end(line) == text::trim_end(d));
}

/// Sessions of different pods, or on different ports, have different logs.
pub proof fn law_logs_are_apart(p: Seq<char>, a: u16, q: Seq<char>, b: u16)
    requires
        pf_log(p, a) == pf_log(q, b),
    ensures
        p == q,
        a == b,
{
    reveal_strlit("-");
    let head = "/tmp/friday-tools/pf-"@;
    let dash = "-"@;
    let tail = ".log"@;
    let x = text::dec(a as nat);
    let y = text::dec(b as nat);
    let one = head + p + dash + x + tail;
    let two = head + q + dash + y + tail;
    assert(pf_log(p, a) =~= one);
    assert(pf_log(q, b) =~= two);
    text::lemma_dec_plain(a as nat);
    text::lemma_dec_plain(b as nat);
    let k = head.len() + p.len();
    let l = head.len() + q.len();
    if k > l {
        assert(one[k as int] == '-');
        assert(two[k as int] == y[k - l - 1]);
        assert(text::is_digit(y[k - l - 1]));
    }
    if l > k {
        assert(two[l as int] == '-');
        assert(one[l as int] == x[l - k - 1]);
        assert(text::is_digit(x[l - k - 1]));
    }
    assert(p =~= one.subrange(head.len() as int, k as int));
    assert(q =~= two.subrange(head.len() as int, l as int));
    assert(x =~= one.subrange(k as int + 1, one.len() - tail.len()));
    assert(y =~= two.subrange(l as int + 1, two.len() - tail.len()));
    text::law_dec_injective(a as nat, b as nat);
}

/// The pattern by which left-over port-forwards are killed stands for exactly the command line of
/// the same session.
pub proof fn law_cleanup_matches_own_session(
    pod: Seq<char>,
    container: Option<Seq<char>>,
    mcp_port: u16,
)
    ensures
        k8s::ere_text(k8s::kill_pattern(pf_cmdline(pod, container, mcp_port))) == Some(
            pf_cmdline(pod, container, mcp_port),
        ),
{
    reveal_strlit("kubectl port-forward pod/");
    assert(pf_cmdline(pod, container, mcp_port)[0] == 'k');
    k8s::law_kill_pattern_matches(pf_cmdline(pod, container, mcp_port));
}

/// Sessions of one container on different ports have different command lines. Where the ports have
/// equally many digits, the one does not stand anywhere in the other, so the search for the one
/// does not find the other.
pub proof fn law_sessions_are_apart(
    pod: Seq<char>,
    container: Option<Seq<char>>,
    a: u16,
    b: u16,
)
    requires
        a != b,
    ensures
        pf_cmdline(pod, container, a) != pf_cmdline(pod, container, b),
        text::dec(a as nat).len() == text::dec(b as nat).len() ==> !text::contains(
            pf_cmdline(pod, container, b),
            pf_cmdline(pod, container, a),
        ),
{
    let head = "kubectl port-forward pod/"@ + pod + " "@ + bare_flag(container)
        + "--address 127.0.0.1 0:"@;
    let x = text::dec(a as nat);
    let y = text::dec(b as nat);
    let one = pf_cmdline(pod, container, a);
    let two = pf_cmdline(pod, container, b);
    assert(one =~= head + x);
    assert(two =~= head + y);
    if one == two {
        assert(one.subrange(head.len() as int, one.len() as int) =~= x);
        assert(two.subrange(head.len() as int, two.len() as int) =~= y);
        text::law_dec_injective(a as nat, b as nat);
    }
    if x.len() == y.len() && text::contains(two, one) {
        let i = choose|i: int| text::occurs_at(two, one, i);
        assert(i == 0);
        assert(two.subrange(0, one.len() as int) =~= two);
    }
}

// ---------------------------------------------------------------------------------------------
// Messages
// ---------------------------------------------------------------------------------------------

pub open spec fn start_failed(code: i32, stderr: Seq<char>) -> Seq<char> {
    "kubectl port-forward 启动失败（exit "@ + text::signed_dec(code as int) + "）: "@
        + text::trimmed(stderr)
}

fn start_failed_text(code: i32, stderr: &str) -> (r: String)
    ensures
        r@ == start_failed(code, stderr@),
{
    "kubectl port-forward 启动失败（exit ".to_owned()
        .concat(text::i64_text(code as i64).as_str())
        .concat("）: ")
        .concat(text::trim(stderr).as_str())
}

pub open spec fn no_pid(stdout: Seq<char>) -> Seq<char> {
    "kubectl port-forward 启动输出无 PID: "@ + text::quoted(stdout)
}

fn no_pid_text(stdout: &str) -> (r: String)
    ensures
        r@ == no_pid(stdout@),
{
    "kubectl port-forward 启动输出无 PID: ".to_owned().concat(text::debug_text(stdout).as_str())
}

pub open spec fn not_forwarding(budget: u64, pod: Seq<char>, mcp_port: u16) -> Seq<char> {
    "kubectl port-forward 在 "@ + text::span(budget) + " 内未就绪（日志 "@ + pf_log(pod, mcp_port)
        + " 无 Forwarding 行）。可能原因：宿主机 kubectl 缺失、Pod 不存在或 API Server 不可达"@
}

fn not_forwarding_text(budget: u64, pod: &str, mcp_port: u16) -> (r: String)
    ensures
        r@ == not_forwarding(budget, pod@, mcp_port),
{
    "kubectl port-forward 在 ".to_owned()
        .concat(text::span_text(budget).as_str())
        .concat(" 内未就绪（日志 ")
        .concat(pf_log_path(pod, mcp_port).as_str())
        .concat(" 无 Forwarding 行）。可能原因：宿主机 kubectl 缺失、Pod 不存在或 API Server 不可达")
}

pub open spec fn open_failed(host_port: u16, e: Seq<char>) -> Seq<char> {
    "TunnelManager 建立到宿主机 "@ + TUNNEL_REMOTE_HOST@ + ":"@ + text::dec(host_port as nat)
        + " 的隧道失败: "@ + e
}

fn open_failed_text(host_port: u16, e: &str) -> (r: String)
    ensures
        r@ == open_failed(host_port, e@),
{
    "TunnelManager 建立到宿主机 ".to_owned()
        .concat(TUNNEL_REMOTE_HOST)
        .concat(":")
        .concat(text::u64_text(host_port as u64).as_str())
        .concat(" 的隧道失败: ")
        .concat(e)
}

pub open spec fn unreachable_port(local_port: u16, budget: u64) -> Seq<char> {
    "pf 隧道本地健康检查失败：127.0.0.1:"@ + text::dec(local_port as nat) + " 在 "@ + text::span(budget)
        + " 内不可连"@
}

fn unreachable_port_text(local_port: u16, budget: u64) -> (r: String)
    ensures
        r@ == unreachable_port(local_port, budget),
{
    "pf 隧道本地健康检查失败：127.0.0.1:".to_owned()
        .concat(text::u64_text(local_port as u64).as_str())
        .concat(" 在 ")
        .concat(text::span_text(budget).as_str())
        .concat(" 内不可连")
}

// ---------------------------------------------------------------------------------------------
// Building a tunnel
// ---------------------------------------------------------------------------------------------

/// Where the building of a tunnel stands.
#[derive(Debug, PartialEq, Eq)]
pub enum TunnelStage<S> {
    /// Kill what an earlier session left behind.
    Sweep,
    /// Start the port-forward.
    Start,
    /// Look for the port in its log.
    ReadLog { pid: u32 },
    /// Wait before the next look.
    Wait { pid: u32 },
    /// Open the tunnel to the port.
    Open { pid: u32, host_port: u16 },
    /// Try to connect to the local end.
    Probe { lease: PfLease },
    /// Wait before the next attempt.
    Rest { lease: PfLease },
    /// Kill the port-forward, then close the tunnel where one was asked for, then fail.
    Kill { pid: u32, tunnel: Option<u16>, error: S },
    /// Close the tunnel, then fail.
    Close { host_port: u16, error: S },
    /// It is over.
    Ended { result: Result<PfLease, S> },
}

/// The building of a tunnel.
#[derive(Debug, PartialEq, Eq)]
pub struct Tunnel<S> {
    pub env_id: S,
    pub pod: S,
    pub container: Option<S>,
    pub mcp_port: u16,
    pub params: PfTunnelParams,
    pub stage: TunnelStage<S>,
}

/// A lease or why there is none, by what it holds.
pub open spec fn view_lease(r: Result<PfLease, String>) -> Result<PfLease, Seq<char>> {
    match r {
        Ok(l) => Ok(l),
        Err(e) => Err(e@),
    }
}

impl View for TunnelStage<String> {
    type V = TunnelStage<Seq<char>>;

    open spec fn view(&self) -> TunnelStage<Seq<char>> {
        match *self {
            TunnelStage::Sweep => TunnelStage::Sweep,
            TunnelStage::Start => TunnelStage::Start,
            TunnelStage::ReadLog { pid } => TunnelStage::ReadLog { pid },
            TunnelStage::Wait { pid } => TunnelStage::Wait { pid },
            TunnelStage::Open { pid, host_port } => TunnelStage::Open { pid, host_port },
            TunnelStage::Probe { lease } => TunnelStage::Probe { lease },
            TunnelStage::Rest { lease } => TunnelStage::Rest { lease },
            TunnelStage::Kill { pid, tunnel, error } => TunnelStage::Kill {
                pid,
                tunnel,
                error: error@,
            },
            TunnelStage::Close { host_port, error } => TunnelStage::Close {
                host_port,
                error: error@,
            },
            TunnelStage::Ended { result } => TunnelStage::Ended { result: view_lease(result) },
        }
    }
}

impl View for Tunnel<String> {
    type V = Tunnel<Seq<char>>;

    open spec fn view(&self) -> Tunnel<Seq<char>> {
        Tunnel {
            env_id: self.env_id@,
            pod: self.pod@,
            container: text::opt(self.container),
            mcp_port: self.mcp_port,
            params: self.params,
            stage: self.stage@,
        }
    }
}

/// The building of a tunnel before its first step.
pub open spec fn tunnel_start(
    env_id: Seq<char>,
    pod: Seq<char>,
    container: Option<Seq<char>>,
    mcp_port: u16,
    params: PfTunnelParams,
) -> Tunnel<Seq<char>> {
    Tunnel { env_id, pod, container, mcp_port, params, stage: TunnelStage::Sweep }
}

/// A command of the tunnel on the host.
pub open spec fn pf_run(cmd: Seq<char>) -> Action<Seq<char>> {
    Action::Run { site: Site::Host, cmd, secs: Some(PF_COMMAND_SECS) }
}

/// The closing of a tunnel.
pub open spec fn close_action(env_id: Seq<char>, host_port: u16) -> Action<Seq<char>> {
    Action::CloseTunnel { env_id, host: TUNNEL_REMOTE_HOST@, port: host_port }
}

/// What the building of a tunnel asks for where it stands.
pub open spec fn tunnel_request(t: Tunnel<Seq<char>>) -> Action<Seq<char>> {
    match t.stage {
        TunnelStage::Sweep => pf_run(pf_cleanup(t.pod, t.container, t.mcp_port)),
        TunnelStage::Start => pf_run(pf_start(t.pod, t.container, t.mcp_port)),
        TunnelStage::ReadLog { pid } => pf_run(pf_log_read(t.pod, t.mcp_port)),
        TunnelStage::Wait { pid } => Action::Pause { millis: t.params.log_interval },
        TunnelStage::Open { pid, host_port } => Action::OpenTunnel {
            env_id: t.env_id,
            host: TUNNEL_REMOTE_HOST@,
            port: host_port,
        },
        TunnelStage::Probe { lease } => Action::ProbeLocal { port: lease.local_port },
        TunnelStage::Rest { lease } => Action::Pause { millis: PROBE_INTERVAL_MS },
        TunnelStage::Kill { pid, tunnel, error } => k8s::on_host(kill_pf(pid)),
        TunnelStage::Close { host_port, error } => close_action(t.env_id, host_port),
        TunnelStage::Ended { result } => Action::Finished,
    }
}

/// How long, in milliseconds, the wait that the stage belongs to may take. A reply is late when
/// so much time has passed since the first request of the wait.
pub open spec fn tunnel_budget(t: Tunnel<Seq<char>>) -> Option<u64> {
    match t.stage {
        TunnelStage::ReadLog { pid } => Some(t.params.log_budget),
        TunnelStage::Wait { pid } => Some(t.params.log_budget),
        TunnelStage::Probe { lease } => Some(t.params.health_budget),
        TunnelStage::Rest { lease } => Some(t.params.health_budget),
        _ => None,
    }
}

/// Where the start of the port-forward leads.
pub open spec fn after_start(result: Result<Output<Seq<char>>, Seq<char>>) -> TunnelStage<
    Seq<char>,
> {
    match result {
        Err(e) => TunnelStage::Ended { result: Err(e) },
        Ok(out) => if out.exit_code != 0 {
            TunnelStage::Ended { result: Err(start_failed(out.exit_code, out.stderr)) }
        } else {
            match pf_pid_of(out.stdout) {
                Some(pid) => TunnelStage::ReadLog { pid: pid as u32 },
                None => TunnelStage::Ended { result: Err(no_pid(out.stdout)) },
            }
        },
    }
}

/// Where a look at the log leads.
pub open spec fn after_log(
    t: Tunnel<Seq<char>>,
    pid: u32,
    result: Result<Output<Seq<char>>, Seq<char>>,
    late: bool,
) -> TunnelStage<Seq<char>> {
    match result {
        Err(e) => TunnelStage::Kill { pid, tunnel: None, error: e },
        Ok(out) => match log_port(out.stdout) {
            Some(port) => TunnelStage::Open { pid, host_port: port as u16 },
            None => if late {
                TunnelStage::Kill {
                    pid,
                    tunnel: None,
                    error: not_forwarding(t.params.log_budget, t.pod, t.mcp_port),
                }
            } else {
                TunnelStage::Wait { pid }
            },
        },
    }
}

/// The stage that the building of a tunnel reaches by a reply.
pub open spec fn tunnel_next(t: Tunnel<Seq<char>>, reply: Reply<Seq<char>>) -> TunnelStage<
    Seq<char>,
> {
    match t.stage {
        TunnelStage::Sweep => match flow::limited(
            reply,
            pf_cleanup(t.pod, t.container, t.mcp_port),
            PF_COMMAND_SECS,
        ) {
            Some(_) => TunnelStage::Start,
            None => t.stage,
        },
        TunnelStage::Start => match flow::limited(
            reply,
            pf_start(t.pod, t.container, t.mcp_port),
            PF_COMMAND_SECS,
        ) {
            Some(result) => after_start(result),
            None => t.stage,
        },
        TunnelStage::ReadLog { pid } => match flow::limited(
            reply,
            pf_log_read(t.pod, t.mcp_port),
            PF_COMMAND_SECS,
        ) {
            Some(result) => after_log(t, pid, result, flow::is_late(reply)),
            None => t.stage,
        },
        TunnelStage::Wait { pid } => match reply {
            Reply::Done { done, late } => TunnelStage::ReadLog { pid },
            _ => t.stage,
        },
        TunnelStage::Open { pid, host_port } => match reply {
            Reply::Port { port: Ok(local_port) } => TunnelStage::Probe {
                lease: PfLease { pf_pid: pid, host_port, local_port },
            },
            Reply::Port { port: Err(e) } => TunnelStage::Kill {
                pid,
                tunnel: Some(host_port),
                error: open_failed(host_port, e),
            },
            _ => t.stage,
        },
        TunnelStage::Probe { lease } => match reply {
            Reply::Done { done: Ok(_), late } => TunnelStage::Ended { result: Ok(lease) },
            Reply::Done { done: Err(_), late } => if late {
                TunnelStage::Kill {
                    pid: lease.pf_pid,
                    tunnel: Some(lease.host_port),
                    error: unreachable_port(lease.local_port, t.params.health_budget),
                }
            } else {
                TunnelStage::Rest { lease }
            },
            _ => t.stage,
        },
        TunnelStage::Rest { lease } => match reply {
            Reply::Done { done, late } => TunnelStage::Probe { lease },
            _ => t.stage,
        },
        TunnelStage::Kill { pid, tunnel, error } => match reply {
            Reply::Ran { ran, late } => match tunnel {
                Some(port) => TunnelStage::Close { host_port: port, error },
                None => TunnelStage::Ended { result: Err(error) },
            },
            _ => t.stage,
        },
        TunnelStage::Close { host_port, error } => match reply {
            Reply::Done { done, late } => TunnelStage::Ended { result: Err(error) },
            _ => t.stage,
        },
        TunnelStage::Ended { result } => t.stage,
    }
}

/// The building of a tunnel after a reply.
pub open spec fn tunnel_after(t: Tunnel<Seq<char>>, reply: Reply<Seq<char>>) -> Tunnel<Seq<char>> {
    Tunnel { stage: tunnel_next(t, reply), ..t }
}

fn host_run(cmd: String) -> (r: Action<String>)
    ensures
        r@ == pf_run(cmd@),
{
    Action::Run { site: Site::Host, cmd, secs: Some(PF_COMMAND_SECS) }
}

fn host_run_unlimited(cmd: String) -> (r: Action<String>)
    ensures
        r@ == k8s::on_host(cmd@),
{
    Action::Run { site: Site::Host, cmd, secs: None }
}

fn close_request(env_id: &str, host_port: u16) -> (r: Action<String>)
    ensures
        r@ == close_action(env_id@, host_port),
{
    Action::CloseTunnel {
        env_id: env_id.to_owned(),
        host: TUNNEL_REMOTE_HOST.to_owned(),
        port: host_port,
    }
}

/// Begins to build a tunnel to the port of arthas in a pod.
pub fn establish_pf_tunnel(
    env_id: &str,
    pod: &str,
    container: Option<&str>,
    mcp_port: u16,
    params: PfTunnelParams,
) -> (r: Tunnel<String>)
    ensures
        r@ == tunnel_start(env_id@, pod@, text::opt_str(container), mcp_port, params),
{
    Tunnel {
        env_id: env_id.to_owned(),
        pod: pod.to_owned(),
        container: text::own_opt(container),
        mcp_port,
        params,
        stage: TunnelStage::Sweep,
    }
}

impl Tunnel<String> {
    fn container_str(&self) -> (r: Option<&str>)
        ensures
            text::opt_str(r) == text::opt(self.container),
    {
        text::as_str_opt(&self.container)
    }

    fn sweep_text(&self) -> (r: String)
        ensures
            r@ == pf_cleanup(self.pod@, text::opt(self.container), self.mcp_port),
    {
        pf_cleanup_command(self.pod.as_str(), self.container_str(), self.mcp_port)
    }

    fn start_text(&self) -> (r: String)
        ensures
            r@ == pf_start(self.pod@, text::opt(self.container), self.mcp_port),
    {
        pf_start_command(self.pod.as_str(), self.container_str(), self.mcp_port)
    }

    fn log_text(&self) -> (r: String)
        ensures
            r@ == pf_log_read(self.pod@, self.mcp_port),
    {
        pf_log_read_command(self.pod.as_str(), self.mcp_port)
    }

    /// How long, in milliseconds, the wait that the stage belongs to may take.
    pub fn budget(&self) -> (r: Option<u64>)
        ensures
            r == tunnel_budget(self@),
    {
        match &self.stage {
            TunnelStage::ReadLog { pid: _ } => Some(self.params.log_budget),
            TunnelStage::Wait { pid: _ } => Some(self.params.log_budget),
            TunnelStage::Probe { lease: _ } => Some(self.params.health_budget),
            TunnelStage::Rest { lease: _ } => Some(self.params.health_budget),
            _ => None,
        }
    }

    /// What is asked for.
    pub fn request(&self) -> (r: Action<String>)
        ensures
            r@ == tunnel_request(self@),
    {
        match &self.stage {
            TunnelStage::Sweep => host_run(self.sweep_text()),
            TunnelStage::Start => host_run(self.start_text()),
            TunnelStage::ReadLog { pid: _ } => host_run(self.log_text()),
            TunnelStage::Wait { pid: _ } => Action::Pause { millis: self.params.log_interval },
            TunnelStage::Open { pid: _, host_port } => Action::OpenTunnel {
                env_id: self.env_id.clone(),
                host: TUNNEL_REMOTE_HOST.to_owned(),
                port: *host_port,
            },
            TunnelStage::Probe { lease } => Action::ProbeLocal { port: lease.local_port },
            TunnelStage::Rest { lease: _ } => Action::Pause { millis: PROBE_INTERVAL_MS },
            TunnelStage::Kill { pid, tunnel: _, error: _ } => host_run_unlimited(
                kill_pf_command(*pid),
            ),
            TunnelStage::Close { host_port, error: _ } => close_request(
                self.env_id.as_str(),
                *host_port,
            ),
            TunnelStage::Ended { result: _ } => Action::Finished,
        }
    }

    fn on_start(&self, result: Result<Output<String>, String>) -> (r: TunnelStage<String>)
        ensures
            r@ == after_start(flow::view_result(result)),
    {
        match result {
            Err(e) => TunnelStage::Ended { result: Err(e) },
            Ok(out) => if out.exit_code != 0 {
                TunnelStage::Ended {
                    result: Err(start_failed_text(out.exit_code, out.stderr.as_str())),
                }
            } else {
                match parse_pf_pid(out.stdout.as_str()) {
                    Some(pid) => TunnelStage::ReadLog { pid },
                    None => TunnelStage::Ended { result: Err(no_pid_text(out.stdout.as_str())) },
                }
            },
        }
    }

    fn on_log(&self, pid: u32, result: Result<Output<String>, String>, late: bool) -> (r:
        TunnelStage<String>)
        ensures
            r@ == after_log(self@, pid, flow::view_result(result), late),
    {
        match result {
            Err(e) => TunnelStage::Kill { pid, tunnel: None, error: e },
            Ok(out) => match forwarded_from_port(out.stdout.as_str()) {
                Some(port) => TunnelStage::Open { pid, host_port: port },
                None => if late {
                    TunnelStage::Kill {
                        pid,
                        tunnel: None,
                        error: not_forwarding_text(
                            self.params.log_budget,
                            self.pod.as_str(),
                            self.mcp_port,
                        ),
                    }
                } else {
                    TunnelStage::Wait { pid }
                },
            },
        }
    }

    /// Takes the reply to what was asked for.
    pub fn step(&mut self, reply: Reply<String>)
        ensures
            final(self)@ == tunnel_after(old(self)@, reply@),
    {
        let late: bool = flow::late_reply(&reply);
        let next: Option<TunnelStage<String>> = match &self.stage {
            TunnelStage::Sweep => match flow::take_limited(
                reply,
                self.sweep_text().as_str(),
                PF_COMMAND_SECS,
            ) {
                Some(_) => Some(TunnelStage::Start),
                None => None,
            },
            TunnelStage::Start => match flow::take_limited(
                reply,
                self.start_text().as_str(),
                PF_COMMAND_SECS,
            ) {
                Some(result) => Some(self.on_start(result)),
                None => None,
            },
            TunnelStage::ReadLog { pid } => match flow::take_limited(
                reply,
                self.log_text().as_str(),
                PF_COMMAND_SECS,
            ) {
                Some(result) => Some(self.on_log(*pid, result, late)),
                None => None,
            },
            TunnelStage::Wait { pid } => match reply {
                Reply::Done { done: _, late: _ } => Some(TunnelStage::ReadLog { pid: *pid }),
                _ => None,
            },
            TunnelStage::Open { pid, host_port } => match reply {
                Reply::Port { port: Ok(local_port) } => Some(
                    TunnelStage::Probe {
                        lease: PfLease { pf_pid: *pid, host_port: *host_port, local_port },
                    },
                ),
                Reply::Port { port: Err(e) } => Some(
                    TunnelStage::Kill {
                        pid: *pid,
                        tunnel: Some(*host_port),
                        error: open_failed_text(*host_port, e.as_str()),
                    },
                ),
                _ => None,
            },
            TunnelStage::Probe { lease } => match reply {
                Reply::Done { done: Ok(_), late: _ } => Some(
                    TunnelStage::Ended { result: Ok(*lease) },
                ),
                Reply::Done { done: Err(_), late } => if late {
                    Some(
                        TunnelStage::Kill {
                            pid: lease.pf_pid,
                            tunnel: Some(lease.host_port),
                            error: unreachable_port_text(
                                lease.local_port,
                                self.params.health_budget,
                            ),
                        },
                    )
                } else {
                    Some(TunnelStage::Rest { lease: *lease })
                },
                _ => None,
            },
            TunnelStage::Rest { lease } => match reply {
                Reply::Done { done: _, late: _ } => Some(TunnelStage::Probe { lease: *lease }),
                _ => None,
            },
            TunnelStage::Kill { pid: _, tunnel, error } => match reply {
                Reply::Ran { ran: _, late: _ } => match tunnel {
                    Some(port) => Some(
                        TunnelStage::Close { host_port: *port, error: error.clone() },
                    ),
                    None => Some(TunnelStage::Ended { result: Err(error.clone()) }),
                },
                _ => None,
            },
            TunnelStage::Close { host_port: _, error } => match reply {
                Reply::Done { done: _, late: _ } => Some(
                    TunnelStage::Ended { result: Err(error.clone()) },
                ),
                _ => None,
            },
            TunnelStage::Ended { result: _ } => None,
        };
        if let Some(stage) = next {
            self.stage = stage;
        }
    }
}

/// The process of the port-forward, once it was started.
pub open spec fn started_pid(stage: TunnelStage<Seq<char>>) -> Option<u32> {
    match stage {
        TunnelStage::ReadLog { pid } => Some(pid),
        TunnelStage::Wait { pid } => Some(pid),
        TunnelStage::Open { pid, host_port } => Some(pid),
        TunnelStage::Probe { lease } => Some(lease.pf_pid),
        TunnelStage::Rest { lease } => Some(lease.pf_pid),
        TunnelStage::Kill { pid, tunnel, error } => Some(pid),
        _ => None,
    }
}

/// Once a port-forward was started, the building either goes on with the same process, or hands
/// it out in a lease, or kills it: it is never left behind by an error.
pub proof fn law_tunnel_never_leaks(t: Tunnel<Seq<char>>, reply: Reply<Seq<char>>)
    requires
        started_pid(t.stage) is Some,
    ensures
        ({
            let next = tunnel_next(t, reply);
            ||| started_pid(next) == started_pid(t.stage)
            ||| (next matches TunnelStage::Ended { result: Ok(lease) } && Some(lease.pf_pid)
                == started_pid(t.stage))
            ||| (t.stage is Kill && reply is Ran && tunnel_request(t) == k8s::on_host(
                kill_pf(started_pid(t.stage)->0),
            ))
        }),
{
}

/// A tunnel is closed only after the port-forward behind it was killed.
pub proof fn law_tunnel_kill_before_close(t: Tunnel<Seq<char>>, reply: Reply<Seq<char>>)
    requires
        t.stage !is Close,
        tunnel_next(t, reply) is Close,
    ensures
        t.stage is Kill,
        reply is Ran,
{
}

/// The lease that comes out names the process that was started, the port that its log named, and
/// the local port that was opened, and the local end could be reached.
pub proof fn law_tunnel_lease(
    t: Tunnel<Seq<char>>,
    reply: Reply<Seq<char>>,
    lease: PfLease,
)
    requires
        t.stage !is Ended,
        tunnel_next(t, reply) == (TunnelStage::<Seq<char>>::Ended { result: Ok(lease) }),
    ensures
        t.stage == (TunnelStage::<Seq<char>>::Probe { lease }),
        reply matches Reply::Done { done: Ok(_), late },
{
}

/// The building of a tunnel after replies.
pub open spec fn tunnel_run(t: Tunnel<Seq<char>>, replies: Seq<Reply<Seq<char>>>) -> Tunnel<
    Seq<char>,
>
    decreases replies.len(),
{
    if replies.len() == 0 {
        t
    } else {
        tunnel_after(tunnel_run(t, replies.drop_last()), replies.last())
    }
}

/// Whether the process was asked to be killed, and that was answered, between two replies.
pub open spec fn was_killed(
    t: Tunnel<Seq<char>>,
    replies: Seq<Reply<Seq<char>>>,
    pid: u32,
    from: int,
    to: int,
) -> bool {
    exists|j: int|
        from <= j < to && #[trigger] replies[j] is Ran && tunnel_request(
            tunnel_run(t, replies.take(j)),
        ) == k8s::on_host(kill_pf(pid))
}

proof fn lemma_tunnel_run(
    t: Tunnel<Seq<char>>,
    replies: Seq<Reply<Seq<char>>>,
    k: int,
    pid: u32,
    n: int,
)
    requires
        0 <= k <= n <= replies.len(),
        started_pid(tunnel_run(t, replies.take(k)).stage) == Some(pid),
    ensures
        ({
            let now = tunnel_run(t, replies.take(n)).stage;
            ||| started_pid(now) == Some(pid)
            ||| now matches TunnelStage::Ended { result: Ok(lease) } && lease.pf_pid == pid
            ||| was_killed(t, replies, pid, k, n)
        }),
    decreases n - k,
{
    if k < n {
        lemma_tunnel_run(t, replies, k, pid, n - 1);
        assert(replies.take(n).drop_last() =~= replies.take(n - 1));
        let before = tunnel_run(t, replies.take(n - 1));
        let reply = replies[n - 1];
        if was_killed(t, replies, pid, k, n - 1) {
            let j = choose|j: int|
                k <= j < n - 1 && #[trigger] replies[j] is Ran && tunnel_request(
                    tunnel_run(t, replies.take(j)),
                ) == k8s::on_host(kill_pf(pid));
            assert(replies[j] is Ran);
        } else if started_pid(before.stage) is Some {
            law_tunnel_never_leaks(before, reply);
        } else {
            law_tunnel_end_is_final(before, reply);
        }
    }
}

/// Over a whole run: where a port-forward was started and the building ended in an error, its
/// process was killed since.
pub proof fn law_failed_tunnel_was_killed(
    t: Tunnel<Seq<char>>,
    replies: Seq<Reply<Seq<char>>>,
    k: int,
    pid: u32,
)
    requires
        0 <= k <= replies.len(),
        started_pid(tunnel_run(t, replies.take(k)).stage) == Some(pid),
        tunnel_run(t, replies).stage matches TunnelStage::Ended { result: Err(_) },
    ensures
        was_killed(t, replies, pid, k, replies.len() as int),
{
    lemma_tunnel_run(t, replies, k, pid, replies.len() as int);
    assert(replies.take(replies.len() as int) =~= replies);
}

/// The port-forward of a session is started for its pod, its container and its port, listens on this
/// machine alone, writes to the log of the session, and is left running while its number is printed.
pub proof fn law_forward_is_started_for_its_session(
    pod: Seq<char>,
    container: Option<Seq<char>>,
    mcp_port: u16,
)
    ensures
        ({
            let cmd = pf_start(pod, container, mcp_port);
            let log = ssh::shell_quote(pf_log(pod, mcp_port));
            &&& text::starts(
                cmd,
                "mkdir -p /tmp/friday-tools && nohup kubectl port-forward pod/"@ + ssh::shell_quote(
                    pod,
                ) + " "@,
            )
            &&& container matches Some(c) ==> text::contains(
                cmd,
                "-c "@ + ssh::shell_quote(c) + " "@,
            )
            &&& text::contains(
                cmd,
                "--address 127.0.0.1 0:"@ + text::dec(mcp_port as nat) + " < /dev/null > "@,
            )
            &&& text::contains(cmd, " < /dev/null > "@ + log + " 2>&1 & echo $!"@)
            &&& pf_log_read(pod, mcp_port) == "cat "@ + log + " 2>/dev/null || true"@
            &&& ssh::sh_word(log, false) == Some(pf_log(pod, mcp_port))
            &&& ssh::sh_word(ssh::shell_quote(pod), false) == Some(pod)
        }),
        pf_cleanup(pod, container, mcp_port) == "pkill -f "@ + ssh::shell_quote(
            k8s::kill_pattern(pf_cmdline(pod, container, mcp_port)),
        ) + " || true"@,
        text::contains(
            pf_cmdline(pod, container, mcp_port),
            "--address 127.0.0.1 0:"@ + text::dec(mcp_port as nat),
        ),
        text::starts(pf_cmdline(pod, container, mcp_port), "kubectl port-forward pod/"@ + pod),
{
    ssh::law_quote_round_trip(pod);
    ssh::law_quote_round_trip(pf_log(pod, mcp_port));
    let head = "kubectl port-forward pod/"@ + pod;
    let flag = bare_flag(container);
    let addr = "--address 127.0.0.1 0:"@;
    let port = text::dec(mcp_port as nat);
    text::lemma_start(head, " "@);
    text::lemma_start_kept(head + " "@, head, flag);
    text::lemma_start_kept(head + " "@ + flag, head, addr);
    text::lemma_start_kept(head + " "@ + flag + addr, head, port);
    text::lemma_part_of_two(head + " "@ + flag, addr, port);
    let c0 = "mkdir -p /tmp/friday-tools && nohup kubectl port-forward pod/"@;
    let c1 = ssh::shell_quote(pod);
    let c2 = " "@;
    let c3 = k8s::container_flag(container);
    let c4 = "--address 127.0.0.1 0:"@;
    let c5 = text::dec(mcp_port as nat);
    let c6 = " < /dev/null > "@;
    let c7 = ssh::shell_quote(pf_log(pod, mcp_port));
    let c8 = " 2>&1 & echo $!"@;
    let p0 = c0;
    let p1 = p0 + c1;
    let p2 = p1 + c2;
    let p3 = p2 + c3;
    let p4 = p3 + c4;
    let p5 = p4 + c5;
    let p6 = p5 + c6;
    let p7 = p6 + c7;
    let p8 = p7 + c8;
    let t3_4 = c3;
    text::lemma_part(p2, c3);
    text::lemma_part_kept(p3, t3_4, c4);
    text::lemma_part_kept(p4, t3_4, c5);
    text::lemma_part_kept(p5, t3_4, c6);
    text::lemma_part_kept(p6, t3_4, c7);
    text::lemma_part_kept(p7, t3_4, c8);
    let t4_7 = c4 + c5 + c6;
    text::lemma_part_of_three(p3, c4, c5, c6);
    text::lemma_part_kept(p6, t4_7, c7);
    text::lemma_part_kept(p7, t4_7, c8);
    let t6_9 = c6 + c7 + c8;
    text::lemma_part_of_three(p5, c6, c7, c8);
    text::lemma_start(p2, c3);
    text::lemma_start_kept(p3, p2, c4);
    text::lemma_start_kept(p4, p2, c5);
    text::lemma_start_kept(p5, p2, c6);
    text::lemma_start_kept(p6, p2, c7);
    text::lemma_start_kept(p7, p2, c8);
}

/// The way of a tunnel: what was left behind is killed, the port-forward is started, its log names the
/// port that it listens on, a tunnel is opened to that port of the host, and its local end is reached.
/// What comes out is a lease on exactly those: the process, the port and the local port.
pub proof fn law_way_of_a_tunnel(
    t: Tunnel<Seq<char>>,
    swept: Output<Seq<char>>,
    begun: Output<Seq<char>>,
    log: Output<Seq<char>>,
    pid: u32,
    host_port: u16,
    local_port: u16,
    late: bool,
)
    requires
        t.stage is Sweep,
        begun.exit_code == 0,
        pf_pid_of(begun.stdout) == Some(pid as nat),
        log_port(log.stdout) == Some(host_port as nat),
    ensures
        ({
            let t1 = tunnel_after(t, Reply::Ran { ran: Ok(swept), late });
            let t2 = tunnel_after(t1, Reply::Ran { ran: Ok(begun), late });
            let t3 = tunnel_after(t2, Reply::Ran { ran: Ok(log), late });
            let t4 = tunnel_after(t3, Reply::Port { port: Ok(local_port) });
            let t5 = tunnel_after(t4, Reply::Done { done: Ok(()), late });
            &&& tunnel_request(t) == (Action::<Seq<char>>::Run {
                site: Site::Host,
                cmd: pf_cleanup(t.pod, t.container, t.mcp_port),
                secs: Some(15u64),
            })
            &&& tunnel_request(t1) == (Action::<Seq<char>>::Run {
                site: Site::Host,
                cmd: pf_start(t.pod, t.container, t.mcp_port),
                secs: Some(15u64),
            })
            &&& tunnel_request(t2) == (Action::<Seq<char>>::Run {
                site: Site::Host,
                cmd: pf_log_read(t.pod, t.mcp_port),
                secs: Some(15u64),
            })
            &&& tunnel_request(t3) == (Action::<Seq<char>>::OpenTunnel {
                env_id: t.env_id,
                host: "127.0.0.1"@,
                port: host_port,
            })
            &&& tunnel_request(t4) == (Action::<Seq<char>>::ProbeLocal { port: local_port })
            &&& t5.stage == (TunnelStage::<Seq<char>>::Ended {
                result: Ok(PfLease { pf_pid: pid, host_port, local_port }),
            })
        }),
{
}

/// How a tunnel is waited for, and how it fails: the log is looked at again after its pause until its
/// time is over, the local end is tried again after its pause until its time is over. A failure kills the
/// port-forward that was started, closes the tunnel where one was asked for, and says what was missing.
pub proof fn law_tunnel_waits_and_failures(
    t: Tunnel<Seq<char>>,
    out: Output<Seq<char>>,
    e: Seq<char>,
    pid: u32,
    host_port: u16,
    lease: PfLease,
    late: bool,
    ran: Result<Output<Seq<char>>, Seq<char>>,
    tunnel: Option<u16>,
)
    ensures
        t.stage is ReadLog || t.stage is Wait ==> tunnel_budget(t) == Some(t.params.log_budget),
        t.stage is Probe || t.stage is Rest ==> tunnel_budget(t) == Some(t.params.health_budget),
        t.stage is Wait ==> tunnel_request(t) == (Action::<Seq<char>>::Pause {
            millis: t.params.log_interval,
        }),
        t.stage is Rest ==> tunnel_request(t) == (Action::<Seq<char>>::Pause { millis: 200 }),
        t.stage is Start && out.exit_code != 0 ==> (tunnel_next(t, Reply::Ran { ran: Ok(out), late })
            matches TunnelStage::Ended { result: Err(m) } && text::contains(
            m,
            text::trimmed(out.stderr),
        )),
        t.stage is Start && out.exit_code == 0 && pf_pid_of(out.stdout) is None ==> (tunnel_next(
            t,
            Reply::Ran { ran: Ok(out), late },
        ) matches TunnelStage::Ended { result: Err(m) } && text::contains(m, text::quoted(out.stdout))),
        t.stage == (TunnelStage::<Seq<char>>::ReadLog { pid }) && log_port(out.stdout) is None && !late
            ==> tunnel_next(t, Reply::Ran { ran: Ok(out), late }) == (TunnelStage::<Seq<char>>::Wait {
            pid,
        }),
        t.stage == (TunnelStage::<Seq<char>>::Wait { pid }) ==> tunnel_next(
            t,
            Reply::Done { done: Ok(()), late },
        ) == (TunnelStage::<Seq<char>>::ReadLog { pid }),
        t.stage == (TunnelStage::<Seq<char>>::ReadLog { pid }) && log_port(out.stdout) is None && late
            ==> (tunnel_next(t, Reply::Ran { ran: Ok(out), late }) matches TunnelStage::Kill {
            pid: p,
            tunnel: None,
            error,
        } && p == pid && text::contains(error, pf_log(t.pod, t.mcp_port))),
        t.stage == (TunnelStage::<Seq<char>>::Open { pid, host_port }) ==> (tunnel_next(
            t,
            Reply::Port { port: Err(e) },
        ) matches TunnelStage::Kill { pid: p, tunnel: Some(h), error } && p == pid && h == host_port
            && text::contains(error, e) && text::contains(error, text::dec(host_port as nat))),
        t.stage == (TunnelStage::<Seq<char>>::Probe { lease }) && !late ==> tunnel_next(
            t,
            Reply::Done { done: Err(e), late },
        ) == (TunnelStage::<Seq<char>>::Rest { lease }),
        t.stage == (TunnelStage::<Seq<char>>::Rest { lease }) ==> tunnel_next(
            t,
            Reply::Done { done: Ok(()), late },
        ) == (TunnelStage::<Seq<char>>::Probe { lease }),
        t.stage == (TunnelStage::<Seq<char>>::Probe { lease }) && late ==> (tunnel_next(
            t,
            Reply::Done { done: Err(e), late },
        ) matches TunnelStage::Kill { pid: p, tunnel: Some(h), error } && p == lease.pf_pid && h
            == lease.host_port && text::contains(error, text::dec(lease.local_port as nat))),
        t.stage == (TunnelStage::<Seq<char>>::Kill { pid, tunnel, error: e }) ==> {
            &&& tunnel_request(t) == (Action::<Seq<char>>::Run {
                site: Site::Host,
                cmd: "kill "@ + text::dec(pid as nat) + " 2>/dev/null || true"@,
                secs: None,
            })
            &&& tunnel_next(t, Reply::Ran { ran, late }) == (match tunnel {
                Some(port) => TunnelStage::Close { host_port: port, error: e },
                None => TunnelStage::Ended { result: Err(e) },
            })
        },
        t.stage == (TunnelStage::<Seq<char>>::Close { host_port, error: e }) ==> {
            &&& tunnel_request(t) == (Action::<Seq<char>>::CloseTunnel {
                env_id: t.env_id,
                host: "127.0.0.1"@,
                port: host_port,
            })
            &&& tunnel_next(t, Reply::Done { done: Ok(()), late }) == (TunnelStage::<
                Seq<char>,
            >::Ended { result: Err(e) })
        },
        default_params() == (PfTunnelParams {
            log_budget: 10000,
            log_interval: 500,
            health_budget: 2000,
        }),
{
    text::lemma_part(
        "kubectl port-forward 启动失败（exit "@ + text::signed_dec(out.exit_code as int) + "）: "@,
        text::trimmed(out.stderr),
    );
    text::lemma_part("kubectl port-forward 启动输出无 PID: "@, text::quoted(out.stdout));
    text::lemma_contains(
        "kubectl port-forward 在 "@ + text::span(t.params.log_budget) + " 内未就绪（日志 "@,
        pf_log(t.pod, t.mcp_port),
        " 无 Forwarding 行）。可能原因：宿主机 kubectl 缺失、Pod 不存在或 API Server 不可达"@,
    );
    let a = "TunnelManager 建立到宿主机 "@ + TUNNEL_REMOTE_HOST@ + ":"@;
    let d = text::dec(host_port as nat);
    text::lemma_contains(a, d, " 的隧道失败: "@);
    text::lemma_part_kept(a + d + " 的隧道失败: "@, d, e);
    text::lemma_part(a + d + " 的隧道失败: "@, e);
    let l = text::dec(lease.local_port as nat);
    let s = text::span(t.params.health_budget);
    text::lemma_contains("pf 隧道本地健康检查失败：127.0.0.1:"@, l, " 在 "@);
    text::lemma_part_kept("pf 隧道本地健康检查失败：127.0.0.1:"@ + l + " 在 "@, l, s);
    text::lemma_part_kept("pf 隧道本地健康检查失败：127.0.0.1:"@ + l + " 在 "@ + s, l, " 内不可连"@);
}

/// An ended building stays as it is.
pub proof fn law_tunnel_end_is_final(t: Tunnel<Seq<char>>, reply: Reply<Seq<char>>)
    requires
        t.stage is Ended,
    ensures
        tunnel_after(t, reply) == t,
        tunnel_request(t) is Finished,
{
}

// ---------------------------------------------------------------------------------------------
// Taking a tunnel down
// ---------------------------------------------------------------------------------------------

/// Where the taking down of a tunnel stands.
#[derive(Clone, Copy, Debug, PartialEq, Eq, Structural)]
pub enum TeardownStage {
    /// Ask arthas to stop, through the tunnel.
    HttpStop { lease: PfLease },
    /// Kill the port-forward.
    Kill { pid: u32, tunnel: Option<u16>, stopped: bool },
    /// Close the tunnel.
    Close { host_port: u16, stopped: bool },
    /// It is over; `stopped` says whether arthas said that it stopped.
    Ended { stopped: bool },
}

/// The taking down of a tunnel.
#[derive(Debug, PartialEq, Eq)]
pub struct Teardown<S> {
    pub env_id: S,
    pub stage: TeardownStage,
}

impl View for Teardown<String> {
    type V = Teardown<Seq<char>>;

    open spec fn view(&self) -> Teardown<Seq<char>> {
        Teardown { env_id: self.env_id@, stage: self.stage }
    }
}

/// What the taking down of a tunnel asks for where it stands.
pub open spec fn teardown_request(t: Teardown<Seq<char>>) -> Action<Seq<char>> {
    match t.stage {
        TeardownStage::HttpStop { lease } => Action::HttpStop { port: lease.local_port },
        TeardownStage::Kill { pid, tunnel, stopped } => k8s::on_host(kill_pf(pid)),
        TeardownStage::Close { host_port, stopped } => close_action(t.env_id, host_port),
        TeardownStage::Ended { stopped } => Action::Finished,
    }
}

/// The stage that the taking down of a tunnel reaches by a reply.
pub open spec fn teardown_next(stage: TeardownStage, reply: Reply<Seq<char>>) -> TeardownStage {
    match (stage, reply) {
        (TeardownStage::HttpStop { lease }, Reply::Done { done, late }) => TeardownStage::Kill {
            pid: lease.pf_pid,
            tunnel: Some(lease.host_port),
            stopped: done is Ok,
        },
        (TeardownStage::Kill { pid, tunnel, stopped }, Reply::Ran { ran, late }) => match tunnel {
            Some(port) => TeardownStage::Close { host_port: port, stopped },
            None => TeardownStage::Ended { stopped },
        },
        (TeardownStage::Close { host_port, stopped }, Reply::Done { done, late }) => TeardownStage::Ended {
            stopped,
        },
        _ => stage,
    }
}

/// The taking down of a tunnel after a reply.
pub open spec fn teardown_after(t: Teardown<Seq<char>>, reply: Reply<Seq<char>>) -> Teardown<
    Seq<char>,
> {
    Teardown { stage: teardown_next(t.stage, reply), ..t }
}

/// Begins to kill a port-forward and to close the tunnel to it, where there is one.
pub fn teardown_pf(env_id: &str, pf_pid: u32, host_port: Option<u16>) -> (r: Teardown<String>)
    ensures
        r@ == (Teardown {
            env_id: env_id@,
            stage: TeardownStage::Kill { pid: pf_pid, tunnel: host_port, stopped: false },
        }),
{
    Teardown {
        env_id: env_id.to_owned(),
        stage: TeardownStage::Kill { pid: pf_pid, tunnel: host_port, stopped: false },
    }
}

/// Begins to end a session in a pod: stop arthas through the tunnel, then take the tunnel down.
pub fn teardown_pod_tunnel_session(env_id: &str, pf: PfLease) -> (r: Teardown<String>)
    ensures
        r@ == (Teardown { env_id: env_id@, stage: TeardownStage::HttpStop { lease: pf } }),
{
    Teardown { env_id: env_id.to_owned(), stage: TeardownStage::HttpStop { lease: pf } }
}

impl Teardown<String> {
    /// What is asked for.
    pub fn request(&self) -> (r: Action<String>)
        ensures
            r@ == teardown_request(self@),
    {
        match self.stage {
            TeardownStage::HttpStop { lease } => Action::HttpStop { port: lease.local_port },
            TeardownStage::Kill { pid, tunnel: _, stopped: _ } => host_run_unlimited(
                kill_pf_command(pid),
            ),
            TeardownStage::Close { host_port, stopped: _ } => close_request(
                self.env_id.as_str(),
                host_port,
            ),
            TeardownStage::Ended { stopped: _ } => Action::Finished,
        }
    }

    /// Takes the reply to what was asked for.
    pub fn step(&mut self, reply: Reply<String>)
        ensures
            final(self)@ == teardown_after(old(self)@, reply@),
    {
        let next: TeardownStage = match (self.stage, reply) {
            (TeardownStage::HttpStop { lease }, Reply::Done { done, late: _ }) => TeardownStage::Kill {
                pid: lease.pf_pid,
                tunnel: Some(lease.host_port),
                stopped: done.is_ok(),
            },
            (TeardownStage::Kill { pid: _, tunnel, stopped }, Reply::Ran { ran: _, late: _ }) => match tunnel {
                Some(port) => TeardownStage::Close { host_port: port, stopped },
                None => TeardownStage::Ended { stopped },
            },
            (TeardownStage::Close { host_port: _, stopped }, Reply::Done { done: _, late: _ }) => TeardownStage::Ended {
                stopped,
            },
            _ => self.stage,
        };
        self.stage = next;
    }
}

/// The port-forward is killed before the tunnel is closed.
pub proof fn law_teardown_kill_before_close(t: Teardown<Seq<char>>, reply: Reply<Seq<char>>)
    requires
        t.stage !is Close,
        teardown_next(t.stage, reply) is Close,
    ensures
        t.stage is Kill,
        reply is Ran,
{
}

/// Whether or not arthas stopped, the port-forward is killed and the tunnel closed, and the end
/// says whether it stopped.
pub proof fn law_teardown_session(
    env_id: Seq<char>,
    pf: PfLease,
    stop: Reply<Seq<char>>,
    kill: Reply<Seq<char>>,
    close: Reply<Seq<char>>,
)
    requires
        stop is Done,
        kill is Ran,
        close is Done,
    ensures
        ({
            let t0 = Teardown { env_id, stage: TeardownStage::HttpStop { lease: pf } };
            let t1 = teardown_after(t0, stop);
            let t2 = teardown_after(t1, kill);
            let t3 = teardown_after(t2, close);
            &&& teardown_request(t0) == (Action::<Seq<char>>::HttpStop { port: pf.local_port })
            &&& teardown_request(t1) == k8s::on_host(kill_pf(pf.pf_pid))
            &&& teardown_request(t2) == close_action(env_id, pf.host_port)
            &&& t3.stage == (TeardownStage::Ended {
                stopped: stop matches Reply::Done { done: Ok(_), late },
            })
        }),
{
}

// ---------------------------------------------------------------------------------------------
// Stopping arthas through a tunnel
// ---------------------------------------------------------------------------------------------

/// How long the request to stop may take, in seconds.
pub const HTTP_STOP_SECS: u64 = 10;

/// Where arthas is asked to stop.
pub open spec fn http_stop_url(local_port: u16) -> Seq<char> {
    "http://"@ + TUNNEL_LOCAL_HOST@ + ":"@ + text::dec(local_port as nat) + "/api"@
}

/// Where arthas is asked to stop.
pub fn http_stop_url_text(local_port: u16) -> (r: String)
    ensures
        r@ == http_stop_url(local_port),
{
    "http://".to_owned()
        .concat(TUNNEL_LOCAL_HOST)
        .concat(":")
        .concat(text::u64_text(local_port as u64).as_str())
        .concat("/api")
}

pub open spec fn no_client(e: Seq<char>) -> Seq<char> {
    "构建 HTTP client 失败: "@ + e
}

fn no_client_text(e: &str) -> (r: String)
    ensures
        r@ == no_client(e@),
{
    "构建 HTTP client 失败: ".to_owned().concat(e)
}

pub open spec fn not_sent(url: Seq<char>, e: Seq<char>) -> Seq<char> {
    "隧道 stop 请求失败（"@ + url + "）: "@ + e
}

fn not_sent_text(url: &str, e: &str) -> (r: String)
    ensures
        r@ == not_sent(url@, e@),
{
    "隧道 stop 请求失败（".to_owned().concat(url).concat("）: ").concat(e)
}

pub open spec fn not_stopped(status: Seq<char>, body: Seq<char>) -> Seq<char> {
    "隧道 stop 返回 HTTP "@ + status + ": "@ + body
}

fn not_stopped_text(status: &str, body: &str) -> (r: String)
    ensures
        r@ == not_stopped(status@, body@),
{
    "隧道 stop 返回 HTTP ".to_owned().concat(status).concat(": ").concat(body)
}

/// What arthas is told to stop with.
pub open spec fn http_stop_data() -> Json {
    Json::Object(
        json::no_members().insert("action"@, Json::Text("exec"@)).insert(
            "command"@,
            Json::Text("stop"@),
        ),
    )
}

/// What arthas is told to stop with.
pub fn http_stop_body() -> (r: serde_json::Value)
    ensures
        json::view_of(r) == http_stop_data(),
{
    let mut m: serde_json::Map<String, serde_json::Value> = json::new_map();
    json::insert(&mut m, "action", json::text_value("exec"));
    json::insert(&mut m, "command", json::text_value("stop"));
    json::object(m)
}

/// What became of the request to stop.
#[derive(Debug, PartialEq, Eq)]
pub enum HttpReply<S> {
    /// There is nothing to send it with.
    NoClient { reason: S },
    /// It could not be sent, or was not answered.
    NotSent { cause: S },
    /// It was answered: the status, the status in words, and the text of the answer.
    Answered { status: u16, words: S, body: S },
}

/// Whether arthas stopped, by what became of the request; else why not.
pub open spec fn http_stop_result(local_port: u16, reply: HttpReply<Seq<char>>) -> Result<
    (),
    Seq<char>,
> {
    match reply {
        HttpReply::NoClient { reason } => Err(no_client(reason)),
        HttpReply::NotSent { cause } => Err(not_sent(http_stop_url(local_port), cause)),
        HttpReply::Answered { status, words, body } => if 200 <= status < 300 {
            Ok(())
        } else {
            Err(not_stopped(words, body))
        },
    }
}

impl View for HttpReply<String> {
    type V = HttpReply<Seq<char>>;

    open spec fn view(&self) -> HttpReply<Seq<char>> {
        match *self {
            HttpReply::NoClient { reason } => HttpReply::NoClient { reason: reason@ },
            HttpReply::NotSent { cause } => HttpReply::NotSent { cause: cause@ },
            HttpReply::Answered { status, words, body } => HttpReply::Answered {
                status,
                words: words@,
                body: body@,
            },
        }
    }
}

/// Whether arthas stopped, by what became of the request that [`http_stop_url_text`] and
/// [`http_stop_body`] describe; else why not.
pub fn http_stop_via_tunnel(local_port: u16, reply: HttpReply<String>) -> (r: Result<(), String>)
    ensures
        flow::view_unit(r) == http_stop_result(local_port, reply@),
{
    match reply {
        HttpReply::NoClient { reason } => Err(no_client_text(reason.as_str())),
        HttpReply::NotSent { cause } => Err(
            not_sent_text(http_stop_url_text(local_port).as_str(), cause.as_str()),
        ),
        HttpReply::Answered { status, words, body } => if 200 <= status && status < 300 {
            Ok(())
        } else {
            Err(not_stopped_text(words.as_str(), body.as_str()))
        },
    }
}

/// A session in a pod is ended by asking arthas to stop through the local port of its tunnel, then by
/// killing the process of its port-forward, then by closing the tunnel to its port; whether arthas said
/// that it stopped is kept to the end.
pub proof fn law_way_of_a_teardown(
    t: Teardown<Seq<char>>,
    lease: PfLease,
    done: Result<(), Seq<char>>,
    ran: Result<Output<Seq<char>>, Seq<char>>,
    late: bool,
)
    requires
        t.stage == (TeardownStage::HttpStop { lease }),
    ensures
        ({
            let t1 = teardown_after(t, Reply::Done { done, late });
            let t2 = teardown_after(t1, Reply::Ran { ran, late });
            let t3 = teardown_after(t2, Reply::Done { done: Ok(()), late });
            &&& teardown_request(t) == (Action::<Seq<char>>::HttpStop { port: lease.local_port })
            &&& teardown_request(t1) == (Action::<Seq<char>>::Run {
                site: Site::Host,
                cmd: "kill "@ + text::dec(lease.pf_pid as nat) + " 2>/dev/null || true"@,
                secs: None,
            })
            &&& teardown_request(t2) == (Action::<Seq<char>>::CloseTunnel {
                env_id: t.env_id,
                host: "127.0.0.1"@,
                port: lease.host_port,
            })
            &&& t3.stage == (TeardownStage::Ended { stopped: done is Ok })
        }),
{
}

/// A port-forward without a tunnel is only killed.
pub proof fn law_way_of_a_lone_forward(
    t: Teardown<Seq<char>>,
    pid: u32,
    stopped: bool,
    ran: Result<Output<Seq<char>>, Seq<char>>,
    late: bool,
)
    requires
        t.stage == (TeardownStage::Kill { pid, tunnel: None, stopped }),
    ensures
        teardown_request(t) == (Action::<Seq<char>>::Run {
            site: Site::Host,
            cmd: "kill "@ + text::dec(pid as nat) + " 2>/dev/null || true"@,
            secs: None,
        }),
        teardown_after(t, Reply::Ran { ran, late }).stage == (TeardownStage::Ended { stopped }),
{
}

/// Arthas is asked to stop at the local end of its tunnel, with a request to run its command `stop`.
/// It stopped if and only if the answer is one of success; else the message says why: what the
/// client said, where the request went and what went wrong, or what was answered.
pub proof fn law_stop_goes_through_the_tunnel(
    port: u16,
    status: u16,
    words: Seq<char>,
    body: Seq<char>,
    e: Seq<char>,
)
    ensures
        http_stop_url(port) == "http://"@ + "127.0.0.1"@ + ":"@ + text::dec(port as nat) + "/api"@,
        json::text_of(json::member(http_stop_data(), "action"@)) == Some("exec"@),
        json::text_of(json::member(http_stop_data(), "command"@)) == Some("stop"@),
        http_stop_result(port, HttpReply::Answered { status, words, body }) is Ok <==> 200 <= status
            <= 299,
        http_stop_result(port, HttpReply::Answered { status, words, body }) matches Err(m)
            ==> text::contains(m, words) && text::contains(m, body),
        http_stop_result(port, HttpReply::NotSent { cause: e }) matches Err(m) && text::contains(
            m,
            e,
        ) && text::contains(m, http_stop_url(port)),
        http_stop_result(port, HttpReply::NoClient { reason: e }) matches Err(m) && text::contains(
            m,
            e,
        ),
{
    reveal_strlit("action");
    reveal_strlit("command");
    assert("action"@.len() != "command"@.len());
    let c0 = "隧道 stop 返回 HTTP "@;
    let c1 = words;
    let c2 = ": "@;
    let c3 = body;
    let p0 = c0;
    let p1 = p0 + c1;
    let p2 = p1 + c2;
    let p3 = p2 + c3;
    let t1_2 = c1;
    text::lemma_part(p0, c1);
    text::lemma_part_kept(p1, t1_2, c2);
    text::lemma_part_kept(p2, t1_2, c3);
    let t3_4 = c3;
    text::lemma_part(p2, c3);
    let c0 = "隧道 stop 请求失败（"@;
    let c1 = http_stop_url(port);
    let c2 = "）: "@;
    let c3 = e;
    let p0 = c0;
    let p1 = p0 + c1;
    let p2 = p1 + c2;
    let p3 = p2 + c3;
    let t1_2 = c1;
    text::lemma_part(p0, c1);
    text::lemma_part_kept(p1, t1_2, c2);
    text::lemma_part_kept(p2, t1_2, c3);
    let t3_4 = c3;
    text::lemma_part(p2, c3);
    let c0 = "构建 HTTP client 失败: "@;
    let c1 = e;
    let p0 = c0;
    let p1 = p0 + c1;
    let t1_2 = c1;
    text::lemma_part(p0, c1);
}

/// A teardown that is over asks for nothing more and stays as it is.
pub proof fn law_teardown_end_is_final(t: Teardown<Seq<char>>, reply: Reply<Seq<char>>)
    requires
        t.stage is Ended,
    ensures
        teardown_request(t) is Finished,
        teardown_after(t, reply) == t,
{
}

} // verus!
