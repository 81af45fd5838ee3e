//! Stopping what an attach that failed left behind: an arthas that sits on one of its ports and
//! belongs to no session.

use vstd::prelude::*;

use crate::arthas::attach;
use crate::arthas::attach::{ARTHAS_PORT_CANDIDATES, ARTHAS_PORT_START};
use crate::exec::shell;
use crate::flow;
use crate::flow::{Action, Output, Reply, Site};
use crate::text;

verus! {

/// How a port is probed.
#[derive(Debug, PartialEq, Eq)]
pub enum Prober<S> {
    /// On the machine itself, over a channel to it.
    Local { site: Site },
    /// From the host, at the address of the pod.
    Pod { ip: S },
}

impl View for Prober<String> {
    type V = Prober<Seq<char>>;

    open spec fn view(&self) -> Prober<Seq<char>> {
        match *self {
            Prober::Local { site } => Prober::Local { site },
            Prober::Pod { ip } => Prober::Pod { ip: ip@ },
        }
    }
}

/// Where probes run.
pub open spec fn probe_site(p: Prober<Seq<char>>) -> Site {
    match p {
        Prober::Local { site } => site,
        Prober::Pod { ip } => Site::Host,
    }
}

/// The command that probes a port.
pub open spec fn probe_command(p: Prober<Seq<char>>, port: u16) -> Seq<char> {
    match p {
        Prober::Local { site } => attach::port_probe(port),
        Prober::Pod { ip } => attach::pod_ip_probe(ip, port),
    }
}

impl Prober<String> {
    fn site(&self) -> (r: Site)
        ensures
            r == probe_site(self@),
    {
        match self {
            Prober::Local { site } => *site,
            Prober::Pod { ip: _ } => Site::Host,
        }
    }

    fn command(&self, port: u16) -> (r: String)
        ensures
            r@ == probe_command(self@, port),
    {
        match self {
            Prober::Local { site: _ } => attach::port_probe_command(port),
            Prober::Pod { ip } => attach::pod_ip_probe_command(ip.as_str(), port),
        }
    }
}

/// How long a command of the sweep may take, in seconds.
pub const SWEEP_COMMAND_SECS: u64 = 15;

/// How long arthas may take to stop, in milliseconds.
pub const SWEEP_WAIT_MS: u64 = 15000;

/// How long to wait before looking whether it stopped, in milliseconds.
pub const SWEEP_POLL_MS: u64 = 500;

/// Where the sweep stands.
#[derive(Debug, PartialEq, Eq)]
pub enum SweepStage<S> {
    /// Is something on this port?
    Probe { port: u16 },
    /// Ask it to stop.
    Stop { port: u16 },
    /// Wait before looking.
    Rest { port: u16 },
    /// Is it still there?
    Check { port: u16 },
    /// It is over.
    Ended { result: Result<(), S> },
}

/// A sweep over the ports of arthas.
#[derive(Debug, PartialEq, Eq)]
pub struct Sweep<S> {
    pub prober: Prober<S>,
    /// Where the request to stop runs.
    pub stop_site: Site,
    /// The ports of sessions that are in use.
    pub active: Vec<u16>,
    pub wait_ms: u64,
    pub poll_ms: u64,
    pub stage: SweepStage<S>,
}

impl View for SweepStage<String> {
    type V = SweepStage<Seq<char>>;

    open spec fn view(&self) -> SweepStage<Seq<char>> {
        match *self {
            SweepStage::Probe { port } => SweepStage::Probe { port },
            SweepStage::Stop { port } => SweepStage::Stop { port },
            SweepStage::Rest { port } => SweepStage::Rest { port },
            SweepStage::Check { port } => SweepStage::Check { port },
            SweepStage::Ended { result } => SweepStage::Ended { result: flow::view_unit(result) },
        }
    }
}

impl View for Sweep<String> {
    type V = Sweep<Seq<char>>;

    open spec fn view(&self) -> Sweep<Seq<char>> {
        Sweep {
            prober: self.prober@,
            stop_site: self.stop_site,
            active: self.active,
            wait_ms: self.wait_ms,
            poll_ms: self.poll_ms,
            stage: self.stage@,
        }
    }
}

/// One more than the last port that arthas may listen on.
pub open spec fn port_end() -> int {
    ARTHAS_PORT_START + ARTHAS_PORT_CANDIDATES
}

/// The stage that looks at the first port from `from` on that no session uses, or the end.
pub open spec fn stage_from(active: Seq<u16>, from: int) -> SweepStage<Seq<char>>
    decreases port_end() - from,
{
    if from >= port_end() {
        SweepStage::Ended { result: Ok(()) }
    } else if active.contains(from as u16) {
        stage_from(active, from + 1)
    } else {
        SweepStage::Probe { port: from as u16 }
    }
}

/// A sweep before its first step.
pub open spec fn sweep_start(
    prober: Prober<Seq<char>>,
    stop_site: Site,
    active: Vec<u16>,
    wait_ms: u64,
    poll_ms: u64,
) -> Sweep<Seq<char>> {
    Sweep {
        prober,
        stop_site,
        active,
        wait_ms,
        poll_ms,
        stage: stage_from(active@, ARTHAS_PORT_START as int),
    }
}

/// A command of the sweep.
pub open spec fn sweep_run(site: Site, cmd: Seq<char>) -> Action<Seq<char>> {
    Action::Run { site, cmd, secs: Some(SWEEP_COMMAND_SECS) }
}

/// What a sweep asks for where it stands.
pub open spec fn sweep_request(s: Sweep<Seq<char>>) -> Action<Seq<char>> {
    match s.stage {
        SweepStage::Probe { port } => sweep_run(
            probe_site(s.prober),
            probe_command(s.prober, port),
        ),
        SweepStage::Stop { port } => sweep_run(s.stop_site, attach::stop(port, Seq::empty())),
        SweepStage::Rest { port } => Action::Pause { millis: s.poll_ms },
        SweepStage::Check { port } => sweep_run(
            probe_site(s.prober),
            probe_command(s.prober, port),
        ),
        SweepStage::Ended { result } => Action::Finished,
    }
}

/// How long, in milliseconds, the wait that the stage belongs to may take.
pub open spec fn sweep_budget(s: Sweep<Seq<char>>) -> Option<u64> {
    match s.stage {
        SweepStage::Rest { port } => Some(s.wait_ms),
        SweepStage::Check { port } => Some(s.wait_ms),
        _ => None,
    }
}

/// Whether a probe found something on the port.
pub open spec fn is_busy(out: Output<Seq<char>>) -> bool {
    text::trimmed(out.stdout) == "busy"@
}

/// Whether a probe found something on the port.
pub fn busy(out: &Output<String>) -> (r: bool)
    ensures
        r == is_busy(out@),
{
    text::same(text::trim(out.stdout.as_str()).as_str(), "busy")
}

pub open spec fn probe_failed(e: Seq<char>) -> Seq<char> {
    "残留端口探测失败: "@ + e
}

fn probe_failed_text(e: &str) -> (r: String)
    ensures
        r@ == probe_failed(e@),
{
    "残留端口探测失败: ".to_owned().concat(e)
}

pub open spec fn unstoppable(port: u16) -> Seq<char> {
    "端口 "@ + text::dec(port as nat) + " 被残留 arthas 占用且无法停止（可能是旧版本实例，stop 被拒绝）。请重启目标服务后重试"@
}

fn unstoppable_text(port: u16) -> (r: String)
    ensures
        r@ == unstoppable(port),
{
    "端口 ".to_owned()
        .concat(text::u64_text(port as u64).as_str())
        .concat(" 被残留 arthas 占用且无法停止（可能是旧版本实例，stop 被拒绝）。请重启目标服务后重试")
}

/// The stage that a sweep reaches by a reply.
pub open spec fn sweep_next(s: Sweep<Seq<char>>, reply: Reply<Seq<char>>) -> SweepStage<Seq<char>> {
    match s.stage {
        SweepStage::Probe { port } => match flow::limited(
            reply,
            probe_command(s.prober, port),
            SWEEP_COMMAND_SECS,
        ) {
            Some(Ok(out)) => if is_busy(out) {
                SweepStage::Stop { port }
            } else {
                stage_from(s.active@, port + 1)
            },
            Some(Err(e)) => SweepStage::Ended { result: Err(probe_failed(e)) },
            None => s.stage,
        },
        SweepStage::Stop { port } => match flow::limited(
            reply,
            attach::stop(port, Seq::empty()),
            SWEEP_COMMAND_SECS,
        ) {
            Some(Ok(out)) => SweepStage::Rest { port },
            Some(Err(e)) => SweepStage::Ended { result: Err(e) },
            None => s.stage,
        },
        SweepStage::Rest { port } => match reply {
            Reply::Done { done, late } => SweepStage::Check { port },
            _ => s.stage,
        },
        SweepStage::Check { port } => match flow::limited(
            reply,
            probe_command(s.prober, port),
            SWEEP_COMMAND_SECS,
        ) {
            Some(Ok(out)) => if !is_busy(out) {
                stage_from(s.active@, port + 1)
            } else if flow::is_late(reply) {
                SweepStage::Ended { result: Err(unstoppable(port)) }
            } else {
                SweepStage::Rest { port }
            },
            Some(Err(e)) => SweepStage::Ended { result: Err(e) },
            None => s.stage,
        },
        SweepStage::Ended { result } => s.stage,
    }
}

/// A sweep after a reply.
pub open spec fn sweep_after(s: Sweep<Seq<char>>, reply: Reply<Seq<char>>) -> Sweep<Seq<char>> {
    Sweep { stage: sweep_next(s, reply), ..s }
}

fn is_active(active: &Vec<u16>, port: u16) -> (r: bool)
    ensures
        r == active@.contains(port),
{
    let mut i: usize = 0;
    while i < active.len()
        invariant
            i <= active@.len(),
            forall|j: int| 0 <= j < i ==> active@[j] != port,
        decreases active.len() - i,
    {
        if active[i] == port {
            return true;
        }
        i = i + 1;
    }
    false
}

fn first_stage(active: &Vec<u16>, from: u16) -> (r: SweepStage<String>)
    ensures
        r@ == stage_from(active@, from as int),
{
    let end: u16 = ARTHAS_PORT_START + ARTHAS_PORT_CANDIDATES;
    let mut port: u16 = from;
    while port < end
        invariant
            end == port_end(),
            stage_from(active@, port as int) == stage_from(active@, from as int),
        decreases end - port,
    {
        if !is_active(active, port) {
            return SweepStage::Probe { port };
        }
        port = port + 1;
    }
    SweepStage::Ended { result: Ok(()) }
}

fn stage_behind(active: &Vec<u16>, port: u16) -> (r: SweepStage<String>)
    ensures
        r@ == stage_from(active@, port + 1),
{
    if port == u16::MAX {
        SweepStage::Ended { result: Ok(()) }
    } else {
        first_stage(active, port + 1)
    }
}

/// Begins to stop what was left behind on the ports that no session uses.
pub fn cleanup_stale_instances_with(
    prober: Prober<String>,
    stop_site: Site,
    active: Vec<u16>,
    wait_ms: u64,
    poll_ms: u64,
) -> (r: Sweep<String>)
    ensures
        r@ == sweep_start(prober@, stop_site, active, wait_ms, poll_ms),
{
    let stage: SweepStage<String> = first_stage(&active, ARTHAS_PORT_START);
    Sweep { prober, stop_site, active, wait_ms, poll_ms, stage }
}

/// Begins to stop what was left behind, with probes and requests to stop over one channel.
pub fn cleanup_stale_instances(site: Site, active: Vec<u16>) -> (r: Sweep<String>)
    ensures
        r@ == sweep_start(
            Prober::Local { site },
            site,
            active,
            SWEEP_WAIT_MS,
            SWEEP_POLL_MS,
        ),
{
    cleanup_stale_instances_with(
        Prober::Local { site },
        site,
        active,
        SWEEP_WAIT_MS,
        SWEEP_POLL_MS,
    )
}

/// Whether the port of a stage is one that arthas may listen on and that no session uses.
pub open spec fn spares_active(s: Sweep<Seq<char>>) -> bool {
    match s.stage {
        SweepStage::Probe { port } => is_spare(s.active@, port),
        SweepStage::Stop { port } => is_spare(s.active@, port),
        SweepStage::Rest { port } => is_spare(s.active@, port),
        SweepStage::Check { port } => is_spare(s.active@, port),
        SweepStage::Ended { result } => true,
    }
}

/// A port that arthas may listen on and that no session uses.
pub open spec fn is_spare(active: Seq<u16>, port: u16) -> bool {
    ARTHAS_PORT_START <= port < port_end() && !active.contains(port)
}

impl Sweep<String> {
    /// How long, in milliseconds, the wait that the stage belongs to may take.
    pub fn budget(&self) -> (r: Option<u64>)
        ensures
            r == sweep_budget(self@),
    {
        match &self.stage {
            SweepStage::Rest { port: _ } => Some(self.wait_ms),
            SweepStage::Check { port: _ } => Some(self.wait_ms),
            _ => None,
        }
    }

    fn run(site: Site, cmd: String) -> (r: Action<String>)
        ensures
            r@ == sweep_run(site, cmd@),
    {
        Action::Run { site, cmd, secs: Some(SWEEP_COMMAND_SECS) }
    }

    /// What is asked for.
    pub fn request(&self) -> (r: Action<String>)
        ensures
            r@ == sweep_request(self@),
    {
        match &self.stage {
            SweepStage::Probe { port } => Self::run(
                self.prober.site(),
                self.prober.command(*port),
            ),
            SweepStage::Stop { port } => {
                let cmd: String = self.stop_text(*port);
                Self::run(self.stop_site, cmd)
            },
            SweepStage::Rest { port: _ } => Action::Pause { millis: self.poll_ms },
            SweepStage::Check { port } => Self::run(
                self.prober.site(),
                self.prober.command(*port),
            ),
            SweepStage::Ended { result: _ } => Action::Finished,
        }
    }

    fn stop_text(&self, port: u16) -> (r: String)
        ensures
            r@ == attach::stop(port, Seq::empty()),
    {
        proof {
            reveal_strlit("");
            assert(""@ =~= Seq::<char>::empty());
        }
        attach::stop_command(port, "")
    }

    /// Takes the reply to what was asked for.
    pub fn step(&mut self, reply: Reply<String>)
        ensures
            final(self)@ == sweep_after(old(self)@, reply@),
    {
        let late: bool = flow::late_reply(&reply);
        let next: Option<SweepStage<String>> = match &self.stage {
            SweepStage::Probe { port } => match flow::take_limited(
                reply,
                self.prober.command(*port).as_str(),
                SWEEP_COMMAND_SECS,
            ) {
                Some(Ok(out)) => if busy(&out) {
                    Some(SweepStage::Stop { port: *port })
                } else {
                    Some(stage_behind(&self.active, *port))
                },
                Some(Err(e)) => Some(
                    SweepStage::Ended { result: Err(probe_failed_text(e.as_str())) },
                ),
                None => None,
            },
            SweepStage::Stop { port } => match flow::take_limited(
                reply,
                self.stop_text(*port).as_str(),
                SWEEP_COMMAND_SECS,
            ) {
                Some(Ok(_)) => Some(SweepStage::Rest { port: *port }),
                Some(Err(e)) => Some(SweepStage::Ended { result: Err(e) }),
                None => None,
            },
            SweepStage::Rest { port } => match reply {
                Reply::Done { done: _, late: _ } => Some(SweepStage::Check { port: *port }),
                _ => None,
            },
            SweepStage::Check { port } => match flow::take_limited(
                reply,
                self.prober.command(*port).as_str(),
                SWEEP_COMMAND_SECS,
            ) {
                Some(Ok(out)) => if !busy(&out) {
                    Some(stage_behind(&self.active, *port))
                } else if late {
                    Some(SweepStage::Ended { result: Err(unstoppable_text(*port)) })
                } else {
                    Some(SweepStage::Rest { port: *port })
                },
                Some(Err(e)) => Some(SweepStage::Ended { result: Err(e) }),
                None => None,
            },
            SweepStage::Ended { result: _ } => None,
        };
        if let Some(stage) = next {
            self.stage = stage;
        }
    }
}

proof fn lemma_stage_from(active: Seq<u16>, from: int)
    requires
        ARTHAS_PORT_START <= from,
    ensures
        stage_from(active, from) matches SweepStage::Probe { port } ==> is_spare(active, port),
        stage_from(active, from) is Probe || stage_from(active, from) == (SweepStage::<
            Seq<char>,
        >::Ended { result: Ok(()) }),
    decreases port_end() - from,
{
    if from < port_end() && active.contains(from as u16) {
        lemma_stage_from(active, from + 1);
    }
}

/// A sweep begins at a port that no session uses.
pub proof fn law_sweep_start_spares_active(
    prober: Prober<Seq<char>>,
    stop_site: Site,
    active: Vec<u16>,
    wait_ms: u64,
    poll_ms: u64,
)
    ensures
        spares_active(sweep_start(prober, stop_site, active, wait_ms, poll_ms)),
{
    lemma_stage_from(active@, ARTHAS_PORT_START as int);
}

/// A sweep never probes, stops or waits for a port that a session uses.
pub proof fn law_sweep_spares_active(s: Sweep<Seq<char>>, reply: Reply<Seq<char>>)
    requires
        spares_active(s),
    ensures
        spares_active(sweep_after(s, reply)),
{
    match s.stage {
        SweepStage::Probe { port } => {
            lemma_stage_from(s.active@, port + 1);
        },
        SweepStage::Check { port } => {
            lemma_stage_from(s.active@, port + 1);
        },
        _ => {},
    }
}

proof fn lemma_skips_only_active(active: Seq<u16>, from: int, port: int)
    requires
        ARTHAS_PORT_START <= from <= port < port_end(),
        !active.contains(port as u16),
    ensures
        stage_from(active, from) matches SweepStage::Probe { port: p } && p <= port,
    decreases port_end() - from,
{
    if active.contains(from as u16) {
        lemma_skips_only_active(active, from + 1, port);
    }
}

/// A sweep passes over no port that no session uses: from any port on, it looks at the first such
/// port, and it ends only where there is none.
pub proof fn law_sweep_misses_nothing(active: Seq<u16>, from: int, port: int)
    requires
        ARTHAS_PORT_START <= from <= port < port_end(),
        !active.contains(port as u16),
    ensures
        stage_from(active, from) matches SweepStage::Probe { port: p } && from <= p <= port,
{
    lemma_skips_only_active(active, from, port);
    lemma_not_before(active, from);
}

proof fn lemma_not_before(active: Seq<u16>, from: int)
    requires
        ARTHAS_PORT_START <= from,
    ensures
        stage_from(active, from) matches SweepStage::Probe { port } ==> from <= port,
    decreases port_end() - from,
{
    if from < port_end() && active.contains(from as u16) {
        lemma_not_before(active, from + 1);
    }
}

/// A probe tells what is on the port, at this machine or in a pod: the sweep takes it for busy exactly
/// where the port takes connections.
pub proof fn law_sweep_sees_what_is_there(
    prober: Prober<Seq<char>>,
    port: u16,
    out: Output<Seq<char>>,
    succeeds: spec_fn(Seq<char>, nat) -> bool,
    says: spec_fn(Seq<char>) -> Seq<Seq<char>>,
    p: nat,
)
    requires
        says("exec 3>&- 3<&-"@).len() == 0,
        prober is Local ==> out.stdout == shell::as_text(
            shell::printed(attach::probe_script(port), p, succeeds, says),
        ),
        prober matches Prober::Pod { ip } ==> out.stdout == shell::as_text(
            shell::printed(attach::probe_script_pod(ip, port), p, succeeds, says),
        ),
    ensures
        prober is Local ==> probe_command(prober, port) == shell::source(attach::probe_script(port))
            && is_busy(out) == succeeds(
            "(exec 3<>/dev/tcp/127.0.0.1/"@ + text::dec(port as nat) + ") 2>/dev/null"@,
            p,
        ),
        prober matches Prober::Pod { ip } ==> probe_command(prober, port) == shell::source(
            attach::probe_script_pod(ip, port),
        ) && is_busy(out) == succeeds(
            "timeout 1 bash -c "@ + "'"@ + "exec 3<>/dev/tcp/"@ + ip + "/"@ + text::dec(port as nat)
                + "'"@ + " 2>/dev/null"@,
            p,
        ),
{
    reveal_strlit("busy");
    reveal_strlit("free");
    assert("busy"@[0] != "free"@[0]);
    match prober {
        Prober::Local { site } => {
            attach::law_probe_tells_busy_from_free(port, succeeds, says, p);
        },
        Prober::Pod { ip } => {
            attach::law_pod_probe_tells_busy_from_free(ip, port, succeeds, says, p);
        },
    }
}

/// A sweep asks what it says: it probes a port, stops what it finds there without a token, waits, and
/// probes again. A port that is free lets it go on to the next; one that stays busy past the time ends it
/// with an error that names the port.
pub proof fn law_sweep_steps(s: Sweep<Seq<char>>, port: u16, out: Output<Seq<char>>, late: bool, e: Seq<char>)
    ensures
        s.stage == (SweepStage::<Seq<char>>::Probe { port }) ==> {
            &&& sweep_request(s) == (Action::<Seq<char>>::Run {
                site: probe_site(s.prober),
                cmd: probe_command(s.prober, port),
                secs: Some(SWEEP_COMMAND_SECS),
            })
            &&& is_busy(out) ==> sweep_next(s, Reply::Ran { ran: Ok(out), late }) == (SweepStage::<
                Seq<char>,
            >::Stop { port })
            &&& !is_busy(out) ==> sweep_next(s, Reply::Ran { ran: Ok(out), late }) == stage_from(
                s.active@,
                port + 1,
            )
            &&& sweep_next(s, Reply::Ran { ran: Err(e), late }) matches SweepStage::Ended {
                result: Err(m),
            } && text::contains(m, e)
        },
        s.stage == (SweepStage::<Seq<char>>::Stop { port }) ==> {
            &&& sweep_request(s) == (Action::<Seq<char>>::Run {
                site: s.stop_site,
                cmd: attach::stop(port, Seq::empty()),
                secs: Some(SWEEP_COMMAND_SECS),
            })
            &&& sweep_next(s, Reply::Ran { ran: Ok(out), late }) == (SweepStage::<Seq<char>>::Rest {
                port,
            })
        },
        s.stage == (SweepStage::<Seq<char>>::Rest { port }) ==> sweep_next(
            s,
            Reply::Done { done: Ok(()), late },
        ) == (SweepStage::<Seq<char>>::Check { port }),
        s.stage == (SweepStage::<Seq<char>>::Check { port }) ==> {
            &&& sweep_request(s) == (Action::<Seq<char>>::Run {
                site: probe_site(s.prober),
                cmd: probe_command(s.prober, port),
                secs: Some(SWEEP_COMMAND_SECS),
            })
            &&& !is_busy(out) ==> sweep_next(s, Reply::Ran { ran: Ok(out), late }) == stage_from(
                s.active@,
                port + 1,
            )
            &&& is_busy(out) && !late ==> sweep_next(s, Reply::Ran { ran: Ok(out), late }) == (
            SweepStage::<Seq<char>>::Rest { port })
            &&& is_busy(out) && late ==> (sweep_next(s, Reply::Ran { ran: Ok(out), late })
                matches SweepStage::Ended { result: Err(m) } && text::contains(
                m,
                text::dec(port as nat),
            ))
        },
        probe_site(Prober::<Seq<char>>::Pod { ip: e }) is Host,
{
    let cmd = probe_command(s.prober, port);
    flow::law_limited_command_is_what_came_of_it(cmd, SWEEP_COMMAND_SECS, out, e, late);
    let m = flow::failure_message(cmd, e);
    text::lemma_part("残留端口探测失败: "@, m);
    text::lemma_part_of_part("残留端口探测失败: "@ + m, m, e);
    text::lemma_contains("端口 "@, text::dec(port as nat), " 被残留 arthas 占用且无法停止（可能是旧版本实例，stop 被拒绝）。请重启目标服务后重试"@);
}

/// An ended sweep stays as it is.
pub proof fn law_sweep_end_is_final(s: Sweep<Seq<char>>, reply: Reply<Seq<char>>)
    requires
        s.stage is Ended,
    ensures
        sweep_after(s, reply) == s,
        sweep_request(s) is Finished,
{
}

/// A sweep after replies.
pub open spec fn sweep_through(s: Sweep<Seq<char>>, replies: Seq<Reply<Seq<char>>>) -> Sweep<
    Seq<char>,
>
    decreases replies.len(),
{
    if replies.len() == 0 {
        s
    } else {
        sweep_after(sweep_through(s, replies.drop_last()), replies.last())
    }
}

/// Whether a reply is the output of a probe that found its port free.
pub open spec fn found_free(reply: Reply<Seq<char>>) -> bool {
    reply matches Reply::Ran { ran: Ok(out), late: _ } && !is_busy(out)
}

/// Whether a probe of the port found it free, among the first replies.
pub open spec fn seen_free(
    s: Sweep<Seq<char>>,
    replies: Seq<Reply<Seq<char>>>,
    port: u16,
    n: int,
) -> bool {
    exists|j: int|
        0 <= j < n && found_free(#[trigger] replies[j]) && sweep_request(
            sweep_through(s, replies.take(j)),
        ) == sweep_run(probe_site(s.prober), probe_command(s.prober, port))
}

/// Whether the spare ports below a port were seen free.
pub open spec fn free_below(
    s: Sweep<Seq<char>>,
    replies: Seq<Reply<Seq<char>>>,
    end: int,
    n: int,
) -> bool {
    forall|port: u16|
        is_spare(s.active@, port) && port < end ==> #[trigger] seen_free(s, replies, port, n)
}

/// The port that a stage has come to.
pub open spec fn reached(stage: SweepStage<Seq<char>>) -> Option<int> {
    match stage {
        SweepStage::Probe { port } => Some(port as int),
        SweepStage::Stop { port } => Some(port as int),
        SweepStage::Rest { port } => Some(port as int),
        SweepStage::Check { port } => Some(port as int),
        SweepStage::Ended { result: Ok(_) } => Some(port_end()),
        SweepStage::Ended { result: Err(_) } => None,
    }
}

proof fn lemma_gap_is_active(active: Seq<u16>, from: int, port: u16)
    requires
        ARTHAS_PORT_START <= from <= port,
        reached(stage_from(active, from)) matches Some(end) && port < end,
    ensures
        !is_spare(active, port),
{
    if is_spare(active, port) {
        law_sweep_misses_nothing(active, from, port as int);
    }
}

proof fn lemma_sweep_through(s: Sweep<Seq<char>>, replies: Seq<Reply<Seq<char>>>, n: int)
    requires
        s.stage == stage_from(s.active@, ARTHAS_PORT_START as int),
        0 <= n <= replies.len(),
    ensures
        ({
            let now = sweep_through(s, replies.take(n));
            &&& now == (Sweep { stage: now.stage, ..s })
            &&& spares_active(now)
            &&& reached(now.stage) matches Some(end) ==> free_below(s, replies, end, n)
        }),
    decreases n,
{
    if n == 0 {
        lemma_stage_from(s.active@, ARTHAS_PORT_START as int);
        if let Some(end) = reached(s.stage) {
            assert forall|port: u16| is_spare(s.active@, port) && port < end implies #[trigger]
            seen_free(s, replies, port, 0) by {
                lemma_gap_is_active(s.active@, ARTHAS_PORT_START as int, port);
            }
        }
    } else {
        lemma_sweep_through(s, replies, n - 1);
        assert(replies.take(n).drop_last() =~= replies.take(n - 1));
        let before = sweep_through(s, replies.take(n - 1));
        let reply = replies[n - 1];
        let after = sweep_after(before, reply);
        law_sweep_spares_active(before, reply);
        if let Some(end) = reached(after.stage) {
            let at = reached(before.stage)->0;
            assert forall|port: u16| is_spare(s.active@, port) && port < end implies #[trigger]
            seen_free(s, replies, port, n) by {
                if port < at {
                    assert(seen_free(s, replies, port, n - 1));
                } else if port == at {
                    assert(found_free(replies[n - 1]));
                } else {
                    lemma_gap_is_active(s.active@, at + 1, port);
                }
            }
        }
    }
}

/// Over a whole run: when a sweep is done, every port that arthas may listen on and that no
/// session uses was seen free.
pub proof fn law_swept_ports_are_free(
    prober: Prober<Seq<char>>,
    stop_site: Site,
    active: Vec<u16>,
    wait_ms: u64,
    poll_ms: u64,
    replies: Seq<Reply<Seq<char>>>,
    port: u16,
)
    requires
        sweep_through(
            sweep_start(prober, stop_site, active, wait_ms, poll_ms),
            replies,
        ).stage matches SweepStage::Ended { result: Ok(_) },
        is_spare(active@, port),
    ensures
        seen_free(
            sweep_start(prober, stop_site, active, wait_ms, poll_ms),
            replies,
            port,
            replies.len() as int,
        ),
{
    let s = sweep_start(prober, stop_site, active, wait_ms, poll_ms);
    lemma_sweep_through(s, replies, replies.len() as int);
    assert(replies.take(replies.len() as int) =~= replies);
}

/// Over a whole run: whatever is answered, a sweep never comes to a port that a session uses.
pub proof fn law_sweep_never_touches_sessions(
    prober: Prober<Seq<char>>,
    stop_site: Site,
    active: Vec<u16>,
    wait_ms: u64,
    poll_ms: u64,
    replies: Seq<Reply<Seq<char>>>,
)
    ensures
        spares_active(
            sweep_through(sweep_start(prober, stop_site, active, wait_ms, poll_ms), replies),
        ),
        sweep_through(sweep_start(prober, stop_site, active, wait_ms, poll_ms), replies).active
            == active,
{
    lemma_sweep_through(
        sweep_start(prober, stop_site, active, wait_ms, poll_ms),
        replies,
        replies.len() as int,
    );
    assert(replies.take(replies.len() as int) =~= replies);
}

} // verus!
