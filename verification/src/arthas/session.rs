//! Opening a session: from a request to a client that is connected to arthas.

use vstd::prelude::*;

use crate::arthas::pod;
use crate::arthas::pod::{Mcp, McpStage, Prepare, PrepareStage, POD_PROBE_BUDGET_MS};
use crate::arthas::tunnel;
use crate::arthas::tunnel::{PfLease, PfTunnelParams};
use crate::arthas::vm;
use crate::arthas::vm::{VmAttach, VmStage};
use crate::flow;
use crate::flow::{Action, Reply, Site};
use crate::ids;
use crate::provision::arthas::ARTHAS_TOOL_NAME;
use crate::provision::package::StageTimeouts;
use crate::text;

verus! {

/// What an attach comes to: the port that arthas listens on at the target, and the tunnel to it
/// where there is one.
pub type Attached = (u16, Option<PfLease>);

/// An attach or why it failed, by what it holds.
pub open spec fn view_attached(r: Result<Attached, String>) -> Result<Attached, Seq<char>> {
    match r {
        Ok(a) => Ok(a),
        Err(e) => Err(e@),
    }
}

// ---------------------------------------------------------------------------------------------
// In a pod
// ---------------------------------------------------------------------------------------------

/// Where an attach in a pod stands.
#[derive(Debug, PartialEq, Eq)]
pub enum PodAttachStage<S> {
    /// Get hold of a channel into the container.
    Channel,
    /// Bring arthas up.
    Prepare { flow: Prepare<S> },
    /// Connect the client.
    Connect { flow: Mcp<S> },
    /// It is over.
    Ended { result: Result<Attached, S> },
}

/// An attach in a pod.
#[derive(Debug, PartialEq, Eq)]
pub struct PodAttach<S> {
    pub env_id: S,
    pub pod: S,
    pub container: Option<S>,
    pub pid: i64,
    pub java_bin: S,
    /// The archive of the package, where there is one.
    pub zip: Option<S>,
    /// What the staging directory on the host is named after.
    pub staging_id: S,
    /// The password of arthas.
    pub token: S,
    /// Whether the user was told of the stage.
    pub told: bool,
    pub stage: PodAttachStage<S>,
}

impl View for PodAttachStage<String> {
    type V = PodAttachStage<Seq<char>>;

    open spec fn view(&self) -> PodAttachStage<Seq<char>> {
        match *self {
            PodAttachStage::Channel => PodAttachStage::Channel,
            PodAttachStage::Prepare { flow } => PodAttachStage::Prepare { flow: flow@ },
            PodAttachStage::Connect { flow } => PodAttachStage::Connect { flow: flow@ },
            PodAttachStage::Ended { result } => PodAttachStage::Ended {
                result: view_attached(result),
            },
        }
    }
}

impl View for PodAttach<String> {
    type V = PodAttach<Seq<char>>;

    open spec fn view(&self) -> PodAttach<Seq<char>> {
        PodAttach {
            env_id: self.env_id@,
            pod: self.pod@,
            container: text::opt(self.container),
            pid: self.pid,
            java_bin: self.java_bin@,
            zip: text::opt(self.zip),
            staging_id: self.staging_id@,
            token: self.token@,
            told: self.told,
            stage: self.stage@,
        }
    }
}

/// An attach in a pod before its first step.
pub open spec fn pod_attach_start(
    env_id: Seq<char>,
    pod: Seq<char>,
    container: Option<Seq<char>>,
    pid: i64,
    java_bin: Seq<char>,
    zip: Option<Seq<char>>,
    staging_id: Seq<char>,
    token: Seq<char>,
) -> PodAttach<Seq<char>> {
    PodAttach {
        env_id,
        pod,
        container,
        pid,
        java_bin,
        zip,
        staging_id,
        token,
        told: false,
        stage: PodAttachStage::Channel,
    }
}

/// How the client reaches arthas, in words.
pub open spec fn way_text(lease: Option<PfLease>) -> Seq<char> {
    if lease is Some {
        "port-forward 隧道"@
    } else {
        "exec HTTP 桥"@
    }
}

/// The notice that a stage begins with: the name of the stage and a detail.
pub open spec fn pod_attach_notice(a: PodAttach<Seq<char>>) -> Option<(Seq<char>, Seq<char>)> {
    match a.stage {
        PodAttachStage::Channel => Some(("channel"@, pod::opening_channel(a.pod))),
        PodAttachStage::Ended { result: Ok((port, lease)) } => Some(
            ("ready"@, pod::ready_over(a.pod, port, way_text(lease))),
        ),
        _ => None,
    }
}

/// What an attach in a pod asks for where it stands.
pub open spec fn pod_attach_request(a: PodAttach<Seq<char>>) -> Action<Seq<char>> {
    match a.stage {
        PodAttachStage::Prepare { flow } => pod::prepare_request(flow),
        PodAttachStage::Connect { flow } => pod::mcp_request(flow),
        _ => match pod_attach_notice(a) {
            Some((stage, detail)) => if !a.told {
                Action::Progress { tool: ARTHAS_TOOL_NAME@, stage, detail }
            } else if a.stage is Channel {
                Action::Acquire { site: Site::Target }
            } else {
                Action::Finished
            },
            None => Action::Finished,
        },
    }
}

/// How long, in milliseconds, the wait that the stage belongs to may take.
pub open spec fn pod_attach_budget(a: PodAttach<Seq<char>>) -> Option<u64> {
    match a.stage {
        PodAttachStage::Prepare { flow } => pod::prepare_budget(flow),
        PodAttachStage::Connect { flow } => pod::mcp_budget(flow),
        _ => None,
    }
}

/// Where a step of the preparation leads.
pub open spec fn pod_attach_prepared(
    a: PodAttach<Seq<char>>,
    flow: Prepare<Seq<char>>,
) -> PodAttach<Seq<char>> {
    match flow.stage {
        PrepareStage::Ended { result: Ok(port) } => PodAttach {
            stage: PodAttachStage::Connect {
                flow: pod::mcp_start(
                    a.env_id,
                    a.pod,
                    a.container,
                    port,
                    a.token,
                    tunnel::default_params(),
                ),
            },
            ..a
        },
        PrepareStage::Ended { result: Err(e) } => PodAttach {
            told: false,
            stage: PodAttachStage::Ended { result: Err(e) },
            ..a
        },
        _ => PodAttach { stage: PodAttachStage::Prepare { flow }, ..a },
    }
}

/// Where a step of the way of the client leads.
pub open spec fn pod_attach_connected(
    a: PodAttach<Seq<char>>,
    flow: Mcp<Seq<char>>,
) -> PodAttach<Seq<char>> {
    match flow.stage {
        McpStage::Ended { result: Ok(lease) } => PodAttach {
            told: false,
            stage: PodAttachStage::Ended { result: Ok((flow.mcp_port, lease)) },
            ..a
        },
        McpStage::Ended { result: Err(e) } => PodAttach {
            told: false,
            stage: PodAttachStage::Ended { result: Err(e) },
            ..a
        },
        _ => PodAttach { stage: PodAttachStage::Connect { flow }, ..a },
    }
}

/// An attach in a pod after a reply.
pub open spec fn pod_attach_after(a: PodAttach<Seq<char>>, reply: Reply<Seq<char>>) -> PodAttach<
    Seq<char>,
> {
    match a.stage {
        PodAttachStage::Channel => match reply {
            Reply::Done { done, late } => if !a.told {
                PodAttach { told: true, ..a }
            } else {
                match done {
                    Ok(_) => PodAttach {
                        stage: PodAttachStage::Prepare {
                            flow: pod::prepare_start(
                                a.pod,
                                a.container,
                                a.pid,
                                a.java_bin,
                                a.zip,
                                POD_PROBE_BUDGET_MS,
                                a.staging_id,
                                a.token,
                            ),
                        },
                        ..a
                    },
                    Err(e) => PodAttach {
                        told: false,
                        stage: PodAttachStage::Ended { result: Err(pod::channel_failed(e)) },
                        ..a
                    },
                }
            },
            _ => a,
        },
        PodAttachStage::Prepare { flow } => pod_attach_prepared(
            a,
            pod::prepare_after(flow, reply),
        ),
        PodAttachStage::Connect { flow } => pod_attach_connected(a, pod::mcp_after(flow, reply)),
        PodAttachStage::Ended { result } => if result is Ok && reply is Done {
            PodAttach { told: true, ..a }
        } else {
            a
        },
    }
}

/// Begins an attach in a pod, behind a fresh password.
pub fn attach_arthas_in_pod(
    env_id: &str,
    pod: &str,
    container: Option<&str>,
    pid: i64,
    java_bin: &str,
    zip: Option<&str>,
) -> (r: PodAttach<String>)
    ensures
        exists|id: Seq<char>, token: Seq<char>| #[trigger]
            ids::is_uuid(id) && #[trigger] ids::is_token(token) && r@ == pod_attach_start(
                env_id@,
                pod@,
                text::opt_str(container),
                pid,
                java_bin@,
                text::opt_str(zip),
                id,
                token,
            ),
{
    let id: String = ids::fresh_uuid();
    let token: String = ids::generate_token();
    attach_in_pod_with(env_id, pod, container, pid, java_bin, zip, id.as_str(), token.as_str())
}

/// Begins an attach in a pod, behind a given password and over a staging directory named after
/// `staging_id`.
pub fn attach_in_pod_with(
    env_id: &str,
    pod: &str,
    container: Option<&str>,
    pid: i64,
    java_bin: &str,
    zip: Option<&str>,
    staging_id: &str,
    token: &str,
) -> (r: PodAttach<String>)
    ensures
        r@ == pod_attach_start(
            env_id@,
            pod@,
            text::opt_str(container),
            pid,
            java_bin@,
            text::opt_str(zip),
            staging_id@,
            token@,
        ),
{
    PodAttach {
        env_id: env_id.to_owned(),
        pod: pod.to_owned(),
        container: text::own_opt(container),
        pid,
        java_bin: java_bin.to_owned(),
        zip: text::own_opt(zip),
        staging_id: staging_id.to_owned(),
        token: token.to_owned(),
        told: false,
        stage: PodAttachStage::Channel,
    }
}

impl PodAttach<String> {
    fn notice(&self) -> (r: Option<(&'static str, String)>)
        ensures
            (match r {
                Some((s, d)) => Some((s@, d@)),
                None => None,
            }) == pod_attach_notice(self@),
    {
        match &self.stage {
            PodAttachStage::Channel => Some(
                ("channel", pod::opening_channel_text(self.pod.as_str())),
            ),
            PodAttachStage::Ended { result: Ok((port, lease)) } => {
                let way: &'static str = if lease.is_some() {
                    "port-forward 隧道"
                } else {
                    "exec HTTP 桥"
                };
                Some(("ready", pod::ready_over_text(self.pod.as_str(), *port, way)))
            },
            _ => None,
        }
    }

    /// What is asked for.
    pub fn request(&self) -> (r: Action<String>)
        ensures
            r@ == pod_attach_request(self@),
    {
        match &self.stage {
            PodAttachStage::Prepare { flow } => flow.request(),
            PodAttachStage::Connect { flow } => flow.request(),
            _ => match self.notice() {
                Some((stage, detail)) => if !self.told {
                    Action::Progress {
                        tool: ARTHAS_TOOL_NAME.to_owned(),
                        stage: stage.to_owned(),
                        detail,
                    }
                } else {
                    match &self.stage {
                        PodAttachStage::Channel => Action::Acquire { site: Site::Target },
                        _ => Action::Finished,
                    }
                },
                None => Action::Finished,
            },
        }
    }

    /// How long, in milliseconds, the wait that the stage belongs to may take.
    pub fn budget(&self) -> (r: Option<u64>)
        ensures
            r == pod_attach_budget(self@),
    {
        match &self.stage {
            PodAttachStage::Prepare { flow } => flow.budget(),
            PodAttachStage::Connect { flow } => flow.budget(),
            _ => None,
        }
    }

    fn on_prepared(self, flow: Prepare<String>) -> (r: Self)
        ensures
            r@ == pod_attach_prepared(self@, flow@),
    {
        match flow.stage {
            PrepareStage::Ended { result: Ok(port) } => {
                let flow: Mcp<String> = pod::establish_pod_mcp(
                    self.env_id.as_str(),
                    self.pod.as_str(),
                    text::as_str_opt(&self.container),
                    port,
                    self.token.as_str(),
                    PfTunnelParams::default(),
                );
                PodAttach { stage: PodAttachStage::Connect { flow }, ..self }
            },
            PrepareStage::Ended { result: Err(e) } => PodAttach {
                told: false,
                stage: PodAttachStage::Ended { result: Err(e) },
                ..self
            },
            stage => PodAttach {
                stage: PodAttachStage::Prepare { flow: Prepare { stage, ..flow } },
                ..self
            },
        }
    }

    fn on_connected(self, flow: Mcp<String>) -> (r: Self)
        ensures
            r@ == pod_attach_connected(self@, flow@),
    {
        match flow.stage {
            McpStage::Ended { result: Ok(lease) } => PodAttach {
                told: false,
                stage: PodAttachStage::Ended { result: Ok((flow.mcp_port, lease)) },
                ..self
            },
            McpStage::Ended { result: Err(e) } => PodAttach {
                told: false,
                stage: PodAttachStage::Ended { result: Err(e) },
                ..self
            },
            stage => PodAttach {
                stage: PodAttachStage::Connect { flow: Mcp { stage, ..flow } },
                ..self
            },
        }
    }

    /// Takes the reply to what was asked for.
    pub fn step(self, reply: Reply<String>) -> (r: Self)
        ensures
            r@ == pod_attach_after(self@, reply@),
    {
        let stage: PodAttachStage<String> = self.stage;
        let me: PodAttach<String> = PodAttach { stage: PodAttachStage::Channel, ..self };
        match stage {
            PodAttachStage::Channel => match reply {
                Reply::Done { done, late: _ } => if !me.told {
                    PodAttach { told: true, ..me }
                } else {
                    match done {
                        Ok(_) => {
                            let flow: Prepare<String> = pod::pod_attach_prepare_with(
                                me.pod.as_str(),
                                text::as_str_opt(&me.container),
                                me.pid,
                                me.java_bin.as_str(),
                                text::as_str_opt(&me.zip),
                                POD_PROBE_BUDGET_MS,
                                me.staging_id.as_str(),
                                me.token.as_str(),
                            );
                            PodAttach { stage: PodAttachStage::Prepare { flow }, ..me }
                        },
                        Err(e) => PodAttach {
                            told: false,
                            stage: PodAttachStage::Ended {
                                result: Err(pod::channel_failed_text(e.as_str())),
                            },
                            ..me
                        },
                    }
                },
                _ => me,
            },
            PodAttachStage::Prepare { flow } => me.on_prepared(flow.step(reply)),
            PodAttachStage::Connect { flow } => me.on_connected(flow.step(reply)),
            PodAttachStage::Ended { result } => {
                let ready: bool = result.is_ok();
                let done: bool = match reply {
                    Reply::Done { done: _, late: _ } => true,
                    _ => false,
                };
                if ready && done {
                    PodAttach { told: true, stage: PodAttachStage::Ended { result }, ..me }
                } else {
                    PodAttach { stage: PodAttachStage::Ended { result }, ..me }
                }
            },
        }
    }
}

/// An attach in a pod succeeds only over a client that connected, and hands out the tunnel that
/// the client connected through, if there is one.
pub proof fn law_pod_attach_success(
    a: PodAttach<Seq<char>>,
    reply: Reply<Seq<char>>,
    port: u16,
    lease: Option<PfLease>,
)
    requires
        a.stage !is Ended,
        pod_attach_after(a, reply).stage == (PodAttachStage::<Seq<char>>::Ended {
            result: Ok((port, lease)),
        }),
    ensures
        a.stage matches PodAttachStage::Connect { flow } && flow.mcp_port == port && (
        flow.stage !is Ended ==> (reply matches Reply::Done { done: Ok(_), late: _ }) && match lease {
            Some(l) => flow.stage == (McpStage::<Seq<char>>::Native { lease: l }),
            None => flow.stage is Bridge,
        }),
{
}

/// An ended attach in a pod keeps its result; nothing is asked for any more once its success was
/// told.
pub proof fn law_pod_attach_end_is_final(a: PodAttach<Seq<char>>, reply: Reply<Seq<char>>)
    requires
        a.stage is Ended,
    ensures
        pod_attach_after(a, reply).stage == a.stage,
        (a.stage matches PodAttachStage::Ended { result: Err(_) }) ==> pod_attach_request(
            a,
        ) is Finished,
        a.told ==> pod_attach_request(a) is Finished,
{
}

// ---------------------------------------------------------------------------------------------
// Either way
// ---------------------------------------------------------------------------------------------

/// What is to be attached to.
#[derive(Debug, PartialEq, Eq)]
pub struct AttachRequest<S> {
    pub env_id: S,
    pub pid: i64,
    pub pod: Option<S>,
    pub container: Option<S>,
    pub java_bin: S,
    /// The archive of the package, where there is one.
    pub zip: Option<S>,
    pub timeouts: StageTimeouts,
}

impl View for AttachRequest<String> {
    type V = AttachRequest<Seq<char>>;

    open spec fn view(&self) -> AttachRequest<Seq<char>> {
        AttachRequest {
            env_id: self.env_id@,
            pid: self.pid,
            pod: text::opt(self.pod),
            container: text::opt(self.container),
            java_bin: self.java_bin@,
            zip: text::opt(self.zip),
            timeouts: self.timeouts,
        }
    }
}

/// Where the opening of a session stands.
#[derive(Debug, PartialEq, Eq)]
pub enum SessionStage<S> {
    /// Get hold of the channel of the host.
    Base,
    /// Attach on the host itself.
    Vm { flow: VmAttach<S> },
    /// Attach in a pod.
    Pod { flow: PodAttach<S> },
    /// There is no channel.
    Failed { error: S },
}

/// The opening of a session.
#[derive(Debug, PartialEq, Eq)]
pub struct Session<S> {
    pub req: AttachRequest<S>,
    pub staging_id: S,
    pub token: S,
    pub stage: SessionStage<S>,
}

impl View for SessionStage<String> {
    type V = SessionStage<Seq<char>>;

    open spec fn view(&self) -> SessionStage<Seq<char>> {
        match *self {
            SessionStage::Base => SessionStage::Base,
            SessionStage::Vm { flow } => SessionStage::Vm { flow: flow@ },
            SessionStage::Pod { flow } => SessionStage::Pod { flow: flow@ },
            SessionStage::Failed { error } => SessionStage::Failed { error: error@ },
        }
    }
}

impl View for Session<String> {
    type V = Session<Seq<char>>;

    open spec fn view(&self) -> Session<Seq<char>> {
        Session {
            req: self.req@,
            staging_id: self.staging_id@,
            token: self.token@,
            stage: self.stage@,
        }
    }
}

/// What the opening of a session asks for where it stands.
pub open spec fn session_request(s: Session<Seq<char>>) -> Action<Seq<char>> {
    match s.stage {
        SessionStage::Base => Action::Acquire { site: Site::Host },
        SessionStage::Vm { flow } => vm::vm_request(flow),
        SessionStage::Pod { flow } => pod_attach_request(flow),
        SessionStage::Failed { error } => Action::Finished,
    }
}

/// How long, in milliseconds, the wait that the stage belongs to may take.
pub open spec fn session_budget(s: Session<Seq<char>>) -> Option<u64> {
    match s.stage {
        SessionStage::Vm { flow } => vm::vm_budget(flow),
        SessionStage::Pod { flow } => pod_attach_budget(flow),
        _ => None,
    }
}

/// The attach that a request asks for: in the pod that it names, on the host where it names none.
pub open spec fn session_attach(s: Session<Seq<char>>) -> SessionStage<Seq<char>> {
    match s.req.pod {
        Some(pod) => SessionStage::Pod {
            flow: pod_attach_start(
                s.req.env_id,
                pod,
                s.req.container,
                s.req.pid,
                s.req.java_bin,
                s.req.zip,
                s.staging_id,
                s.token,
            ),
        },
        None => SessionStage::Vm {
            flow: vm::vm_start(s.req.pid, s.req.java_bin, s.req.zip, s.req.timeouts, s.token),
        },
    }
}

/// Where a reply leads.
pub open spec fn session_after(s: Session<Seq<char>>, reply: Reply<Seq<char>>) -> Session<
    Seq<char>,
> {
    match s.stage {
        SessionStage::Base => match reply {
            Reply::Done { done: Ok(_), late } => Session { stage: session_attach(s), ..s },
            Reply::Done { done: Err(e), late } => Session {
                stage: SessionStage::Failed { error: pod::channel_failed(e) },
                ..s
            },
            _ => s,
        },
        SessionStage::Vm { flow } => Session {
            stage: SessionStage::Vm { flow: vm::vm_after(flow, reply) },
            ..s
        },
        SessionStage::Pod { flow } => Session {
            stage: SessionStage::Pod { flow: pod_attach_after(flow, reply) },
            ..s
        },
        SessionStage::Failed { error } => s,
    }
}

/// What came of it, once it is over.
pub open spec fn session_outcome(s: Session<Seq<char>>) -> Option<Result<Attached, Seq<char>>> {
    match s.stage {
        SessionStage::Base => None,
        SessionStage::Vm { flow } => match flow.stage {
            VmStage::Ended { result: Ok(port) } => Some(Ok((port, None::<PfLease>))),
            VmStage::Ended { result: Err(e) } => Some(Err(e)),
            _ => None,
        },
        SessionStage::Pod { flow } => match flow.stage {
            PodAttachStage::Ended { result } => Some(result),
            _ => None,
        },
        SessionStage::Failed { error } => Some(Err(error)),
    }
}

/// Begins to open a session, behind a fresh password.
pub fn attach_arthas(req: AttachRequest<String>) -> (r: Session<String>)
    ensures
        exists|id: Seq<char>, token: Seq<char>| #[trigger]
            ids::is_uuid(id) && #[trigger] ids::is_token(token) && r@ == (Session {
                req: req@,
                staging_id: id,
                token,
                stage: SessionStage::<Seq<char>>::Base,
            }),
{
    let id: String = ids::fresh_uuid();
    let token: String = ids::generate_token();
    attach_arthas_with(req, id, token)
}

/// Begins to open a session, behind a given password and over a staging directory named after
/// `staging_id`.
pub fn attach_arthas_with(req: AttachRequest<String>, staging_id: String, token: String) -> (r:
    Session<String>)
    ensures
        r@ == (Session {
            req: req@,
            staging_id: staging_id@,
            token: token@,
            stage: SessionStage::<Seq<char>>::Base,
        }),
{
    Session { req, staging_id, token, stage: SessionStage::Base }
}

impl Session<String> {
    /// What is asked for.
    pub fn request(&self) -> (r: Action<String>)
        ensures
            r@ == session_request(self@),
    {
        match &self.stage {
            SessionStage::Base => Action::Acquire { site: Site::Host },
            SessionStage::Vm { flow } => flow.request(),
            SessionStage::Pod { flow } => flow.request(),
            SessionStage::Failed { error: _ } => Action::Finished,
        }
    }

    /// How long, in milliseconds, the wait that the stage belongs to may take.
    pub fn budget(&self) -> (r: Option<u64>)
        ensures
            r == session_budget(self@),
    {
        match &self.stage {
            SessionStage::Vm { flow } => flow.budget(),
            SessionStage::Pod { flow } => flow.budget(),
            _ => None,
        }
    }

    /// What came of it, once it is over.
    pub fn outcome(&self) -> (r: Option<Result<Attached, String>>)
        ensures
            (match r {
                Some(x) => Some(view_attached(x)),
                None => None,
            }) == session_outcome(self@),
    {
        match &self.stage {
            SessionStage::Base => None,
            SessionStage::Vm { flow } => match &flow.stage {
                VmStage::Ended { result: Ok(port) } => Some(Ok((*port, None))),
                VmStage::Ended { result: Err(e) } => Some(Err(e.clone())),
                _ => None,
            },
            SessionStage::Pod { flow } => match &flow.stage {
                PodAttachStage::Ended { result: Ok(attached) } => Some(Ok(*attached)),
                PodAttachStage::Ended { result: Err(e) } => Some(Err(e.clone())),
                _ => None,
            },
            SessionStage::Failed { error } => Some(Err(error.clone())),
        }
    }

    fn attach(&self) -> (r: SessionStage<String>)
        ensures
            r@ == session_attach(self@),
    {
        match &self.req.pod {
            Some(pod) => SessionStage::Pod {
                flow: attach_in_pod_with(
                    self.req.env_id.as_str(),
                    pod.as_str(),
                    text::as_str_opt(&self.req.container),
                    self.req.pid,
                    self.req.java_bin.as_str(),
                    text::as_str_opt(&self.req.zip),
                    self.staging_id.as_str(),
                    self.token.as_str(),
                ),
            },
            None => SessionStage::Vm {
                flow: vm::attach_on_vm_with(
                    self.req.pid,
                    self.req.java_bin.as_str(),
                    text::as_str_opt(&self.req.zip),
                    self.req.timeouts,
                    self.token.as_str(),
                ),
            },
        }
    }

    /// Takes the reply to what was asked for.
    pub fn step(self, reply: Reply<String>) -> (r: Self)
        ensures
            r@ == session_after(self@, reply@),
    {
        let next: SessionStage<String> = self.attach();
        let stage: SessionStage<String> = match self.stage {
            SessionStage::Base => match reply {
                Reply::Done { done: Ok(_), late: _ } => next,
                Reply::Done { done: Err(e), late: _ } => SessionStage::Failed {
                    error: pod::channel_failed_text(e.as_str()),
                },
                _ => SessionStage::Base,
            },
            SessionStage::Vm { flow } => SessionStage::Vm { flow: flow.step(reply) },
            SessionStage::Pod { flow } => SessionStage::Pod { flow: flow.step(reply) },
            SessionStage::Failed { error } => SessionStage::Failed { error },
        };
        Session { req: self.req, staging_id: self.staging_id, token: self.token, stage }
    }
}

/// What came of an attach does not change any more.
pub proof fn law_session_outcome_is_final(s: Session<Seq<char>>, reply: Reply<Seq<char>>)
    requires
        session_outcome(s) is Some,
    ensures
        session_outcome(session_after(s, reply)) == session_outcome(s),
{
}

/// A request that names no pod is never served by commands in a container, and one that names a
/// pod is served in that pod.
pub proof fn law_session_serves_its_target(s: Session<Seq<char>>, reply: Reply<Seq<char>>)
    requires
        s.stage is Base,
    ensures
        ({
            let after = session_after(s, reply).stage;
            &&& s.req.pod is None ==> after !is Pod
            &&& s.req.pod matches Some(pod) ==> after !is Vm && (after matches
                SessionStage::Pod { flow } ==> flow.pod == pod)
        }),
{
}

/// The way of an attach in a pod: a channel to the container is got hold of, the preparation is begun for
/// the pod, the process and the java program of the attach, behind its token; the client is begun at the
/// port that came of it, behind the same token; what comes out is that port and the tunnel.
pub proof fn law_way_of_a_pod_attach(
    a: PodAttach<Seq<char>>,
    e: Seq<char>,
    port: u16,
    flow: Prepare<Seq<char>>,
    client: Mcp<Seq<char>>,
    late: bool,
)
    ensures
        a.stage is Channel && !a.told ==> (pod_attach_request(a) matches Action::Progress {
            tool: _,
            stage,
            detail,
        } && stage == "channel"@ && text::contains(detail, a.pod)),
        a.stage is Channel && a.told ==> {
            let b = pod_attach_after(a, Reply::Done { done: Ok(()), late });
            &&& pod_attach_request(a) == (Action::<Seq<char>>::Acquire { site: Site::Target })
            &&& b.stage matches PodAttachStage::Prepare { flow: f } && {
                &&& f.pod == a.pod
                &&& f.container == a.container
                &&& f.pid == a.pid
                &&& f.java_bin == a.java_bin
                &&& f.token == a.token
                &&& f.probe_budget == 60000
            }
            &&& pod_attach_after(a, Reply::Done { done: Err(e), late }).stage
                matches PodAttachStage::Ended { result: Err(m) } && text::contains(m, e)
        },
        flow.stage == (PrepareStage::<Seq<char>>::Ended { result: Ok(port) }) ==> (
        pod_attach_prepared(a, flow).stage matches PodAttachStage::Connect { flow: m } && {
            &&& m.env_id == a.env_id
            &&& m.pod == a.pod
            &&& m.container == a.container
            &&& m.mcp_port == port
            &&& m.token == a.token
        }),
        flow.stage == (PrepareStage::<Seq<char>>::Ended { result: Err(e) }) ==> pod_attach_prepared(
            a,
            flow,
        ).stage == (PodAttachStage::<Seq<char>>::Ended { result: Err(e) }),
        client.stage matches McpStage::Ended { result: Ok(lease) } ==> pod_attach_connected(
            a,
            client,
        ).stage == (PodAttachStage::<Seq<char>>::Ended { result: Ok((client.mcp_port, lease)) }),
        client.stage == (McpStage::<Seq<char>>::Ended { result: Err(e) }) ==> pod_attach_connected(
            a,
            client,
        ).stage == (PodAttachStage::<Seq<char>>::Ended { result: Err(e) }),
{
    text::lemma_part("SSH 连接失败: "@, e);
    text::lemma_contains("建立容器执行通道（pod "@, a.pod, "）"@);
}

/// What is told of an attach that succeeded names the pod, the port, and the way that the client takes.
pub proof fn law_ready_names_the_way(a: PodAttach<Seq<char>>, port: u16, lease: Option<PfLease>)
    requires
        a.stage == (PodAttachStage::<Seq<char>>::Ended { result: Ok((port, lease)) }),
        !a.told,
    ensures
        pod_attach_request(a) matches Action::Progress { tool: _, stage, detail } && {
            &&& stage == "ready"@
            &&& text::contains(detail, a.pod)
            &&& text::contains(detail, text::dec(port as nat))
            &&& lease is Some ==> text::contains(detail, "port-forward 隧道"@)
            &&& lease is None ==> text::contains(detail, "exec HTTP 桥"@)
        },
{
    let d = text::dec(port as nat);
    let w = way_text(lease);
    let c0 = "arthas 就绪（pod "@;
    let c2 = " 容器内端口 "@;
    let p2 = c0 + a.pod + c2;
    text::lemma_contains(c0, a.pod, c2);
    text::lemma_part_kept(p2, a.pod, d);
    text::lemma_part_kept(p2 + d, a.pod, "，"@);
    text::lemma_part_kept(p2 + d + "，"@, a.pod, w);
    text::lemma_part_kept(p2 + d + "，"@ + w, a.pod, "）"@);
    text::lemma_contains(p2, d, "，"@);
    text::lemma_part_kept(p2 + d + "，"@, d, w);
    text::lemma_part_kept(p2 + d + "，"@ + w, d, "）"@);
    text::lemma_contains(p2 + d + "，"@, w, "）"@);
}

/// A session is opened for what its request asks: the channel of the host is got hold of first, and the
/// attach that follows is for the process, the java program, the package and the token of the session, in
/// the container that it names. What comes out is what came of that attach; one on a host has no tunnel.
pub proof fn law_session_is_as_asked(
    s: Session<Seq<char>>,
    e: Seq<char>,
    port: u16,
    late: bool,
)
    ensures
        s.stage is Base ==> {
            let t = session_after(s, Reply::Done { done: Ok(()), late });
            &&& session_request(s) == (Action::<Seq<char>>::Acquire { site: Site::Host })
            &&& session_outcome(s) is None
            &&& s.req.pod matches Some(pod) ==> (t.stage matches SessionStage::Pod { flow } && {
                &&& flow.env_id == s.req.env_id
                &&& flow.pod == pod
                &&& flow.container == s.req.container
                &&& flow.pid == s.req.pid
                &&& flow.java_bin == s.req.java_bin
                &&& flow.zip == s.req.zip
                &&& flow.staging_id == s.staging_id
                &&& flow.token == s.token
                &&& flow.stage is Channel
            })
            &&& s.req.pod is None ==> (t.stage matches SessionStage::Vm { flow } && {
                &&& flow.pid == s.req.pid
                &&& flow.java_bin == s.req.java_bin
                &&& flow.token == s.token
            })
            &&& session_outcome(session_after(s, Reply::Done { done: Err(e), late })) matches Some(
                Err(m),
            ) && text::contains(m, e)
        },
        s.stage matches SessionStage::Vm { flow } ==> {
            &&& flow.stage == (VmStage::<Seq<char>>::Ended { result: Ok(port) }) ==> session_outcome(s)
                == Some(Ok::<Attached, Seq<char>>((port, None)))
            &&& flow.stage == (VmStage::<Seq<char>>::Ended { result: Err(e) }) ==> session_outcome(s)
                == Some(Err::<Attached, Seq<char>>(e))
        },
        s.stage matches SessionStage::Pod { flow } ==> (flow.stage matches PodAttachStage::Ended {
            result,
        } ==> session_outcome(s) == Some(result)),
{
    text::lemma_part("SSH 连接失败: "@, e);
}

/// What may be waited for in an attach, or in the opening of a session, is what its step may wait for.
pub proof fn law_waits_are_those_of_the_steps(a: PodAttach<Seq<char>>, s: Session<Seq<char>>)
    ensures
        a.stage matches PodAttachStage::Prepare { flow } ==> pod_attach_budget(a)
            == pod::prepare_budget(flow),
        a.stage matches PodAttachStage::Connect { flow } ==> pod_attach_budget(a)
            == pod::mcp_budget(flow),
        s.stage matches SessionStage::Vm { flow } ==> session_budget(s) == vm::vm_budget(flow),
        s.stage matches SessionStage::Pod { flow } ==> session_budget(s) == pod_attach_budget(flow),
{
}

/// A session that failed asks for nothing more and waits for nothing; what comes out of a session is
/// what its attach came to: on a host the port alone, in a pod the port with the lease of its tunnel.
pub proof fn law_outcome_is_that_of_the_attach(
    s: Session<Seq<char>>,
    flow: VmAttach<Seq<char>>,
    a: PodAttach<Seq<char>>,
    port: u16,
    lease: Option<PfLease>,
    e: Seq<char>,
)
    ensures
        s.stage == (SessionStage::<Seq<char>>::Failed { error: e }) ==> session_request(s)
            is Finished && session_budget(s) is None && session_outcome(s) == Some(
            Err::<Attached, Seq<char>>(e),
        ),
        s.stage == (SessionStage::<Seq<char>>::Vm { flow }) && flow.stage == (VmStage::<
            Seq<char>,
        >::Ended { result: Ok(port) }) ==> session_outcome(s) == Some(
            Ok::<Attached, Seq<char>>((port, None)),
        ),
        s.stage == (SessionStage::<Seq<char>>::Vm { flow }) && flow.stage == (VmStage::<
            Seq<char>,
        >::Ended { result: Err(e) }) ==> session_outcome(s) == Some(Err::<Attached, Seq<char>>(e)),
        s.stage == (SessionStage::<Seq<char>>::Pod { flow: a }) && a.stage == (PodAttachStage::<
            Seq<char>,
        >::Ended { result: Ok((port, lease)) }) ==> session_outcome(s) == Some(
            Ok::<Attached, Seq<char>>((port, lease)),
        ),
        s.stage == (SessionStage::<Seq<char>>::Pod { flow: a }) && a.stage == (PodAttachStage::<
            Seq<char>,
        >::Ended { result: Err(e) }) ==> session_outcome(s) == Some(Err::<Attached, Seq<char>>(e)),
        s.stage is Base ==> session_outcome(s) is None,
{
}

/// An attach in a pod that succeeded says so once: until that was done it is asked for again.
pub proof fn law_success_is_told_once(
    a: PodAttach<Seq<char>>,
    port: u16,
    lease: Option<PfLease>,
    reply: Reply<Seq<char>>,
)
    requires
        a.stage == (PodAttachStage::<Seq<char>>::Ended { result: Ok((port, lease)) }),
        !a.told,
    ensures
        pod_attach_request(a) matches Action::Progress { tool, stage, detail } && tool
            == "arthas_open"@ && stage == "ready"@,
        reply is Done ==> pod_attach_request(pod_attach_after(a, reply)) is Finished,
        reply !is Done ==> pod_attach_after(a, reply) == a,
{
}

} // verus!
