//! Ending a session.

use vstd::prelude::*;

use crate::arthas::attach;
use crate::arthas::pod;
use crate::arthas::tunnel;
use crate::arthas::tunnel::{PfLease, Teardown, TeardownStage};
use crate::flow;
use crate::flow::{Action, Output, Reply, Site};
use crate::text;

verus! {

/// How long the stop command may take, in seconds.
pub const STOP_COMMAND_SECS: u64 = 15;

/// Where the end of a session stands.
#[derive(Debug, PartialEq, Eq)]
pub enum StopStage<S> {
    /// End the session of the client.
    Session,
    /// Ask arthas to stop, through the tunnel.
    HttpStop { lease: PfLease },
    /// Get hold of the host.
    Base { lease: PfLease, stopped: bool },
    /// Kill the port-forward and close the tunnel.
    TakeDown { flow: Teardown<S>, stopped: bool },
    /// Close the tunnel alone.
    Close { lease: PfLease, stopped: bool },
    /// Get hold of the target.
    Channel,
    /// Stop arthas by a command.
    Command,
    /// It is over.
    Ended,
}

/// The end of a session.
#[derive(Debug, PartialEq, Eq)]
pub struct Stop<S> {
    pub env_id: S,
    /// The tunnel of the session, where it has one.
    pub pf: Option<PfLease>,
    /// The port that arthas listens on at the target.
    pub remote_port: u16,
    pub token: S,
    pub stage: StopStage<S>,
}

impl View for StopStage<String> {
    type V = StopStage<Seq<char>>;

    open spec fn view(&self) -> StopStage<Seq<char>> {
        match *self {
            StopStage::Session => StopStage::Session,
            StopStage::HttpStop { lease } => StopStage::HttpStop { lease },
            StopStage::Base { lease, stopped } => StopStage::Base { lease, stopped },
            StopStage::TakeDown { flow, stopped } => StopStage::TakeDown { flow: flow@, stopped },
            StopStage::Close { lease, stopped } => StopStage::Close { lease, stopped },
            StopStage::Channel => StopStage::Channel,
            StopStage::Command => StopStage::Command,
            StopStage::Ended => StopStage::Ended,
        }
    }
}

impl View for Stop<String> {
    type V = Stop<Seq<char>>;

    open spec fn view(&self) -> Stop<Seq<char>> {
        Stop {
            env_id: self.env_id@,
            pf: self.pf,
            remote_port: self.remote_port,
            token: self.token@,
            stage: self.stage@,
        }
    }
}

/// What the end of a session asks for where it stands.
pub open spec fn stop_request(s: Stop<Seq<char>>) -> Action<Seq<char>> {
    match s.stage {
        StopStage::Session => Action::Shutdown,
        StopStage::HttpStop { lease } => Action::HttpStop { port: lease.local_port },
        StopStage::Base { lease, stopped } => Action::Acquire { site: Site::Host },
        StopStage::TakeDown { flow, stopped } => tunnel::teardown_request(flow),
        StopStage::Close { lease, stopped } => tunnel::close_action(s.env_id, lease.host_port),
        StopStage::Channel => Action::Acquire { site: Site::Target },
        StopStage::Command => pod::run_at(
            Site::Target,
            attach::stop(s.remote_port, s.token),
            STOP_COMMAND_SECS,
        ),
        StopStage::Ended => Action::Finished,
    }
}

/// What follows the tunnel: nothing where arthas said that it stopped, a command otherwise.
pub open spec fn after_tunnel(stopped: bool) -> StopStage<Seq<char>> {
    if stopped {
        StopStage::Ended
    } else {
        StopStage::Channel
    }
}

/// Where a reply leads.
pub open spec fn stop_next(s: Stop<Seq<char>>, reply: Reply<Seq<char>>) -> StopStage<Seq<char>> {
    match s.stage {
        StopStage::Session => match reply {
            Reply::Done { done, late } => match s.pf {
                Some(lease) => StopStage::HttpStop { lease },
                None => StopStage::Channel,
            },
            _ => s.stage,
        },
        StopStage::HttpStop { lease } => match reply {
            Reply::Done { done, late } => StopStage::Base { lease, stopped: done is Ok },
            _ => s.stage,
        },
        StopStage::Base { lease, stopped } => match reply {
            Reply::Done { done: Ok(_), late } => StopStage::TakeDown {
                flow: Teardown {
                    env_id: s.env_id,
                    stage: TeardownStage::Kill {
                        pid: lease.pf_pid,
                        tunnel: Some(lease.host_port),
                        stopped: false,
                    },
                },
                stopped,
            },
            Reply::Done { done: Err(_), late } => StopStage::Close { lease, stopped },
            _ => s.stage,
        },
        StopStage::TakeDown { flow, stopped } => {
            let next = tunnel::teardown_after(flow, reply);
            if next.stage is Ended {
                after_tunnel(stopped)
            } else {
                StopStage::TakeDown { flow: next, stopped }
            }
        },
        StopStage::Close { lease, stopped } => match reply {
            Reply::Done { done, late } => after_tunnel(stopped),
            _ => s.stage,
        },
        StopStage::Channel => match reply {
            Reply::Done { done: Ok(_), late } => StopStage::Command,
            Reply::Done { done: Err(_), late } => StopStage::Ended,
            _ => s.stage,
        },
        StopStage::Command => match flow::limited(
            reply,
            attach::stop(s.remote_port, s.token),
            STOP_COMMAND_SECS,
        ) {
            Some(_) => StopStage::Ended,
            None => s.stage,
        },
        StopStage::Ended => s.stage,
    }
}

/// The end of a session after a reply.
pub open spec fn stop_after(s: Stop<Seq<char>>, reply: Reply<Seq<char>>) -> Stop<Seq<char>> {
    Stop { stage: stop_next(s, reply), ..s }
}

/// Begins to end a session.
pub fn run_production_stop(env_id: &str, pf: Option<PfLease>, remote_port: u16, token: &str) -> (r:
    Stop<String>)
    ensures
        r@ == (Stop {
            env_id: env_id@,
            pf,
            remote_port,
            token: token@,
            stage: StopStage::<Seq<char>>::Session,
        }),
{
    Stop {
        env_id: env_id.to_owned(),
        pf,
        remote_port,
        token: token.to_owned(),
        stage: StopStage::Session,
    }
}

fn tunnel_done(stopped: bool) -> (r: StopStage<String>)
    ensures
        r@ == after_tunnel(stopped),
{
    if stopped {
        StopStage::Ended
    } else {
        StopStage::Channel
    }
}

impl Stop<String> {
    /// What is asked for.
    pub fn request(&self) -> (r: Action<String>)
        ensures
            r@ == stop_request(self@),
    {
        match &self.stage {
            StopStage::Session => Action::Shutdown,
            StopStage::HttpStop { lease } => Action::HttpStop { port: lease.local_port },
            StopStage::Base { lease: _, stopped: _ } => Action::Acquire { site: Site::Host },
            StopStage::TakeDown { flow, stopped: _ } => flow.request(),
            StopStage::Close { lease, stopped: _ } => Action::CloseTunnel {
                env_id: self.env_id.clone(),
                host: tunnel::TUNNEL_REMOTE_HOST.to_owned(),
                port: lease.host_port,
            },
            StopStage::Channel => Action::Acquire { site: Site::Target },
            StopStage::Command => Action::Run {
                site: Site::Target,
                cmd: attach::stop_command(self.remote_port, self.token.as_str()),
                secs: Some(STOP_COMMAND_SECS),
            },
            StopStage::Ended => Action::Finished,
        }
    }

    /// Takes the reply to what was asked for.
    pub fn step(self, reply: Reply<String>) -> (r: Self)
        ensures
            r@ == stop_after(self@, reply@),
    {
        let stage: StopStage<String> = match self.stage {
            StopStage::Session => match reply {
                Reply::Done { done: _, late: _ } => match self.pf {
                    Some(lease) => StopStage::HttpStop { lease },
                    None => StopStage::Channel,
                },
                _ => StopStage::Session,
            },
            StopStage::HttpStop { lease } => match reply {
                Reply::Done { done, late: _ } => StopStage::Base { lease, stopped: done.is_ok() },
                _ => StopStage::HttpStop { lease },
            },
            StopStage::Base { lease, stopped } => match reply {
                Reply::Done { done: Ok(_), late: _ } => StopStage::TakeDown {
                    flow: tunnel::teardown_pf(
                        self.env_id.as_str(),
                        lease.pf_pid,
                        Some(lease.host_port),
                    ),
                    stopped,
                },
                Reply::Done { done: Err(_), late: _ } => StopStage::Close { lease, stopped },
                _ => StopStage::Base { lease, stopped },
            },
            StopStage::TakeDown { flow, stopped } => {
                let mut f: Teardown<String> = flow;
                f.step(reply);
                match f.stage {
                    TeardownStage::Ended { stopped: _ } => tunnel_done(stopped),
                    _ => StopStage::TakeDown { flow: f, stopped },
                }
            },
            StopStage::Close { lease, stopped } => match reply {
                Reply::Done { done: _, late: _ } => tunnel_done(stopped),
                _ => StopStage::Close { lease, stopped },
            },
            StopStage::Channel => match reply {
                Reply::Done { done: Ok(_), late: _ } => StopStage::Command,
                Reply::Done { done: Err(_), late: _ } => StopStage::Ended,
                _ => StopStage::Channel,
            },
            StopStage::Command => match flow::take_limited(
                reply,
                attach::stop_command(self.remote_port, self.token.as_str()).as_str(),
                STOP_COMMAND_SECS,
            ) {
                Some(_) => StopStage::Ended,
                None => StopStage::Command,
            },
            StopStage::Ended => StopStage::Ended,
        };
        Stop {
            env_id: self.env_id,
            pf: self.pf,
            remote_port: self.remote_port,
            token: self.token,
            stage,
        }
    }
}

/// Every session is ended in one order: the session of the client, then arthas through the
/// tunnel, then the port-forward and the tunnel, then arthas by a command where it was not stopped
/// before. The number of a stage in that order.
pub open spec fn order(stage: StopStage<Seq<char>>) -> nat {
    match stage {
        StopStage::Session => 0,
        StopStage::HttpStop { lease } => 1,
        StopStage::Base { lease, stopped } => 2,
        StopStage::TakeDown { flow, stopped } => 3,
        StopStage::Close { lease, stopped } => 3,
        StopStage::Channel => 4,
        StopStage::Command => 5,
        StopStage::Ended => 6,
    }
}

/// The end of a session never goes back in its order.
pub proof fn law_stop_order(s: Stop<Seq<char>>, reply: Reply<Seq<char>>)
    ensures
        order(stop_after(s, reply).stage) >= order(s.stage),
        stop_after(s, reply).env_id == s.env_id,
        stop_after(s, reply).pf == s.pf,
{
}

/// A session with a tunnel has arthas asked to stop through it before the host is needed at all.
pub proof fn law_stop_tries_tunnel_first(s: Stop<Seq<char>>, lease: PfLease, ended: Reply<Seq<char>>)
    requires
        s.stage is Session,
        s.pf == Some(lease),
        ended is Done,
    ensures
        stop_request(stop_after(s, ended)) == (Action::<Seq<char>>::HttpStop {
            port: lease.local_port,
        }),
{
}

/// Where arthas said that it stopped, no command is sent to the target; where it did not, or there
/// is no tunnel, the target is asked for.
pub proof fn law_stop_falls_back(
    s: Stop<Seq<char>>,
    lease: PfLease,
    answer: Reply<Seq<char>>,
    no_host: Reply<Seq<char>>,
    closed: Reply<Seq<char>>,
)
    requires
        s.stage == (StopStage::<Seq<char>>::HttpStop { lease }),
        answer is Done,
        no_host matches Reply::Done { done: Err(_), late: _ },
        closed is Done,
    ensures
        ({
            let s1 = stop_after(s, answer);
            let s2 = stop_after(s1, no_host);
            let s3 = stop_after(s2, closed);
            &&& stop_request(s2) == tunnel::close_action(s.env_id, lease.host_port)
            &&& (answer matches Reply::Done { done: Ok(_), late: _ }) ==> s3.stage is Ended
            &&& (answer matches Reply::Done { done: Err(_), late: _ }) ==> s3.stage is Channel
        }),
{
}

/// With the host at hand, the port-forward is killed before the tunnel is closed, and both happen
/// whether or not arthas stopped.
pub proof fn law_stop_takes_tunnel_down(
    s: Stop<Seq<char>>,
    lease: PfLease,
    stopped: bool,
    host: Reply<Seq<char>>,
    killed: Reply<Seq<char>>,
    closed: Reply<Seq<char>>,
)
    requires
        s.stage == (StopStage::<Seq<char>>::Base { lease, stopped }),
        host matches Reply::Done { done: Ok(_), late: _ },
        killed is Ran,
        closed is Done,
    ensures
        ({
            let s1 = stop_after(s, host);
            let s2 = stop_after(s1, killed);
            let s3 = stop_after(s2, closed);
            &&& stop_request(s1) == crate::exec::k8s::on_host(tunnel::kill_pf(lease.pf_pid))
            &&& stop_request(s2) == tunnel::close_action(s.env_id, lease.host_port)
            &&& s3.stage == after_tunnel(stopped)
        }),
{
}

/// The end of a session after replies.
pub open spec fn stop_run(s: Stop<Seq<char>>, replies: Seq<Reply<Seq<char>>>) -> Stop<Seq<char>>
    decreases replies.len(),
{
    if replies.len() == 0 {
        s
    } else {
        stop_after(stop_run(s, replies.drop_last()), replies.last())
    }
}

/// Whether something was asked for and answered, among the first replies.
pub open spec fn was_asked(
    s: Stop<Seq<char>>,
    replies: Seq<Reply<Seq<char>>>,
    action: Action<Seq<char>>,
    n: int,
) -> bool {
    exists|j: int|
        0 <= j < n && {
            &&& stop_request(stop_run(s, replies.take(j))) == action
            &&& stop_run(s, replies.take(j)).stage != stop_next(
                stop_run(s, replies.take(j)),
                #[trigger] replies[j],
            )
        }
}

/// What holds between the steps of the end of a session with a tunnel.
pub open spec fn looks_after(
    s: Stop<Seq<char>>,
    replies: Seq<Reply<Seq<char>>>,
    lease: PfLease,
    n: int,
) -> bool {
    let now = stop_run(s, replies.take(n));
    let stop = Action::<Seq<char>>::HttpStop { port: lease.local_port };
    let close = tunnel::close_action(s.env_id, lease.host_port);
    &&& now == (Stop { stage: now.stage, ..s })
    &&& order(now.stage) >= 1 ==> was_asked(s, replies, Action::Shutdown, n)
    &&& order(now.stage) >= 2 ==> was_asked(s, replies, stop, n)
    &&& order(now.stage) >= 4 ==> was_asked(s, replies, close, n)
    &&& match now.stage {
        StopStage::HttpStop { lease: held } => held == lease,
        StopStage::Base { lease: held, stopped } => held == lease,
        StopStage::Close { lease: held, stopped } => held == lease,
        StopStage::TakeDown { flow, stopped } => flow.env_id == s.env_id && match flow.stage {
            TeardownStage::Kill { pid, tunnel, stopped } => pid == lease.pf_pid && tunnel == Some(
                lease.host_port,
            ),
            TeardownStage::Close { host_port, stopped } => host_port == lease.host_port,
            _ => false,
        },
        _ => true,
    }
}

proof fn lemma_asked_stays(
    s: Stop<Seq<char>>,
    replies: Seq<Reply<Seq<char>>>,
    action: Action<Seq<char>>,
    n: int,
)
    requires
        was_asked(s, replies, action, n),
    ensures
        was_asked(s, replies, action, n + 1),
{
    let j = choose|j: int|
        0 <= j < n && {
            &&& stop_request(stop_run(s, replies.take(j))) == action
            &&& stop_run(s, replies.take(j)).stage != stop_next(
                stop_run(s, replies.take(j)),
                #[trigger] replies[j],
            )
        };
    assert(replies[j] == replies[j]);
}

proof fn lemma_stop_run(
    s: Stop<Seq<char>>,
    replies: Seq<Reply<Seq<char>>>,
    lease: PfLease,
    n: int,
)
    requires
        s.stage is Session,
        s.pf == Some(lease),
        0 <= n <= replies.len(),
    ensures
        looks_after(s, replies, lease, n),
    decreases n,
{
    assert(replies.take(0) =~= Seq::empty());
    if n > 0 {
        lemma_stop_run(s, replies, lease, n - 1);
        assert(replies.take(n).drop_last() =~= replies.take(n - 1));
        let before = stop_run(s, replies.take(n - 1));
        let reply = replies[n - 1];
        let after = stop_after(before, reply);
        let stop = Action::<Seq<char>>::HttpStop { port: lease.local_port };
        let close = tunnel::close_action(s.env_id, lease.host_port);
        if order(before.stage) >= 1 {
            lemma_asked_stays(s, replies, Action::Shutdown, n - 1);
        }
        if order(before.stage) >= 2 {
            lemma_asked_stays(s, replies, stop, n - 1);
        }
        if order(before.stage) >= 4 {
            lemma_asked_stays(s, replies, close, n - 1);
        } else if order(after.stage) >= 4 {
            assert(stop_request(before) == close);
            assert(was_asked(s, replies, close, n));
        }
        if before.stage is HttpStop && order(after.stage) >= 2 {
            assert(was_asked(s, replies, stop, n));
        }
        if before.stage is Session && order(after.stage) >= 1 {
            assert(was_asked(s, replies, Action::Shutdown, n));
        }
    }
}

/// Over a whole run: when the end of a session with a tunnel is over, the client was shut down,
/// arthas was asked to stop through the tunnel, and the tunnel was closed, whatever else failed.
pub proof fn law_ended_session_is_torn_down(
    s: Stop<Seq<char>>,
    replies: Seq<Reply<Seq<char>>>,
    lease: PfLease,
)
    requires
        s.stage is Session,
        s.pf == Some(lease),
        stop_run(s, replies).stage is Ended,
    ensures
        was_asked(s, replies, Action::Shutdown, replies.len() as int),
        was_asked(
            s,
            replies,
            Action::HttpStop { port: lease.local_port },
            replies.len() as int,
        ),
        was_asked(
            s,
            replies,
            tunnel::close_action(s.env_id, lease.host_port),
            replies.len() as int,
        ),
{
    lemma_stop_run(s, replies, lease, replies.len() as int);
    assert(replies.take(replies.len() as int) =~= replies);
}

/// A session that goes over a tunnel is ended through the tunnel: arthas is asked at its local port, its
/// port-forward is killed over a channel to the host, and the tunnel is closed; the command at the target
/// is only tried where arthas did not say that it stopped. A session without a tunnel is ended by the
/// command at once, at the port and with the token of the session.
pub proof fn law_stop_steps(
    s: Stop<Seq<char>>,
    lease: PfLease,
    done: Result<(), Seq<char>>,
    e: Seq<char>,
    stopped: bool,
    out: Output<Seq<char>>,
    late: bool,
)
    ensures
        s.stage is Session ==> {
            &&& stop_request(s) is Shutdown
            &&& stop_next(s, Reply::Done { done, late }) == (match s.pf {
                Some(l) => StopStage::<Seq<char>>::HttpStop { lease: l },
                None => StopStage::Channel,
            })
        },
        s.stage == (StopStage::<Seq<char>>::HttpStop { lease }) ==> {
            &&& stop_request(s) == (Action::<Seq<char>>::HttpStop { port: lease.local_port })
            &&& stop_next(s, Reply::Done { done, late }) == (StopStage::<Seq<char>>::Base {
                lease,
                stopped: done is Ok,
            })
        },
        s.stage == (StopStage::<Seq<char>>::Base { lease, stopped }) ==> {
            let down = Stop { stage: stop_next(s, Reply::Done { done: Ok(()), late }), ..s };
            let shut = Stop { stage: stop_next(s, Reply::Done { done: Err(e), late }), ..s };
            &&& stop_request(s) == (Action::<Seq<char>>::Acquire { site: Site::Host })
            &&& stop_request(down) == (Action::<Seq<char>>::Run {
                site: Site::Host,
                cmd: "kill "@ + text::dec(lease.pf_pid as nat) + " 2>/dev/null || true"@,
                secs: None,
            })
            &&& stop_request(shut) == (Action::<Seq<char>>::CloseTunnel {
                env_id: s.env_id,
                host: "127.0.0.1"@,
                port: lease.host_port,
            })
            &&& stopped ==> stop_next(shut, Reply::Done { done, late }) is Ended
            &&& !stopped ==> stop_next(shut, Reply::Done { done, late }) is Channel
        },
        s.stage is Channel ==> {
            &&& stop_request(s) == (Action::<Seq<char>>::Acquire { site: Site::Target })
            &&& stop_next(s, Reply::Done { done: Ok(()), late }) is Command
            &&& stop_next(s, Reply::Done { done: Err(e), late }) is Ended
        },
        s.stage is Command ==> {
            &&& stop_request(s) == (Action::<Seq<char>>::Run {
                site: Site::Target,
                cmd: attach::stop(s.remote_port, s.token),
                secs: Some(STOP_COMMAND_SECS),
            })
            &&& stop_next(s, Reply::Ran { ran: Ok(out), late }) is Ended
            &&& stop_next(s, Reply::Ran { ran: Err(e), late }) is Ended
            &&& stop_next(s, Reply::TimedOut) is Ended
        },
{
}

/// The end of a session that is over asks for nothing more and stays as it is.
pub proof fn law_stop_end_is_final(s: Stop<Seq<char>>, reply: Reply<Seq<char>>)
    requires
        s.stage is Ended,
    ensures
        stop_request(s) is Finished,
        stop_after(s, reply) == s,
{
}

} // verus!
