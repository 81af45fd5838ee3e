//! Finding the java program that runs the attach.

use vstd::prelude::*;

use crate::exec::k8s;
use crate::flow;
use crate::flow::{Action, Output, Reply, Site};
use crate::provision::arthas::REMOTE_TOOLS_DIR;
use crate::text;

verus! {

/// How long the look at the search path may take, in seconds.
pub const PATH_COMMAND_SECS: u64 = 15;

/// Where the search stands.
#[derive(Debug, PartialEq, Eq)]
pub enum JavaStage<S> {
    /// Is a JDK known to be at the target?
    Cached,
    /// Is a java on the search path?
    OnPath,
    /// Can this path name a program?
    Check { java: S },
    /// Where are tools served from?
    Settings,
    /// Bring a JDK.
    Ensure { base_url: S },
    /// Remember it.
    Remember { home: S },
    /// It is over.
    Ended { result: Result<S, S> },
}

/// The search for a java program.
#[derive(Debug, PartialEq, Eq)]
pub struct Java<S> {
    /// Whether the target is a pod.
    pub in_pod: bool,
    pub java_bin: S,
    pub stage: JavaStage<S>,
}

impl View for JavaStage<String> {
    type V = JavaStage<Seq<char>>;

    open spec fn view(&self) -> JavaStage<Seq<char>> {
        match *self {
            JavaStage::Cached => JavaStage::Cached,
            JavaStage::OnPath => JavaStage::OnPath,
            JavaStage::Check { java } => JavaStage::Check { java: java@ },
            JavaStage::Settings => JavaStage::Settings,
            JavaStage::Ensure { base_url } => JavaStage::Ensure { base_url: base_url@ },
            JavaStage::Remember { home } => JavaStage::Remember { home: home@ },
            JavaStage::Ended { result } => JavaStage::Ended { result: flow::view_text(result) },
        }
    }
}

impl View for Java<String> {
    type V = Java<Seq<char>>;

    open spec fn view(&self) -> Java<Seq<char>> {
        Java { in_pod: self.in_pod, java_bin: self.java_bin@, stage: self.stage@ }
    }
}

/// The search before its first step.
pub open spec fn java_start(in_pod: bool, java_bin: Seq<char>) -> Java<Seq<char>> {
    Java { in_pod, java_bin, stage: JavaStage::Cached }
}

/// The directory for tools at the target.
pub open spec fn tools_dir(in_pod: bool) -> Seq<char> {
    if in_pod {
        k8s::POD_TOOLS_DIR@
    } else {
        REMOTE_TOOLS_DIR@
    }
}

/// The java program of a JDK.
pub open spec fn java_in(home: Seq<char>) -> Seq<char> {
    home + "/bin/java"@
}

/// The java program of a JDK.
fn java_in_text(home: &str) -> (r: String)
    ensures
        r@ == java_in(home@),
{
    home.to_owned().concat("/bin/java")
}

pub open spec fn settings_failed(e: Seq<char>) -> Seq<char> {
    "读取 Artifactory 设置失败: "@ + e
}

fn settings_failed_text(e: &str) -> (r: String)
    ensures
        r@ == settings_failed(e@),
{
    "读取 Artifactory 设置失败: ".to_owned().concat(e)
}

pub open spec fn no_java(message: Seq<char>) -> Seq<char> {
    "目标机找不到可用的 java（"@ + message
        + "）。可用 run_command 确认目标服务的 java 路径后，用 java_bin 参数重试 arthas_open"@
}

fn no_java_text(message: &str) -> (r: String)
    ensures
        r@ == no_java(message@),
{
    "目标机找不到可用的 java（".to_owned()
        .concat(message)
        .concat("）。可用 run_command 确认目标服务的 java 路径后，用 java_bin 参数重试 arthas_open")
}

/// The address that tools are served from, or why the work cannot go on.
pub open spec fn settings_of(text: Result<Seq<char>, Seq<char>>) -> Result<Seq<char>, Seq<char>> {
    match text {
        Err(e) => Err(settings_failed(e)),
        Ok(url) => if text::trimmed(url).len() == 0 {
            Err("Artifactory 地址未配置，请在设置中配置后重试"@)
        } else {
            Ok(url)
        },
    }
}

/// The address that tools are served from, or why the work cannot go on.
pub fn check_settings(answer: Result<String, String>) -> (r: Result<String, String>)
    ensures
        flow::view_text(r) == settings_of(flow::view_text(answer)),
{
    match answer {
        Err(e) => Err(settings_failed_text(e.as_str())),
        Ok(url) => if text::trim(url.as_str()).as_str().is_empty() {
            Err("Artifactory 地址未配置，请在设置中配置后重试".to_owned())
        } else {
            Ok(url)
        },
    }
}

/// What the search asks for where it stands.
pub open spec fn java_request(j: Java<Seq<char>>) -> Action<Seq<char>> {
    match j.stage {
        JavaStage::Cached => Action::CachedJdk,
        JavaStage::OnPath => Action::Run {
            site: Site::Target,
            cmd: "command -v java"@,
            secs: Some(PATH_COMMAND_SECS),
        },
        JavaStage::Check { java } => Action::CheckJava { path: java },
        JavaStage::Settings => Action::BaseUrl,
        JavaStage::Ensure { base_url } => Action::EnsureJdk {
            dir: tools_dir(j.in_pod),
            base_url,
            java_bin: j.java_bin,
        },
        JavaStage::Remember { home } => Action::RememberJdk { home },
        JavaStage::Ended { result } => Action::Finished,
    }
}

/// Where the look at the search path leads.
pub open spec fn after_path(result: Result<Output<Seq<char>>, Seq<char>>) -> JavaStage<Seq<char>> {
    match result {
        Ok(out) => if out.exit_code == 0 && text::trimmed(out.stdout).len() > 0 {
            JavaStage::Check { java: text::trimmed(out.stdout) }
        } else {
            JavaStage::Settings
        },
        Err(_) => JavaStage::Settings,
    }
}

/// The stage that the search reaches by a reply.
pub open spec fn java_next(j: Java<Seq<char>>, reply: Reply<Seq<char>>) -> JavaStage<Seq<char>> {
    match j.stage {
        JavaStage::Cached => match reply {
            Reply::Maybe { maybe: Some(home) } => JavaStage::Ended { result: Ok(java_in(home)) },
            Reply::Maybe { maybe: None } => JavaStage::OnPath,
            _ => j.stage,
        },
        JavaStage::OnPath => match flow::limited(reply, "command -v java"@, PATH_COMMAND_SECS) {
            Some(result) => after_path(result),
            None => j.stage,
        },
        JavaStage::Check { java } => match reply {
            Reply::Done { done: Ok(_), late } => JavaStage::Ended { result: Ok(java) },
            Reply::Done { done: Err(_), late } => JavaStage::Settings,
            _ => j.stage,
        },
        JavaStage::Settings => match reply {
            Reply::Text { text } => match settings_of(text) {
                Ok(base_url) => JavaStage::Ensure { base_url },
                Err(e) => JavaStage::Ended { result: Err(e) },
            },
            _ => j.stage,
        },
        JavaStage::Ensure { base_url } => match reply {
            Reply::Text { text: Ok(home) } => JavaStage::Remember { home },
            Reply::Text { text: Err(message) } => JavaStage::Ended {
                result: Err(no_java(message)),
            },
            _ => j.stage,
        },
        JavaStage::Remember { home } => match reply {
            Reply::Done { done, late } => JavaStage::Ended { result: Ok(java_in(home)) },
            _ => j.stage,
        },
        JavaStage::Ended { result } => j.stage,
    }
}

/// The search after a reply.
pub open spec fn java_after(j: Java<Seq<char>>, reply: Reply<Seq<char>>) -> Java<Seq<char>> {
    Java { stage: java_next(j, reply), ..j }
}

/// Begins to look for the java program that runs the attach.
pub fn resolve_attach_java(in_pod: bool, java_bin: &str) -> (r: Java<String>)
    ensures
        r@ == java_start(in_pod, java_bin@),
{
    Java { in_pod, java_bin: java_bin.to_owned(), stage: JavaStage::Cached }
}

impl Java<String> {
    /// What is asked for.
    pub fn request(&self) -> (r: Action<String>)
        ensures
            r@ == java_request(self@),
    {
        match &self.stage {
            JavaStage::Cached => Action::CachedJdk,
            JavaStage::OnPath => Action::Run {
                site: Site::Target,
                cmd: "command -v java".to_owned(),
                secs: Some(PATH_COMMAND_SECS),
            },
            JavaStage::Check { java } => Action::CheckJava { path: java.clone() },
            JavaStage::Settings => Action::BaseUrl,
            JavaStage::Ensure { base_url } => Action::EnsureJdk {
                dir: if self.in_pod {
                    k8s::POD_TOOLS_DIR.to_owned()
                } else {
                    REMOTE_TOOLS_DIR.to_owned()
                },
                base_url: base_url.clone(),
                java_bin: self.java_bin.clone(),
            },
            JavaStage::Remember { home } => Action::RememberJdk { home: home.clone() },
            JavaStage::Ended { result: _ } => Action::Finished,
        }
    }

    fn on_path(result: Result<Output<String>, String>) -> (r: JavaStage<String>)
        ensures
            r@ == after_path(flow::view_result(result)),
    {
        match result {
            Ok(out) => {
                let java: String = text::trim(out.stdout.as_str());
                if out.exit_code == 0 && !java.as_str().is_empty() {
                    JavaStage::Check { java }
                } else {
                    JavaStage::Settings
                }
            },
            Err(_) => JavaStage::Settings,
        }
    }

    /// Takes the reply to what was asked for.
    pub fn step(&mut self, reply: Reply<String>)
        ensures
            final(self)@ == java_after(old(self)@, reply@),
    {
        let next: Option<JavaStage<String>> = match &self.stage {
            JavaStage::Cached => match reply {
                Reply::Maybe { maybe: Some(home) } => Some(
                    JavaStage::Ended { result: Ok(java_in_text(home.as_str())) },
                ),
                Reply::Maybe { maybe: None } => Some(JavaStage::OnPath),
                _ => None,
            },
            JavaStage::OnPath => match flow::take_limited(
                reply,
                "command -v java",
                PATH_COMMAND_SECS,
            ) {
                Some(result) => Some(Self::on_path(result)),
                None => None,
            },
            JavaStage::Check { java } => match reply {
                Reply::Done { done: Ok(_), late: _ } => Some(
                    JavaStage::Ended { result: Ok(java.clone()) },
                ),
                Reply::Done { done: Err(_), late: _ } => Some(JavaStage::Settings),
                _ => None,
            },
            JavaStage::Settings => match reply {
                Reply::Text { text } => match check_settings(text) {
                    Ok(base_url) => Some(JavaStage::Ensure { base_url }),
                    Err(e) => Some(JavaStage::Ended { result: Err(e) }),
                },
                _ => None,
            },
            JavaStage::Ensure { base_url: _ } => match reply {
                Reply::Text { text: Ok(home) } => Some(JavaStage::Remember { home }),
                Reply::Text { text: Err(message) } => Some(
                    JavaStage::Ended { result: Err(no_java_text(message.as_str())) },
                ),
                _ => None,
            },
            JavaStage::Remember { home } => match reply {
                Reply::Done { done: _, late: _ } => Some(
                    JavaStage::Ended { result: Ok(java_in_text(home.as_str())) },
                ),
                _ => None,
            },
            JavaStage::Ended { result: _ } => None,
        };
        if let Some(stage) = next {
            self.stage = stage;
        }
    }
}

/// A JDK that is known to be at the target is used without a look at anything else.
pub proof fn law_cached_jdk_wins(in_pod: bool, java_bin: Seq<char>, home: Seq<char>)
    ensures
        ({
            let start = java_start(in_pod, java_bin);
            let after = java_after(start, Reply::Maybe { maybe: Some(home) });
            &&& java_request(start) is CachedJdk
            &&& after.stage == (JavaStage::<Seq<char>>::Ended { result: Ok(java_in(home)) })
        }),
{
}

/// The settings are read, and a JDK brought, only where no java on the search path could be used.
pub proof fn law_java_on_path_needs_no_settings(j: Java<Seq<char>>, reply: Reply<Seq<char>>)
    requires
        j.stage is Check,
        reply matches Reply::Done { done: Ok(_), late: _ },
    ensures
        java_request(java_after(j, reply)) is Finished,
        java_after(j, reply).stage == (JavaStage::<Seq<char>>::Ended {
            result: Ok(j.stage->java),
        }),
{
}

/// An ended search stays as it is.
pub proof fn law_java_end_is_final(j: Java<Seq<char>>, reply: Reply<Seq<char>>)
    requires
        j.stage is Ended,
    ensures
        java_after(j, reply) == j,
        java_request(j) is Finished,
{
}

/// The way to a java program: the JDK that is known at the target, else the one on its search path
/// where the path can name a program, else one that is brought there from where tools are served, and
/// remembered. What comes out is the program of exactly that.
pub proof fn law_way_to_a_java(
    j: Java<Seq<char>>,
    home: Seq<char>,
    out: Output<Seq<char>>,
    e: Seq<char>,
    url: Seq<char>,
    late: bool,
)
    ensures
        j.stage is Cached ==> {
            &&& java_request(j) is CachedJdk
            &&& java_next(j, Reply::Maybe { maybe: Some(home) }) == (JavaStage::<Seq<char>>::Ended {
                result: Ok(home + "/bin/java"@),
            })
            &&& java_next(j, Reply::Maybe { maybe: None }) is OnPath
        },
        j.stage is OnPath ==> {
            &&& java_request(j) == (Action::<Seq<char>>::Run {
                site: Site::Target,
                cmd: "command -v java"@,
                secs: Some(15u64),
            })
            &&& out.exit_code == 0 && text::trimmed(out.stdout).len() > 0 ==> java_next(
                j,
                Reply::Ran { ran: Ok(out), late },
            ) == (JavaStage::<Seq<char>>::Check { java: text::trimmed(out.stdout) })
            &&& out.exit_code != 0 || text::trimmed(out.stdout).len() == 0 ==> java_next(
                j,
                Reply::Ran { ran: Ok(out), late },
            ) is Settings
            &&& java_next(j, Reply::Ran { ran: Err(e), late }) is Settings
        },
        j.stage == (JavaStage::<Seq<char>>::Check { java: home }) ==> {
            &&& java_request(j) == (Action::<Seq<char>>::CheckJava { path: home })
            &&& java_next(j, Reply::Done { done: Ok(()), late }) == (JavaStage::<Seq<char>>::Ended {
                result: Ok(home),
            })
            &&& java_next(j, Reply::Done { done: Err(e), late }) is Settings
        },
        j.stage is Settings ==> {
            &&& java_request(j) is BaseUrl
            &&& text::trimmed(url).len() > 0 ==> java_next(j, Reply::Text { text: Ok(url) }) == (
            JavaStage::<Seq<char>>::Ensure { base_url: url })
            &&& text::trimmed(url).len() == 0 ==> (java_next(j, Reply::Text { text: Ok(url) })
                matches JavaStage::Ended { result: Err(_) })
            &&& java_next(j, Reply::Text { text: Err(e) }) matches JavaStage::Ended { result: Err(m) }
                && text::contains(m, e)
        },
        j.stage == (JavaStage::<Seq<char>>::Ensure { base_url: url }) ==> {
            &&& java_request(j) == (Action::<Seq<char>>::EnsureJdk {
                dir: if j.in_pod {
                    "/opt/log/dump/coredump/friday-tools"@
                } else {
                    REMOTE_TOOLS_DIR@
                },
                base_url: url,
                java_bin: j.java_bin,
            })
            &&& java_next(j, Reply::Text { text: Ok(home) }) == (JavaStage::<Seq<char>>::Remember {
                home,
            })
            &&& java_next(j, Reply::Text { text: Err(e) }) matches JavaStage::Ended { result: Err(m) }
                && text::contains(m, e)
        },
        j.stage == (JavaStage::<Seq<char>>::Remember { home }) ==> {
            &&& java_request(j) == (Action::<Seq<char>>::RememberJdk { home })
            &&& java_next(j, Reply::Done { done: Err(e), late }) == (JavaStage::<Seq<char>>::Ended {
                result: Ok(home + "/bin/java"@),
            })
        },
{
    text::lemma_part("读取 Artifactory 设置失败: "@, e);
    text::lemma_contains(
        "目标机找不到可用的 java（"@,
        e,
        "）。可用 run_command 确认目标服务的 java 路径后，用 java_bin 参数重试 arthas_open"@,
    );
}

} // verus!
