//! The connection as the user that runs the JVM, made for one attach.

use vstd::prelude::*;

use crate::exec::ssh::SshAuth;
use crate::flow;
use crate::flow::{Action, Reply};
use crate::text;

verus! {

/// Where the making of the connection stands.
#[derive(Debug, PartialEq, Eq)]
pub enum TempStage<S> {
    /// Read the environment.
    Environment,
    /// How does the credential prove who the user is?
    Auth,
    /// Read its secret.
    Secret { auth: SshAuth },
    /// Connect.
    Connect,
    /// It is over.
    Ended { result: Result<(), S> },
}

/// The making of the connection.
#[derive(Debug, PartialEq, Eq)]
pub struct Temp<S> {
    pub username: S,
    pub credential: S,
    pub stage: TempStage<S>,
}

impl View for TempStage<String> {
    type V = TempStage<Seq<char>>;

    open spec fn view(&self) -> TempStage<Seq<char>> {
        match *self {
            TempStage::Environment => TempStage::Environment,
            TempStage::Auth => TempStage::Auth,
            TempStage::Secret { auth } => TempStage::Secret { auth },
            TempStage::Connect => TempStage::Connect,
            TempStage::Ended { result } => TempStage::Ended { result: flow::view_unit(result) },
        }
    }
}

impl View for Temp<String> {
    type V = Temp<Seq<char>>;

    open spec fn view(&self) -> Temp<Seq<char>> {
        Temp { username: self.username@, credential: self.credential@, stage: self.stage@ }
    }
}

/// The making of the connection before its first step.
pub open spec fn temp_start(username: Seq<char>, credential: Seq<char>) -> Temp<Seq<char>> {
    Temp { username, credential, stage: TempStage::Environment }
}

pub open spec fn environment_failed(e: Seq<char>) -> Seq<char> {
    "环境查询失败: "@ + e
}

fn environment_failed_text(e: &str) -> (r: String)
    ensures
        r@ == environment_failed(e@),
{
    "环境查询失败: ".to_owned().concat(e)
}

pub open spec fn auth_invalid(user: Seq<char>) -> Seq<char> {
    "用户 "@ + user + " 的认证配置无效"@
}

fn auth_invalid_text(user: &str) -> (r: String)
    ensures
        r@ == auth_invalid(user@),
{
    "用户 ".to_owned().concat(user).concat(" 的认证配置无效")
}

pub open spec fn secret_failed(user: Seq<char>, e: Seq<char>) -> Seq<char> {
    "读取用户 "@ + user + " 密钥失败: "@ + e
}

fn secret_failed_text(user: &str, e: &str) -> (r: String)
    ensures
        r@ == secret_failed(user@, e@),
{
    "读取用户 ".to_owned().concat(user).concat(" 密钥失败: ").concat(e)
}

pub open spec fn no_password(user: Seq<char>) -> Seq<char> {
    "用户 "@ + user + " 的凭证未存储密码，请在环境管理中补录该用户的密码后重试"@
}

fn no_password_text(user: &str) -> (r: String)
    ensures
        r@ == no_password(user@),
{
    "用户 ".to_owned().concat(user).concat(" 的凭证未存储密码，请在环境管理中补录该用户的密码后重试")
}

pub open spec fn connect_failed(user: Seq<char>, e: Seq<char>) -> Seq<char> {
    "以用户 "@ + user + " 建立连接失败: "@ + e
}

fn connect_failed_text(user: &str, e: &str) -> (r: String)
    ensures
        r@ == connect_failed(user@, e@),
{
    "以用户 ".to_owned().concat(user).concat(" 建立连接失败: ").concat(e)
}

/// What the making of the connection asks for where it stands.
pub open spec fn temp_request(t: Temp<Seq<char>>) -> Action<Seq<char>> {
    match t.stage {
        TempStage::Environment => Action::LoadEnvironment,
        TempStage::Auth => Action::ParseAuth { credential: t.credential },
        TempStage::Secret { auth } => Action::LoadSecret { credential: t.credential },
        TempStage::Connect => Action::ConnectTemporary { username: t.username },
        TempStage::Ended { result } => Action::Finished,
    }
}

/// Whether a secret is there that can be a password.
pub open spec fn has_password(secret: Option<Seq<char>>) -> bool {
    match secret {
        Some(s) => text::trimmed(s).len() > 0,
        None => false,
    }
}

/// The stage that the making of the connection reaches by a reply. Where the secret cannot be
/// read the reply is a text that says why; otherwise it is the secret, where there is one.
pub open spec fn temp_next(t: Temp<Seq<char>>, reply: Reply<Seq<char>>) -> TempStage<Seq<char>> {
    match (t.stage, reply) {
        (TempStage::Environment, Reply::Done { done: Ok(_), late }) => TempStage::Auth,
        (TempStage::Environment, Reply::Done { done: Err(e), late }) => TempStage::Ended {
            result: Err(environment_failed(e)),
        },
        (TempStage::Auth, Reply::Auth { auth: Some(auth) }) => TempStage::Secret { auth },
        (TempStage::Auth, Reply::Auth { auth: None }) => TempStage::Ended {
            result: Err(auth_invalid(t.username)),
        },
        (TempStage::Secret { auth }, Reply::Text { text: Err(e) }) => TempStage::Ended {
            result: Err(secret_failed(t.username, e)),
        },
        (TempStage::Secret { auth }, Reply::Maybe { maybe }) => if auth == SshAuth::Password
            && !has_password(maybe) {
            TempStage::Ended { result: Err(no_password(t.username)) }
        } else {
            TempStage::Connect
        },
        (TempStage::Connect, Reply::Done { done: Ok(_), late }) => TempStage::Ended {
            result: Ok(()),
        },
        (TempStage::Connect, Reply::Done { done: Err(e), late }) => TempStage::Ended {
            result: Err(connect_failed(t.username, e)),
        },
        (stage, _) => stage,
    }
}

/// The making of the connection after a reply.
pub open spec fn temp_after(t: Temp<Seq<char>>, reply: Reply<Seq<char>>) -> Temp<Seq<char>> {
    Temp { stage: temp_next(t, reply), ..t }
}

/// Begins to connect as the user of a credential.
pub fn build_temp_transport(username: &str, credential: &str) -> (r: Temp<String>)
    ensures
        r@ == temp_start(username@, credential@),
{
    Temp {
        username: username.to_owned(),
        credential: credential.to_owned(),
        stage: TempStage::Environment,
    }
}

impl Temp<String> {
    /// What is asked for.
    pub fn request(&self) -> (r: Action<String>)
        ensures
            r@ == temp_request(self@),
    {
        match &self.stage {
            TempStage::Environment => Action::LoadEnvironment,
            TempStage::Auth => Action::ParseAuth { credential: self.credential.clone() },
            TempStage::Secret { auth: _ } => Action::LoadSecret {
                credential: self.credential.clone(),
            },
            TempStage::Connect => Action::ConnectTemporary { username: self.username.clone() },
            TempStage::Ended { result: _ } => Action::Finished,
        }
    }

    fn password_there(secret: &Option<String>) -> (r: bool)
        ensures
            r == has_password(text::opt(*secret)),
    {
        match secret {
            Some(s) => !text::trim(s.as_str()).as_str().is_empty(),
            None => false,
        }
    }

    /// Takes the reply to what was asked for.
    pub fn step(&mut self, reply: Reply<String>)
        ensures
            final(self)@ == temp_after(old(self)@, reply@),
    {
        let user: &str = self.username.as_str();
        let next: Option<TempStage<String>> = match (&self.stage, reply) {
            (TempStage::Environment, Reply::Done { done: Ok(_), late: _ }) => Some(
                TempStage::Auth,
            ),
            (TempStage::Environment, Reply::Done { done: Err(e), late: _ }) => Some(
                TempStage::Ended { result: Err(environment_failed_text(e.as_str())) },
            ),
            (TempStage::Auth, Reply::Auth { auth: Some(auth) }) => Some(
                TempStage::Secret { auth },
            ),
            (TempStage::Auth, Reply::Auth { auth: None }) => Some(
                TempStage::Ended { result: Err(auth_invalid_text(user)) },
            ),
            (TempStage::Secret { auth: _ }, Reply::Text { text: Err(e) }) => Some(
                TempStage::Ended { result: Err(secret_failed_text(user, e.as_str())) },
            ),
            (TempStage::Secret { auth }, Reply::Maybe { maybe }) => if *auth == SshAuth::Password
                && !Self::password_there(&maybe) {
                Some(TempStage::Ended { result: Err(no_password_text(user)) })
            } else {
                Some(TempStage::Connect)
            },
            (TempStage::Connect, Reply::Done { done: Ok(_), late: _ }) => Some(
                TempStage::Ended { result: Ok(()) },
            ),
            (TempStage::Connect, Reply::Done { done: Err(e), late: _ }) => Some(
                TempStage::Ended { result: Err(connect_failed_text(user, e.as_str())) },
            ),
            _ => None,
        };
        if let Some(stage) = next {
            self.stage = stage;
        }
    }
}

/// A password that is missing or blank is never tried: no connection is asked for.
pub proof fn law_blank_password_is_refused(t: Temp<Seq<char>>, secret: Option<Seq<char>>)
    requires
        t.stage == (TempStage::<Seq<char>>::Secret { auth: SshAuth::Password }),
        !has_password(secret),
    ensures
        temp_after(t, Reply::Maybe { maybe: secret }).stage == (TempStage::<Seq<char>>::Ended {
            result: Err(no_password(t.username)),
        }),
{
}

/// A key without a pass phrase is tried.
pub proof fn law_key_needs_no_secret(t: Temp<Seq<char>>, secret: Option<Seq<char>>)
    requires
        t.stage == (TempStage::<Seq<char>>::Secret { auth: SshAuth::PrivateKey }),
    ensures
        temp_after(t, Reply::Maybe { maybe: secret }).stage is Connect,
{
}

/// The way to a connection of its own: the environment is read, the credential says how to log in, its
/// secret is read, and the connection is made as its user. What fails is said with the user and the
/// reason.
pub proof fn law_way_of_a_temporary_connection(
    t: Temp<Seq<char>>,
    auth: SshAuth,
    secret: Seq<char>,
    e: Seq<char>,
    late: bool,
)
    ensures
        t.stage is Environment ==> {
            &&& temp_request(t) is LoadEnvironment
            &&& temp_next(t, Reply::Done { done: Ok(()), late }) is Auth
            &&& fails(temp_next(t, Reply::Done { done: Err(e), late }), e)
        },
        t.stage is Auth ==> {
            &&& temp_request(t) == (Action::<Seq<char>>::ParseAuth { credential: t.credential })
            &&& temp_next(t, Reply::Auth { auth: Some(auth) }) == (TempStage::<Seq<char>>::Secret {
                auth,
            })
            &&& fails(temp_next(t, Reply::Auth { auth: None }), t.username)
        },
        t.stage == (TempStage::<Seq<char>>::Secret { auth }) ==> {
            &&& temp_request(t) == (Action::<Seq<char>>::LoadSecret { credential: t.credential })
            &&& text::trimmed(secret).len() > 0 ==> temp_next(t, Reply::Maybe { maybe: Some(secret) })
                is Connect
            &&& auth is PrivateKey ==> temp_next(t, Reply::Maybe { maybe: None }) is Connect
            &&& auth is Password ==> fails(temp_next(t, Reply::Maybe { maybe: None }), t.username)
            &&& fails(temp_next(t, Reply::Text { text: Err(e) }), e)
            &&& fails(temp_next(t, Reply::Text { text: Err(e) }), t.username)
        },
        t.stage is Connect ==> {
            &&& temp_request(t) == (Action::<Seq<char>>::ConnectTemporary { username: t.username })
            &&& temp_next(t, Reply::Done { done: Ok(()), late }) == (TempStage::<Seq<char>>::Ended {
                result: Ok(()),
            })
            &&& fails(temp_next(t, Reply::Done { done: Err(e), late }), e)
            &&& fails(temp_next(t, Reply::Done { done: Err(e), late }), t.username)
        },
{
    let u = t.username;
    text::lemma_part("环境查询失败: "@, e);
    text::lemma_contains("用户 "@, u, " 的认证配置无效"@);
    text::lemma_contains("用户 "@, u, " 的凭证未存储密码，请在环境管理中补录该用户的密码后重试"@);
    text::lemma_contains("读取用户 "@, u, " 密钥失败: "@);
    text::lemma_part_kept("读取用户 "@ + u + " 密钥失败: "@, u, e);
    text::lemma_part("读取用户 "@ + u + " 密钥失败: "@, e);
    text::lemma_contains("以用户 "@, u, " 建立连接失败: "@);
    text::lemma_part_kept("以用户 "@ + u + " 建立连接失败: "@, u, e);
    text::lemma_part("以用户 "@ + u + " 建立连接失败: "@, e);
}

/// Whether the making of the connection ended in an error that holds a text.
pub open spec fn fails(stage: TempStage<Seq<char>>, part: Seq<char>) -> bool {
    stage matches TempStage::Ended { result: Err(m) } && text::contains(m, part)
}

/// A login that is over asks for nothing more and stays as it is.
pub proof fn law_login_end_is_final(t: Temp<Seq<char>>, reply: Reply<Seq<char>>)
    requires
        t.stage is Ended,
    ensures
        temp_request(t) is Finished,
        temp_after(t, reply).stage == t.stage,
{
}

/// A secret of white space alone is no password, and neither is none; any other is one.
pub proof fn law_blank_secret_is_no_password(white: Seq<char>, core: Seq<char>)
    requires
        forall|i: int| 0 <= i < white.len() ==> text::is_white(#[trigger] white[i]),
        core.len() > 0,
        !text::is_white(core[0]),
        !text::is_white(core.last()),
    ensures
        !has_password(None),
        !has_password(Some(white)),
        has_password(Some(white + core + white)),
{
    let none = Seq::<char>::empty();
    text::law_trim_gives_the_core(white, none, none);
    assert(white + none + none =~= white);
    text::law_trim_gives_the_core(white, core, white);
}

} // verus!
