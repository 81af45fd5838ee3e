//! The pool of connections: one for each target, reused until it has been idle for too long.

use vstd::prelude::*;

use crate::exec::k8s;
use crate::exec::k8s::K8sChannel;
use crate::exec::ssh;
use crate::exec::ssh::SshAuth;
use crate::text;

verus! {

// ---------------------------------------------------------------------------------------------
// Errors
// ---------------------------------------------------------------------------------------------

/// Why there is no connection.
#[derive(Debug, PartialEq, Eq)]
pub enum PoolError {
    /// The environment is not known.
    EnvironmentNotFound { env_id: String },
    /// The connection could not be made.
    Connection(String),
    /// The environment is not set up for a connection.
    TransportNotImplemented(String),
}

/// The model of [`PoolError`].
pub enum Fault {
    EnvironmentNotFound { env_id: Seq<char> },
    Connection { reason: Seq<char> },
    TransportNotImplemented { detail: Seq<char> },
}

impl View for PoolError {
    type V = Fault;

    open spec fn view(&self) -> Fault {
        match *self {
            PoolError::EnvironmentNotFound { env_id } => Fault::EnvironmentNotFound {
                env_id: env_id@,
            },
            PoolError::Connection(reason) => Fault::Connection { reason: reason@ },
            PoolError::TransportNotImplemented(detail) => Fault::TransportNotImplemented {
                detail: detail@,
            },
        }
    }
}

pub open spec fn unknown_environment(env_id: Seq<char>) -> Seq<char> {
    "environment "@ + env_id + " not found"@
}

fn unknown_environment_text(env_id: &str) -> (r: String)
    ensures
        r@ == unknown_environment(env_id@),
{
    "environment ".to_owned().concat(env_id).concat(" not found")
}

pub open spec fn connection_error(reason: Seq<char>) -> Seq<char> {
    "connection error: "@ + reason
}

fn connection_error_text(reason: &str) -> (r: String)
    ensures
        r@ == connection_error(reason@),
{
    "connection error: ".to_owned().concat(reason)
}

pub open spec fn not_implemented(detail: Seq<char>) -> Seq<char> {
    "transport not implemented: "@ + detail
}

fn not_implemented_text(detail: &str) -> (r: String)
    ensures
        r@ == not_implemented(detail@),
{
    "transport not implemented: ".to_owned().concat(detail)
}

pub open spec fn invalid_auth(environment_id: Seq<char>) -> Seq<char> {
    "invalid auth config for environment "@ + environment_id
}

fn invalid_auth_text(environment_id: &str) -> (r: String)
    ensures
        r@ == invalid_auth(environment_id@),
{
    "invalid auth config for environment ".to_owned().concat(environment_id)
}

/// An error in words.
pub open spec fn described(e: Fault) -> Seq<char> {
    match e {
        Fault::EnvironmentNotFound { env_id } => unknown_environment(env_id),
        Fault::Connection { reason } => connection_error(reason),
        Fault::TransportNotImplemented { detail } => not_implemented(detail),
    }
}

impl PoolError {
    /// The error in words.
    pub fn describe(&self) -> (r: String)
        ensures
            r@ == described(self@),
    {
        match self {
            PoolError::EnvironmentNotFound { env_id } => unknown_environment_text(env_id.as_str()),
            PoolError::Connection(reason) => connection_error_text(reason.as_str()),
            PoolError::TransportNotImplemented(detail) => not_implemented_text(detail.as_str()),
        }
    }
}

// ---------------------------------------------------------------------------------------------
// Targets
// ---------------------------------------------------------------------------------------------

/// What a connection leads to: a host, or a container on it.
#[derive(Clone, Debug, PartialEq, Eq, Hash)]
pub struct TargetKey {
    pub env_id: String,
    pub pod: Option<String>,
    /// The namespace of the pod; the one that kubectl is set to where there is none.
    pub namespace: Option<String>,
    pub container: Option<String>,
}

/// The model of [`TargetKey`].
pub struct Target {
    pub env_id: Seq<char>,
    pub pod: Option<Seq<char>>,
    pub namespace: Option<Seq<char>>,
    pub container: Option<Seq<char>>,
}

impl View for TargetKey {
    type V = Target;

    open spec fn view(&self) -> Target {
        Target {
            env_id: self.env_id@,
            pod: text::opt(self.pod),
            namespace: text::opt(self.namespace),
            container: text::opt(self.container),
        }
    }
}

/// The host of an environment as a target.
pub open spec fn base_target(env_id: Seq<char>) -> Target {
    Target { env_id, pod: None, namespace: None, container: None }
}

/// The target that arguments name, where an empty text names nothing.
pub open spec fn target_of(
    env_id: Seq<char>,
    pod: Option<Seq<char>>,
    container: Option<Seq<char>>,
) -> Target {
    Target {
        env_id,
        pod: text::non_blank(pod),
        namespace: None,
        container: text::non_blank(container),
    }
}

/// The target that arguments name with a namespace, where an empty text names nothing.
pub open spec fn target_in(
    env_id: Seq<char>,
    pod: Option<Seq<char>>,
    namespace: Option<Seq<char>>,
    container: Option<Seq<char>>,
) -> Target {
    Target { namespace: text::non_blank(namespace), ..target_of(env_id, pod, container) }
}

impl TargetKey {
    /// The host of an environment.
    pub fn base(env_id: &str) -> (r: Self)
        ensures
            r@ == base_target(env_id@),
    {
        TargetKey { env_id: env_id.to_owned(), pod: None, namespace: None, container: None }
    }

    /// A container of a pod.
    pub fn k8s(env_id: &str, pod: &str, container: Option<&str>) -> (r: Self)
        ensures
            r@ == (Target {
                env_id: env_id@,
                pod: Some(pod@),
                namespace: None,
                container: text::opt_str(container),
            }),
    {
        TargetKey {
            env_id: env_id.to_owned(),
            pod: Some(pod.to_owned()),
            namespace: None,
            container: text::own_opt(container),
        }
    }

    /// The target that arguments name, where an empty text names nothing.
    pub fn from_parts(env_id: &str, pod: Option<&str>, container: Option<&str>) -> (r: Self)
        ensures
            r@ == target_of(env_id@, text::opt_str(pod), text::opt_str(container)),
    {
        TargetKey {
            env_id: env_id.to_owned(),
            pod: text::own_opt(text::filter_empty(pod)),
            namespace: None,
            container: text::own_opt(text::filter_empty(container)),
        }
    }

    /// The target in a namespace, where an empty text names none.
    pub fn in_namespace(self, namespace: Option<&str>) -> (r: Self)
        ensures
            r@ == (Target { namespace: text::non_blank(text::opt_str(namespace)), ..self@ }),
    {
        TargetKey { namespace: text::own_opt(text::filter_empty(namespace)), ..self }
    }

    /// Whether two keys name one target.
    pub fn same(&self, other: &TargetKey) -> (r: bool)
        ensures
            r == (self@ == other@),
    {
        text::same(self.env_id.as_str(), other.env_id.as_str()) && text::same_opt(
            &self.pod,
            &other.pod,
        ) && text::same_opt(&self.namespace, &other.namespace) && text::same_opt(&self.container, &other.container)
    }
}

impl From<String> for TargetKey {
    fn from(env_id: String) -> (r: Self) {
        TargetKey { env_id, pod: None, namespace: None, container: None }
    }
}

impl vstd::std_specs::convert::FromSpecImpl<String> for TargetKey {
    open spec fn obeys_from_spec() -> bool {
        true
    }

    open spec fn from_spec(env_id: String) -> TargetKey {
        TargetKey { env_id, pod: None, namespace: None, container: None }
    }
}

/// A target is told by all its parts, where an empty text is no part: two are the same exactly where
/// the environment, the pod, the namespace and the container are the same.
pub proof fn law_target_is_its_parts(a: Target, b: Target)
    requires
        a.pod matches Some(p) ==> p.len() > 0,
        a.namespace matches Some(n) ==> n.len() > 0,
        a.container matches Some(c) ==> c.len() > 0,
        b.pod matches Some(p) ==> p.len() > 0,
        b.namespace matches Some(n) ==> n.len() > 0,
        b.container matches Some(c) ==> c.len() > 0,
    ensures
        target_in(a.env_id, a.pod, a.namespace, a.container) == a,
        target_in(a.env_id, a.pod, a.namespace, a.container) == target_in(
            b.env_id,
            b.pod,
            b.namespace,
            b.container,
        ) <==> a == b,
{
}

/// An error in words names what it is about, and the kinds are told apart.
pub proof fn law_errors_name_their_reason(e: Fault)
    ensures
        e matches Fault::EnvironmentNotFound { env_id } ==> text::contains(described(e), env_id)
            && text::starts(described(e), "environment "@),
        e matches Fault::Connection { reason } ==> text::contains(described(e), reason)
            && text::starts(described(e), "connection error: "@),
        e matches Fault::TransportNotImplemented { detail } ==> text::contains(described(e), detail)
            && text::starts(described(e), "transport not implemented: "@),
{
    match e {
        Fault::EnvironmentNotFound { env_id } => {
            text::lemma_contains("environment "@, env_id, " not found"@);
            text::lemma_start("environment "@, env_id);
            text::lemma_start_kept("environment "@ + env_id, "environment "@, " not found"@);
        },
        Fault::Connection { reason } => {
            text::lemma_part("connection error: "@, reason);
            text::lemma_start("connection error: "@, reason);
        },
        Fault::TransportNotImplemented { detail } => {
            text::lemma_part("transport not implemented: "@, detail);
            text::lemma_start("transport not implemented: "@, detail);
        },
    }
}

/// Texts that are empty name the same target as no texts.
pub proof fn law_empty_parts_name_the_host(env_id: Seq<char>)
    ensures
        target_of(env_id, Some(Seq::<char>::empty()), Some(Seq::<char>::empty())) == base_target(
            env_id,
        ),
        target_of(env_id, None, None) == base_target(env_id),
        target_in(
            env_id,
            Some(Seq::<char>::empty()),
            Some(Seq::<char>::empty()),
            Some(Seq::<char>::empty()),
        ) == base_target(env_id),
{
}

/// Where no namespace is named, the target is the one without a namespace; pods of one name in
/// different namespaces are different targets.
pub proof fn law_namespaces_are_apart(
    env_id: Seq<char>,
    pod: Option<Seq<char>>,
    container: Option<Seq<char>>,
    one: Option<Seq<char>>,
    other: Option<Seq<char>>,
)
    ensures
        target_in(env_id, pod, None, container) == target_of(env_id, pod, container),
        target_in(env_id, pod, one, container) == target_in(env_id, pod, other, container)
            <==> text::non_blank(one) == text::non_blank(other),
{
}

/// A pod is another target than its host, and than any other pod.
pub proof fn law_targets_are_apart(
    env_id: Seq<char>,
    pod: Seq<char>,
    other: Seq<char>,
    container: Option<Seq<char>>,
)
    requires
        pod.len() > 0,
        pod != other,
    ensures
        target_of(env_id, Some(pod), container) != base_target(env_id),
        target_of(env_id, Some(pod), container) != target_of(env_id, Some(other), container),
{
}

// ---------------------------------------------------------------------------------------------
// The pool
// ---------------------------------------------------------------------------------------------

/// A connection of the pool.
pub struct PooledConnection<C> {
    key: TargetKey,
    channel: C,
    /// When it was last asked for, in milliseconds.
    last_used: u64,
}

/// What the pool holds for a target.
pub struct Slot<C> {
    pub channel: C,
    pub last_used: u64,
}

/// The connections, by their targets. `C` is what stands for a connection.
pub struct ExecChannelPool<C> {
    connections: Vec<PooledConnection<C>>,
}

/// Whether there is an entry for a target.
spec fn holds<C>(s: Seq<PooledConnection<C>>, k: Target) -> bool {
    exists|i: int| 0 <= i < s.len() && (#[trigger] s[i]).key@ == k
}

/// The entry for a target.
spec fn held<C>(s: Seq<PooledConnection<C>>, k: Target) -> Slot<C> {
    let i = choose|i: int| 0 <= i < s.len() && (#[trigger] s[i]).key@ == k;
    Slot { channel: s[i].channel, last_used: s[i].last_used }
}

spec fn unique<C>(s: Seq<PooledConnection<C>>) -> bool {
    forall|i: int, j: int|
        0 <= i < s.len() && 0 <= j < s.len() && (#[trigger] s[i]).key@ == (#[trigger] s[j]).key@
            ==> i == j
}

spec fn table<C>(s: Seq<PooledConnection<C>>) -> Map<Target, Slot<C>> {
    Map::new(|k: Target| holds(s, k), |k: Target| held(s, k))
}

proof fn lemma_held<C>(s: Seq<PooledConnection<C>>, i: int)
    requires
        unique(s),
        0 <= i < s.len(),
    ensures
        table(s).contains_key(s[i].key@),
        table(s)[s[i].key@] == (Slot { channel: s[i].channel, last_used: s[i].last_used }),
{
    assert(holds(s, s[i].key@));
}

proof fn lemma_table_len<C>(s: Seq<PooledConnection<C>>)
    requires
        unique(s),
    ensures
        table(s).dom().finite(),
        table(s).dom().len() == s.len(),
{
    let keys = s.map_values(|e: PooledConnection<C>| e.key@);
    assert(keys.no_duplicates());
    keys.unique_seq_to_set();
    assert forall|k: Target| table(s).dom().contains(k) == keys.to_set().contains(k) by {
        if table(s).dom().contains(k) {
            let i = choose|i: int| 0 <= i < s.len() && (#[trigger] s[i]).key@ == k;
            assert(keys[i] == k);
        }
        if keys.to_set().contains(k) {
            let i = choose|i: int| 0 <= i < keys.len() && keys[i] == k;
            assert(s[i].key@ == k);
        }
    }
    assert(table(s).dom() =~= keys.to_set());
}

proof fn lemma_table_remove<C>(s: Seq<PooledConnection<C>>, i: int)
    requires
        unique(s),
        0 <= i < s.len(),
    ensures
        unique(s.remove(i)),
        table(s.remove(i)) == table(s).remove(s[i].key@),
{
    let t = s.remove(i);
    assert forall|a: int, b: int|
        0 <= a < t.len() && 0 <= b < t.len() && (#[trigger] t[a]).key@ == (
        #[trigger] t[b]).key@ implies a == b by {
        let x = if a < i {
            a
        } else {
            a + 1
        };
        let y = if b < i {
            b
        } else {
            b + 1
        };
        assert(s[x].key@ == s[y].key@);
    }
    assert forall|k: Target| table(t).dom().contains(k) == table(s).remove(s[i].key@).dom().contains(k) by {
        if holds(t, k) {
            let a = choose|a: int| 0 <= a < t.len() && (#[trigger] t[a]).key@ == k;
            let x = if a < i {
                a
            } else {
                a + 1
            };
            assert(s[x].key@ == k);
        }
        if holds(s, k) && k != s[i].key@ {
            let x = choose|x: int| 0 <= x < s.len() && (#[trigger] s[x]).key@ == k;
            let a = if x < i {
                x
            } else {
                x - 1
            };
            assert(t[a].key@ == k);
        }
    }
    assert forall|k: Target| #[trigger] table(t).dom().contains(k) implies table(t)[k] == table(s)[k] by {
        let a = choose|a: int| 0 <= a < t.len() && (#[trigger] t[a]).key@ == k;
        let x = if a < i {
            a
        } else {
            a + 1
        };
        lemma_held(t, a);
        lemma_held(s, x);
    }
    assert(table(t) =~= table(s).remove(s[i].key@));
}

proof fn lemma_table_push<C>(s: Seq<PooledConnection<C>>, e: PooledConnection<C>)
    requires
        unique(s),
        !holds(s, e.key@),
    ensures
        unique(s.push(e)),
        table(s.push(e)) == table(s).insert(
            e.key@,
            (Slot { channel: e.channel, last_used: e.last_used }),
        ),
{
    let t = s.push(e);
    assert forall|a: int, b: int|
        0 <= a < t.len() && 0 <= b < t.len() && (#[trigger] t[a]).key@ == (
        #[trigger] t[b]).key@ implies a == b by {
        if a < s.len() && b < s.len() {
            assert(s[a].key@ == s[b].key@);
        } else if a < s.len() {
            assert(s[a].key@ == e.key@);
        } else if b < s.len() {
            assert(s[b].key@ == e.key@);
        }
    }
    let after = table(s).insert(e.key@, (Slot { channel: e.channel, last_used: e.last_used }));
    assert forall|k: Target| table(t).dom().contains(k) == after.dom().contains(k) by {
        if holds(t, k) {
            let a = choose|a: int| 0 <= a < t.len() && (#[trigger] t[a]).key@ == k;
            if a < s.len() {
                assert(s[a].key@ == k);
            }
        }
        if holds(s, k) {
            let a = choose|a: int| 0 <= a < s.len() && (#[trigger] s[a]).key@ == k;
            assert(t[a].key@ == k);
        }
        if k == e.key@ {
            assert(t[s.len() as int].key@ == k);
        }
    }
    assert forall|k: Target| #[trigger] table(t).dom().contains(k) implies table(t)[k] == after[k] by {
        let a = choose|a: int| 0 <= a < t.len() && (#[trigger] t[a]).key@ == k;
        lemma_held(t, a);
        if a < s.len() {
            lemma_held(s, a);
        }
    }
    assert(table(t) =~= after);
}

/// Which connections are to be given up.
#[derive(Clone, Copy)]
enum Which<'a> {
    Idle { now: u64, timeout: u64 },
    Of { env_id: &'a str },
    All,
}

/// Whether a connection has been idle for longer than a time.
pub open spec fn is_idle(last_used: u64, now: u64, timeout: u64) -> bool {
    now - last_used > timeout
}

spec fn picks<C>(which: Which, k: Target, slot: Slot<C>) -> bool {
    match which {
        Which::Idle { now, timeout } => is_idle(slot.last_used, now, timeout),
        Which::Of { env_id } => k.env_id == env_id@,
        Which::All => true,
    }
}

/// What connections that are given up are to a pool: `gone` names each target of `before` that
/// `picked` picks, once, with its connection.
pub open spec fn gives_up<C>(
    gone: Seq<(TargetKey, C)>,
    before: Map<Target, Slot<C>>,
    picked: spec_fn(Target) -> bool,
) -> bool {
    &&& forall|i: int|
        0 <= i < gone.len() ==> {
            &&& before.contains_key((#[trigger] gone[i]).0@)
            &&& picked(gone[i].0@)
            &&& gone[i].1 == before[gone[i].0@].channel
        }
    &&& forall|i: int, j: int|
        0 <= i < gone.len() && 0 <= j < gone.len() && (#[trigger] gone[i]).0@ == (
        #[trigger] gone[j]).0@ ==> i == j
    &&& forall|k: Target| #[trigger]
        before.contains_key(k) && picked(k) ==> exists|i: int|
            0 <= i < gone.len() && (#[trigger] gone[i]).0@ == k
}

/// A connection that was kept for a target is the one that each later use finds, and to use it
/// changes nothing of the other targets.
pub proof fn law_connection_is_reused<C>(
    before: Map<Target, Slot<C>>,
    k: Target,
    other: Target,
    channel: C,
    now: u64,
    later: u64,
)
    requires
        other != k,
    ensures
        ({
            let kept = before.insert(k, Slot { channel, last_used: now });
            let used = kept.insert(k, Slot { channel: kept[k].channel, last_used: later });
            &&& kept.contains_key(k) && kept[k].channel == channel
            &&& used.contains_key(k) && used[k].channel == channel
            &&& used.contains_key(other) == before.contains_key(other)
            &&& before.contains_key(other) ==> used[other] == before[other]
        }),
{
}

/// A connection is idle exactly where more than the time has passed since its last use.
pub proof fn law_idle_means_unused_for_longer(last_used: u64, timeout: u64, waited: u64)
    requires
        last_used + waited <= u64::MAX,
    ensures
        is_idle(last_used, (last_used + waited) as u64, timeout) <==> waited > timeout,
{
}

/// A connection that was used within the time is not taken for idle.
pub proof fn law_used_connection_is_kept(last_used: u64, now: u64, timeout: u64)
    requires
        now <= last_used + timeout,
    ensures
        !is_idle(last_used, now, timeout),
{
}

impl<C> View for ExecChannelPool<C> {
    type V = Map<Target, Slot<C>>;

    closed spec fn view(&self) -> Map<Target, Slot<C>> {
        table(self.connections@)
    }
}

impl<C> ExecChannelPool<C> {
    /// No target has two connections.
    pub closed spec fn wf(&self) -> bool {
        unique(self.connections@)
    }

    /// A pool without connections.
    pub fn new() -> (r: Self)
        ensures
            r.wf(),
            r@ == Map::<Target, Slot<C>>::empty(),
    {
        let r: ExecChannelPool<C> = ExecChannelPool { connections: Vec::new() };
        proof {
            assert(r@ =~= Map::<Target, Slot<C>>::empty());
        }
        r
    }

    fn position(&self, key: &TargetKey) -> (r: Option<usize>)
        requires
            self.wf(),
        ensures
            match r {
                Some(i) => i < self.connections@.len() && self.connections@[i as int].key@ == key@
                    && self@.contains_key(key@) && self@[key@] == (Slot {
                    channel: self.connections@[i as int].channel,
                    last_used: self.connections@[i as int].last_used,
                }),
                None => !self@.contains_key(key@),
            },
    {
        let mut i: usize = 0;
        while i < self.connections.len()
            invariant
                self.wf(),
                i <= self.connections@.len(),
                forall|j: int| 0 <= j < i ==> (#[trigger] self.connections@[j]).key@ != key@,
            decreases self.connections@.len() - i,
        {
            if self.connections[i].key.same(key) {
                proof {
                    lemma_held(self.connections@, i as int);
                }
                return Some(i);
            }
            i = i + 1;
        }
        None
    }

    /// The connection to a target, where there is one. It counts as used now.
    ///
    /// Where there is none, the caller makes one and hands it to [`ExecChannelPool::complete`].
    pub fn get_or_create(
        &mut self,
        environment_id: &str,
        pod: Option<&str>,
        container: Option<&str>,
        now: u64,
    ) -> (r: Option<&C>)
        requires
            old(self).wf(),
        ensures
            final(self).wf(),
            ({
                let k = target_of(environment_id@, text::opt_str(pod), text::opt_str(container));
                if old(self)@.contains_key(k) {
                    &&& r matches Some(c) && *c == old(self)@[k].channel
                    &&& final(self)@ == old(self)@.insert(
                        k,
                        (Slot { channel: old(self)@[k].channel, last_used: now }),
                    )
                } else {
                    &&& r is None
                    &&& final(self)@ == old(self)@
                }
            }),
    {
        let key: TargetKey = TargetKey::from_parts(environment_id, pod, container);
        self.use_target(&key, now)
    }

    /// The connection to the target of a key, where there is one. It counts as used now.
    pub fn use_target(&mut self, key: &TargetKey, now: u64) -> (r: Option<&C>)
        requires
            old(self).wf(),
        ensures
            final(self).wf(),
            if old(self)@.contains_key(key@) {
                &&& r matches Some(c) && *c == old(self)@[key@].channel
                &&& final(self)@ == old(self)@.insert(
                    key@,
                    (Slot { channel: old(self)@[key@].channel, last_used: now }),
                )
            } else {
                &&& r is None
                &&& final(self)@ == old(self)@
            },
    {
        match self.position(key) {
            Some(i) => {
                self.mark(i, now);
                Some(&self.connections[i].channel)
            },
            None => None,
        }
    }

    /// Sets when a connection was last used.
    fn mark(&mut self, i: usize, at: u64)
        requires
            old(self).wf(),
            i < old(self).connections@.len(),
        ensures
            final(self).wf(),
            final(self).connections@.len() == old(self).connections@.len(),
            final(self).connections@[i as int].channel == old(self).connections@[i as int].channel,
            final(self)@ == old(self)@.insert(
                old(self).connections@[i as int].key@,
                (Slot { channel: old(self).connections@[i as int].channel, last_used: at }),
            ),
    {
        let ghost s = self.connections@;
        self.connections[i].last_used = at;
        proof {
            let t = self.connections@;
            let k = s[i as int].key@;
            let after = table(s).insert(
                k,
                (Slot { channel: s[i as int].channel, last_used: at }),
            );
            assert forall|a: int, b: int|
                0 <= a < t.len() && 0 <= b < t.len() && (#[trigger] t[a]).key@ == (
                #[trigger] t[b]).key@ implies a == b by {
                assert(s[a].key@ == s[b].key@);
            }
            assert forall|k: Target| table(t).dom().contains(k) == after.dom().contains(k) by {
                if holds(t, k) {
                    let a = choose|a: int| 0 <= a < t.len() && (#[trigger] t[a]).key@ == k;
                    assert(s[a].key@ == k);
                }
                if holds(s, k) {
                    let a = choose|a: int| 0 <= a < s.len() && (#[trigger] s[a]).key@ == k;
                    assert(t[a].key@ == k);
                }
                if k == s[i as int].key@ {
                    assert(t[i as int].key@ == k);
                }
            }
            assert forall|k: Target| #[trigger] table(t).dom().contains(k) implies table(t)[k]
                == after[k] by {
                let a = choose|a: int| 0 <= a < t.len() && (#[trigger] t[a]).key@ == k;
                lemma_held(t, a);
                lemma_held(s, a);
            }
            assert(table(t) =~= after);
        }
    }

    /// Takes a connection that was made for a target that had none, or why it could not be made.
    pub fn complete(
        &mut self,
        environment_id: &str,
        pod: Option<&str>,
        container: Option<&str>,
        connected: Result<C, PoolError>,
        now: u64,
    ) -> (r: Result<(), PoolError>)
        requires
            old(self).wf(),
        ensures
            final(self).wf(),
            match connected {
                Ok(channel) => r is Ok && final(self)@ == old(self)@.insert(
                    target_of(environment_id@, text::opt_str(pod), text::opt_str(container)),
                    (Slot { channel, last_used: now }),
                ),
                Err(e) => r == Err::<(), PoolError>(e) && final(self)@ == old(self)@,
            },
    {
        self.complete_target(
            TargetKey::from_parts(environment_id, pod, container),
            connected,
            now,
        )
    }

    /// Takes a connection that was made for the target of a key that had none, or why it could not
    /// be made.
    pub fn complete_target(
        &mut self,
        key: TargetKey,
        connected: Result<C, PoolError>,
        now: u64,
    ) -> (r: Result<(), PoolError>)
        requires
            old(self).wf(),
        ensures
            final(self).wf(),
            match connected {
                Ok(channel) => r is Ok && final(self)@ == old(self)@.insert(
                    key@,
                    (Slot { channel, last_used: now }),
                ),
                Err(e) => r == Err::<(), PoolError>(e) && final(self)@ == old(self)@,
            },
    {
        match connected {
            Ok(channel) => {
                self.insert_channel(key, channel, now);
                Ok(())
            },
            Err(e) => Err(e),
        }
    }

    /// Puts a connection into the pool, in the place of any other to its target.
    pub fn insert_channel(&mut self, key: TargetKey, channel: C, now: u64)
        requires
            old(self).wf(),
        ensures
            final(self).wf(),
            final(self)@ == old(self)@.insert(key@, (Slot { channel, last_used: now })),
    {
        let ghost before = self@;
        let _gone: Option<C> = self.disconnect_target(&key);
        let ghost s = self.connections@;
        let ghost e = PooledConnection { key, channel, last_used: now };
        proof {
            assert(!holds(s, key@)) by {
                if holds(s, key@) {
                    assert(self@.contains_key(key@));
                }
            }
            lemma_table_push(s, e);
            assert(before.remove(key@).insert(key@, (Slot { channel, last_used: now }))
                =~= before.insert(key@, (Slot { channel, last_used: now })));
        }
        self.connections.push(PooledConnection { key, channel, last_used: now });
    }

    fn picked(&self, i: usize, which: Which) -> (r: bool)
        requires
            self.wf(),
            i < self.connections@.len(),
        ensures
            r == picks(
                which,
                self.connections@[i as int].key@,
                self@[self.connections@[i as int].key@],
            ),
    {
        proof {
            lemma_held(self.connections@, i as int);
        }
        let e: &PooledConnection<C> = &self.connections[i];
        match which {
            Which::Idle { now, timeout } => now > e.last_used && now - e.last_used > timeout,
            Which::Of { env_id } => text::same(e.key.env_id.as_str(), env_id),
            Which::All => true,
        }
    }

    /// Takes out the connections that are picked.
    fn give_up(&mut self, which: Which) -> (r: Vec<(TargetKey, C)>)
        requires
            old(self).wf(),
        ensures
            final(self).wf(),
            final(self)@ == Map::new(
                |k: Target| old(self)@.contains_key(k) && !picks(which, k, old(self)@[k]),
                |k: Target| old(self)@[k],
            ),
            gives_up(r@, old(self)@, |k: Target| picks(which, k, old(self)@[k])),
    {
        let ghost before = self@;
        let mut gone: Vec<(TargetKey, C)> = Vec::new();
        let mut i: usize = 0;
        while i < self.connections.len()
            invariant
                self.wf(),
                i <= self.connections@.len(),
                forall|j: int|
                    0 <= j < i ==> !picks(
                        which,
                        (#[trigger] self.connections@[j]).key@,
                        before[self.connections@[j].key@],
                    ),
                forall|k: Target| #[trigger]
                    self@.contains_key(k) ==> before.contains_key(k) && self@[k] == before[k],
                forall|k: Target| #[trigger]
                    before.contains_key(k) && !self@.contains_key(k) ==> exists|j: int|
                        0 <= j < gone@.len() && (#[trigger] gone@[j]).0@ == k,
                forall|j: int|
                    0 <= j < gone@.len() ==> {
                        &&& before.contains_key((#[trigger] gone@[j]).0@)
                        &&& !self@.contains_key(gone@[j].0@)
                        &&& picks(which, gone@[j].0@, before[gone@[j].0@])
                        &&& gone@[j].1 == before[gone@[j].0@].channel
                    },
                forall|a: int, b: int|
                    0 <= a < gone@.len() && 0 <= b < gone@.len() && (#[trigger] gone@[a]).0@ == (
                    #[trigger] gone@[b]).0@ ==> a == b,
            decreases self.connections@.len() - i,
        {
            proof {
                lemma_held(self.connections@, i as int);
            }
            if self.picked(i, which) {
                let ghost s = self.connections@;
                let ghost was = self@;
                let ghost list = gone@;
                proof {
                    lemma_table_remove(s, i as int);
                }
                let e: PooledConnection<C> = self.connections.remove(i);
                gone.push((e.key, e.channel));
                proof {
                    assert(self@ == was.remove(e.key@));
                    assert forall|k: Target| #[trigger]
                        before.contains_key(k) && !self@.contains_key(k) implies exists|j: int|
                        0 <= j < gone@.len() && (#[trigger] gone@[j]).0@ == k by {
                        if k == e.key@ {
                            assert(gone@[list.len() as int].0@ == k);
                        } else {
                            assert(!was.contains_key(k));
                            let j = choose|j: int|
                                0 <= j < list.len() && (#[trigger] list[j]).0@ == k;
                            assert(gone@[j].0@ == k);
                        }
                    }
                }
            } else {
                i = i + 1;
            }
        }
        proof {
            assert forall|k: Target| #[trigger] self@.contains_key(k) implies !picks(
                which,
                k,
                before[k],
            ) by {
                let j = choose|j: int|
                    0 <= j < self.connections@.len() && (#[trigger] self.connections@[j]).key@ == k;
                assert(!picks(which, self.connections@[j].key@, before[self.connections@[j].key@]));
            }
            assert(self@ =~= Map::new(
                |k: Target| before.contains_key(k) && !picks(which, k, before[k]),
                |k: Target| before[k],
            ));
        }
        gone
    }

    /// Takes out the connections that have been idle for longer than `idle_timeout` milliseconds,
    /// for the caller to close.
    pub fn cleanup_idle(&mut self, idle_timeout: u64, now: u64) -> (r: Vec<(TargetKey, C)>)
        requires
            old(self).wf(),
        ensures
            final(self).wf(),
            final(self)@ == Map::new(
                |k: Target|
                    old(self)@.contains_key(k) && !is_idle(
                        old(self)@[k].last_used,
                        now,
                        idle_timeout,
                    ),
                |k: Target| old(self)@[k],
            ),
            gives_up(
                r@,
                old(self)@,
                |k: Target| is_idle(old(self)@[k].last_used, now, idle_timeout),
            ),
    {
        let ghost before = self@;
        let r: Vec<(TargetKey, C)> = self.give_up(Which::Idle { now, timeout: idle_timeout });
        proof {
            assert(self@ =~= Map::new(
                |k: Target|
                    before.contains_key(k) && !is_idle(before[k].last_used, now, idle_timeout),
                |k: Target| before[k],
            ));
        }
        r
    }

    /// Takes out every connection of an environment, to its host and to its pods, for the caller
    /// to close.
    pub fn disconnect(&mut self, environment_id: &str) -> (r: Vec<(TargetKey, C)>)
        requires
            old(self).wf(),
        ensures
            final(self).wf(),
            final(self)@ == Map::new(
                |k: Target| old(self)@.contains_key(k) && k.env_id != environment_id@,
                |k: Target| old(self)@[k],
            ),
            gives_up(r@, old(self)@, |k: Target| k.env_id == environment_id@),
    {
        let ghost before = self@;
        let r: Vec<(TargetKey, C)> = self.give_up(Which::Of { env_id: environment_id });
        proof {
            assert(self@ =~= Map::new(
                |k: Target| before.contains_key(k) && k.env_id != environment_id@,
                |k: Target| before[k],
            ));
        }
        r
    }

    /// Takes out the connection to one target, for the caller to close.
    pub fn disconnect_target(&mut self, key: &TargetKey) -> (r: Option<C>)
        requires
            old(self).wf(),
        ensures
            final(self).wf(),
            final(self)@ == old(self)@.remove(key@),
            r == (if old(self)@.contains_key(key@) {
                Some(old(self)@[key@].channel)
            } else {
                None
            }),
    {
        match self.position(key) {
            Some(i) => {
                proof {
                    lemma_table_remove(self.connections@, i as int);
                }
                let e: PooledConnection<C> = self.connections.remove(i);
                Some(e.channel)
            },
            None => {
                proof {
                    assert(self@.remove(key@) =~= self@);
                }
                None
            },
        }
    }

    /// Takes out every connection, for the caller to close.
    pub fn disconnect_all(&mut self) -> (r: Vec<(TargetKey, C)>)
        requires
            old(self).wf(),
        ensures
            final(self).wf(),
            final(self)@ == Map::<Target, Slot<C>>::empty(),
            gives_up(r@, old(self)@, |k: Target| true),
    {
        let r: Vec<(TargetKey, C)> = self.give_up(Which::All);
        proof {
            assert(self@ =~= Map::<Target, Slot<C>>::empty());
        }
        r
    }

    /// How many connections there are.
    pub fn connection_count(&self) -> (r: usize)
        requires
            self.wf(),
        ensures
            self@.dom().finite(),
            r == self@.dom().len(),
    {
        proof {
            lemma_table_len(self.connections@);
        }
        self.connections.len()
    }

    /// Sets when the connection to a target was last used.
    pub fn mark_last_used_for_test(&mut self, key: &TargetKey, at: u64)
        requires
            old(self).wf(),
        ensures
            final(self).wf(),
            final(self)@ == (if old(self)@.contains_key(key@) {
                old(self)@.insert(
                    key@,
                    (Slot { channel: old(self)@[key@].channel, last_used: at }),
                )
            } else {
                old(self)@
            }),
    {
        match self.position(key) {
            Some(i) => {
                self.mark(i, at);
            },
            None => {},
        }
    }

    /// The connection to a target that has one.
    pub fn get_or_create_unchecked_for_test(&self, key: &TargetKey) -> (r: &C)
        requires
            self.wf(),
            self@.contains_key(key@),
        ensures
            *r == self@[key@].channel,
    {
        let i: usize = match self.position(key) {
            Some(i) => i,
            None => 0,
        };
        &self.connections[i].channel
    }
}

impl<C> Default for ExecChannelPool<C> {
    fn default() -> (r: Self)
        ensures
            r.wf(),
            r@ == Map::<Target, Slot<C>>::empty(),
    {
        ExecChannelPool::new()
    }
}

// ---------------------------------------------------------------------------------------------
// Environments, and the connections to them
// ---------------------------------------------------------------------------------------------

/// What is known of an environment.
#[derive(Debug, PartialEq, Eq)]
pub struct EnvironmentInfo {
    /// A hint for whoever looks at the environment; connections do not depend on it.
    pub transport_type: String,
    pub host: Option<String>,
    pub port: Option<u16>,
    pub user: Option<String>,
    pub auth_type: Option<String>,
    pub private_key_path: Option<String>,
    /// The credential that is used unless another is named.
    pub default_cred_id: Option<String>,
}

/// An environment as it is stored, beside its default credential. Where it has none, the columns
/// of the credential are empty.
#[derive(Debug, PartialEq, Eq)]
pub struct EnvironmentRow {
    pub host: Option<String>,
    pub port: Option<i64>,
    pub user: Option<String>,
    pub transport_type: String,
    pub auth_type: Option<String>,
    pub private_key_path: Option<String>,
    pub cred_id: Option<String>,
    pub cred_username: Option<String>,
    pub cred_auth_type: Option<String>,
    pub cred_private_key_path: Option<String>,
}

/// The first of two columns that is filled.
pub open spec fn coalesced(first: Option<String>, second: Option<String>) -> Option<String> {
    if first is Some {
        first
    } else {
        second
    }
}

fn coalesce(first: Option<String>, second: Option<String>) -> (r: Option<String>)
    ensures
        r == coalesced(first, second),
{
    match first {
        Some(s) => Some(s),
        None => second,
    }
}

/// The port that a stored number stands for: its lowest sixteen bits.
pub open spec fn stored_port(port: Option<i64>) -> Option<u16> {
    match port {
        Some(p) => Some((p as int % 0x10000) as u16),
        None => None,
    }
}

fn port_of(port: Option<i64>) -> (r: Option<u16>)
    ensures
        r == stored_port(port),
{
    match port {
        Some(p) => {
            let low: u64 = (p as u64) & 0xffff;
            proof {
                assert((p as u64) & 0xffff == p % 0x10000) by (bit_vector);
            }
            Some(low as u16)
        },
        None => None,
    }
}

/// What is known of an environment, from what was read of it: where its default credential says
/// something of how to log in, that counts.
pub fn fetch_environment(
    environment_id: &str,
    row: Result<Option<EnvironmentRow>, String>,
) -> (r: Result<EnvironmentInfo, PoolError>)
    ensures
        match row {
            Err(e) => r matches Err(f) && f@ == (Fault::Connection { reason: e@ }),
            Ok(None) => r matches Err(f) && f@ == (Fault::EnvironmentNotFound {
                env_id: environment_id@,
            }),
            Ok(Some(row)) => r == Ok::<EnvironmentInfo, PoolError>(
                (EnvironmentInfo {
                    transport_type: row.transport_type,
                    host: row.host,
                    port: stored_port(row.port),
                    user: coalesced(row.cred_username, row.user),
                    auth_type: coalesced(row.cred_auth_type, row.auth_type),
                    private_key_path: coalesced(row.cred_private_key_path, row.private_key_path),
                    default_cred_id: row.cred_id,
                }),
            ),
        },
{
    match row {
        Err(reason) => Err(PoolError::Connection(reason)),
        Ok(None) => Err(PoolError::EnvironmentNotFound { env_id: environment_id.to_owned() }),
        Ok(Some(row)) => Ok(
            EnvironmentInfo {
                transport_type: row.transport_type,
                host: row.host,
                port: port_of(row.port),
                user: coalesce(row.cred_username, row.user),
                auth_type: coalesce(row.cred_auth_type, row.auth_type),
                private_key_path: coalesce(row.cred_private_key_path, row.private_key_path),
                default_cred_id: row.cred_id,
            },
        ),
    }
}

/// A connection over SSH that is to be made.
#[derive(Debug, PartialEq, Eq)]
pub struct SshTransport {
    pub env_id: String,
    pub host: String,
    pub port: u16,
    pub user: String,
    pub auth: SshAuth,
    /// The credential whose secret is used; that of the environment itself where there is none.
    pub cred_id: Option<String>,
}

/// The model of [`SshTransport`].
pub struct Transport {
    pub env_id: Seq<char>,
    pub host: Seq<char>,
    pub port: u16,
    pub user: Seq<char>,
    pub auth: SshAuth,
    pub cred_id: Option<Seq<char>>,
}

impl View for SshTransport {
    type V = Transport;

    open spec fn view(&self) -> Transport {
        Transport {
            env_id: self.env_id@,
            host: self.host@,
            port: self.port,
            user: self.user@,
            auth: self.auth,
            cred_id: text::opt(self.cred_id),
        }
    }
}

impl SshTransport {
    /// The credential whose secret is used.
    pub fn cred_id_as_ref(&self) -> (r: Option<&str>)
        ensures
            text::opt_str(r) == text::opt(self.cred_id),
    {
        text::as_str_opt(&self.cred_id)
    }
}

/// A text, or an empty one where there is none.
pub open spec fn or_empty(s: Option<String>) -> Seq<char> {
    match s {
        Some(x) => x@,
        None => Seq::empty(),
    }
}

fn text_or_empty(s: &Option<String>) -> (r: String)
    ensures
        r@ == or_empty(*s),
{
    match s {
        Some(x) => x.clone(),
        None => String::new(),
    }
}

/// The port of SSH.
pub const SSH_PORT: u16 = 22;

/// What the way of authentication of an environment is read from: the kind that is stored, a
/// private key where none is, and the path of the key.
pub fn auth_row(env: &EnvironmentInfo) -> (r: (&str, Option<&str>))
    ensures
        r.0@ == (match env.auth_type {
            Some(kind) => kind@,
            None => "private_key"@,
        }),
        text::opt_str(r.1) == text::opt(env.private_key_path),
{
    let kind: &str = match &env.auth_type {
        Some(kind) => kind.as_str(),
        None => "private_key",
    };
    (kind, text::as_str_opt(&env.private_key_path))
}

/// The connection to the host of an environment. `auth` is the way of authentication that
/// [`auth_row`] stands for, where it stands for one.
pub fn build_ssh_transport(
    environment_id: &str,
    env: &EnvironmentInfo,
    auth: Option<SshAuth>,
) -> (r: Result<SshTransport, PoolError>)
    ensures
        match auth {
            Some(auth) => r matches Ok(t) && t@ == (Transport {
                env_id: environment_id@,
                host: or_empty(env.host),
                port: (match env.port {
                    Some(p) => p,
                    None => SSH_PORT,
                }),
                user: or_empty(env.user),
                auth,
                cred_id: text::opt(env.default_cred_id),
            }),
            None => r matches Err(f) && f@ == (Fault::TransportNotImplemented {
                detail: invalid_auth(environment_id@),
            }),
        },
{
    match auth {
        Some(auth) => Ok(
            SshTransport {
                env_id: environment_id.to_owned(),
                host: text_or_empty(&env.host),
                port: match env.port {
                    Some(p) => p,
                    None => SSH_PORT,
                },
                user: text_or_empty(&env.user),
                auth,
                cred_id: text::copy_opt(&env.default_cred_id),
            },
        ),
        None => Err(
            PoolError::TransportNotImplemented(invalid_auth_text(environment_id)),
        ),
    }
}

/// A connection to a target: over SSH to the host and, for a pod, from there into the container.
#[derive(Debug, PartialEq, Eq)]
pub struct TargetTransport {
    pub host: SshTransport,
    pub pod: Option<K8sChannel>,
}

/// Whether a connection leads to the host of an environment and, where a pod is named, from there
/// into its container.
pub open spec fn leads_to(
    t: TargetTransport,
    environment_id: Seq<char>,
    env: EnvironmentInfo,
    auth: SshAuth,
    pod: Option<Seq<char>>,
    namespace: Option<Seq<char>>,
    container: Option<Seq<char>>,
) -> bool {
    &&& t.host@ == (Transport {
        env_id: environment_id,
        host: or_empty(env.host),
        port: (match env.port {
            Some(p) => p,
            None => SSH_PORT,
        }),
        user: or_empty(env.user),
        auth,
        cred_id: text::opt(env.default_cred_id),
    })
    &&& match pod {
        Some(pod) => t.pod matches Some(ch) && ch.pod@ == pod && text::opt(ch.namespace)
            == namespace && text::opt(ch.container) == container,
        None => t.pod is None,
    }
}

/// The connection to a target: to the host itself where no pod is named.
pub fn build_transport(
    environment_id: &str,
    env: &EnvironmentInfo,
    auth: Option<SshAuth>,
    pod: Option<&str>,
    container: Option<&str>,
) -> (r: Result<TargetTransport, PoolError>)
    ensures
        match auth {
            Some(auth) => r matches Ok(t) && leads_to(
                t,
                environment_id@,
                *env,
                auth,
                text::opt_str(pod),
                None,
                text::opt_str(container),
            ),
            None => r matches Err(f) && f@ == (Fault::TransportNotImplemented {
                detail: invalid_auth(environment_id@),
            }),
        },
{
    build_transport_in(environment_id, env, auth, pod, None, container)
}

/// The connection to a target in a namespace: to the host itself where no pod is named.
pub fn build_transport_in(
    environment_id: &str,
    env: &EnvironmentInfo,
    auth: Option<SshAuth>,
    pod: Option<&str>,
    namespace: Option<&str>,
    container: Option<&str>,
) -> (r: Result<TargetTransport, PoolError>)
    ensures
        match auth {
            Some(auth) => r matches Ok(t) && leads_to(
                t,
                environment_id@,
                *env,
                auth,
                text::opt_str(pod),
                text::opt_str(namespace),
                text::opt_str(container),
            ),
            None => r matches Err(f) && f@ == (Fault::TransportNotImplemented {
                detail: invalid_auth(environment_id@),
            }),
        },
{
    match build_ssh_transport(environment_id, env, auth) {
        Ok(host) => {
            let pod: Option<K8sChannel> = match pod {
                Some(pod) => Some(
                    K8sChannel {
                        pod: pod.to_owned(),
                        namespace: text::own_opt(namespace),
                        container: text::own_opt(container),
                    },
                ),
                None => None,
            };
            Ok(TargetTransport { host, pod })
        },
        Err(e) => Err(e),
    }
}

// ---------------------------------------------------------------------------------------------
// After a command that did not end in time
// ---------------------------------------------------------------------------------------------

pub open spec fn timeout_kill(command: Seq<char>) -> Seq<char> {
    "pkill -f "@ + ssh::shell_quote(k8s::kill_pattern(command))
}

fn timeout_kill_text(command: &str) -> (r: String)
    ensures
        r@ == timeout_kill(command@),
{
    "pkill -f ".to_owned()
        .concat(ssh::shell_quote_single(k8s::pkill_pattern(command).as_str()).as_str())
}

/// What is done for a command that was left running in a container.
#[derive(Clone, Copy, Debug, PartialEq, Eq, Structural)]
pub enum KillStage {
    /// Read the environment and build a connection of its own.
    Load,
    /// Connect.
    Connect,
    /// Kill the command.
    Run,
    /// Disconnect.
    Disconnect,
    /// It is over.
    Ended,
}

/// The stage that follows, by whether the work of a stage could be done. A kill that fails is
/// left at that, but the connection is always given up.
pub open spec fn kill_next(stage: KillStage, ok: bool) -> KillStage {
    match stage {
        KillStage::Load => if ok {
            KillStage::Connect
        } else {
            KillStage::Ended
        },
        KillStage::Connect => if ok {
            KillStage::Run
        } else {
            KillStage::Ended
        },
        KillStage::Run => KillStage::Disconnect,
        KillStage::Disconnect => KillStage::Ended,
        KillStage::Ended => KillStage::Ended,
    }
}

/// The killing of a command that was left running in a container.
#[derive(Debug, PartialEq, Eq)]
pub struct TimeoutKill {
    /// The command that kills it.
    pub cmd: String,
    pub stage: KillStage,
}

/// Begins to kill a command that did not end in time. On a host there is nothing to do: a command
/// ends there with its connection.
pub fn spawn_timeout_kill(target: &TargetKey, command: &str) -> (r: Option<TimeoutKill>)
    ensures
        match r {
            Some(k) => target@.pod is Some && k.cmd@ == timeout_kill(command@) && k.stage
                == KillStage::Load,
            None => target@.pod is None,
        },
{
    if target.pod.is_some() {
        Some(TimeoutKill { cmd: timeout_kill_text(command), stage: KillStage::Load })
    } else {
        None
    }
}

impl TimeoutKill {
    /// Takes whether the work of the stage could be done.
    pub fn step(&mut self, ok: bool)
        ensures
            final(self).cmd == old(self).cmd,
            final(self).stage == kill_next(old(self).stage, ok),
    {
        self.stage = match self.stage {
            KillStage::Load => if ok {
                KillStage::Connect
            } else {
                KillStage::Ended
            },
            KillStage::Connect => if ok {
                KillStage::Run
            } else {
                KillStage::Ended
            },
            KillStage::Run => KillStage::Disconnect,
            KillStage::Disconnect => KillStage::Ended,
            KillStage::Ended => KillStage::Ended,
        };
    }
}

/// What a default credential says of how to log in counts before what the environment says, and the
/// environment counts where the credential says nothing.
pub proof fn law_credential_counts_first(credential: String, own: Option<String>)
    ensures
        coalesced(Some(credential), own) == Some(credential),
        coalesced(None, own) == own,
{
}

/// A stored number that is a port stands for that port.
pub proof fn law_stored_port_is_the_port(port: u16)
    ensures
        stored_port(Some(port as i64)) == Some(port),
        stored_port(None) is None,
{
    assert(port as int % 0x10000 == port);
}

/// A connection to a pod goes over the host of its environment, into the pod, the namespace and the
/// container that are named; one to no pod stays at the host. It is made as the user and at the port of
/// the environment, or at that of SSH, and with its credential.
pub proof fn law_connection_leads_where_it_is_told(
    t: TargetTransport,
    environment_id: Seq<char>,
    env: EnvironmentInfo,
    auth: SshAuth,
    pod: Option<Seq<char>>,
    namespace: Option<Seq<char>>,
    container: Option<Seq<char>>,
)
    requires
        leads_to(t, environment_id, env, auth, pod, namespace, container),
    ensures
        t.host.env_id@ == environment_id,
        env.host matches Some(h) ==> t.host.host@ == h@,
        env.user matches Some(u) ==> t.host.user@ == u@,
        env.port matches Some(p) ==> t.host.port == p,
        env.port is None ==> t.host.port == 22,
        t.host.auth == auth,
        env.default_cred_id matches Some(c) ==> (t.host.cred_id matches Some(x) && x@ == c@),
        env.default_cred_id is None ==> t.host.cred_id is None,
        pod is None <==> t.pod is None,
        pod matches Some(p) ==> (t.pod matches Some(ch) && ch.pod@ == p && text::opt(ch.namespace)
            == namespace && text::opt(ch.container) == container),
{
    assert(t.host@.env_id == environment_id);
    assert(t.host@.cred_id == text::opt(env.default_cred_id));
}

/// The command that ends a command which was left running hands `pkill` one word: a pattern that
/// stands for exactly that command.
pub proof fn law_timeout_kill_finds_the_command(command: Seq<char>)
    requires
        command.len() > 0 ==> command[0] != '^',
    ensures
        timeout_kill(command) == "pkill -f "@ + ssh::shell_quote(k8s::kill_pattern(command)),
        ssh::sh_word(ssh::shell_quote(k8s::kill_pattern(command)), false) == Some(
            k8s::kill_pattern(command),
        ),
        k8s::ere_text(k8s::kill_pattern(command)) == Some(command),
{
    ssh::law_quote_round_trip(k8s::kill_pattern(command));
    k8s::law_kill_pattern_matches(command);
}

/// A connection that was made for a kill is given up whatever came of the kill, and where none could
/// be made there is nothing to give up.
pub proof fn law_kill_gives_its_connection_up(ok: bool)
    ensures
        kill_next(kill_next(kill_next(KillStage::Load, true), true), ok) is Disconnect,
        kill_next(KillStage::Disconnect, ok) is Ended,
        kill_next(KillStage::Load, true) is Connect,
        kill_next(KillStage::Connect, true) is Run,
        kill_next(KillStage::Load, false) is Ended,
        kill_next(KillStage::Connect, false) is Ended,
        kill_next(KillStage::Ended, ok) is Ended,
{
}

} // verus!
