//! The channel into a container: commands are wrapped in `kubectl exec` and run on the host,
//! files travel in two legs over a staging directory of the host.

use vstd::prelude::*;

use crate::exec::ssh;
use crate::flow::{Action, Output, Reply, Site};
use crate::ids;
use crate::text;

verus! {

/// The directory of the host that files pass through on their way into and out of pods.
pub const STAGING_DIR: &'static str = "/tmp/friday-tools/staging";

/// The directory for tools inside a pod.
pub const POD_TOOLS_DIR: &'static str = "/opt/log/dump/coredump/friday-tools";

/// The directory for dumps and recordings inside a pod.
pub const POD_DUMP_DIR: &'static str = "/opt/log/dump/coredump";

/// The exit code of a shell that did not find the program that it was to run.
pub const PROGRAM_NOT_FOUND: i32 = 127;

/// The group that files in a pod must belong to, so that the user of the JVM can read them.
pub const OSS_GROUP: &'static str = "ossgroup";

// ---------------------------------------------------------------------------------------------
// Commands
// ---------------------------------------------------------------------------------------------

/// The flag that names the container, with a space behind it; empty for the default container.
pub open spec fn container_flag(container: Option<Seq<char>>) -> Seq<char> {
    match container {
        Some(c) => "-c "@ + ssh::shell_quote(c) + " "@,
        None => Seq::empty(),
    }
}

/// The flag that names the namespace, with a space behind it; empty for the namespace that kubectl
/// is set to.
pub open spec fn namespace_flag(namespace: Option<Seq<char>>) -> Seq<char> {
    match namespace {
        Some(n) => "-n "@ + ssh::shell_quote(n) + " "@,
        None => Seq::empty(),
    }
}

/// The flags that name the namespace and the container.
pub open spec fn place_flags(
    namespace: Option<Seq<char>>,
    container: Option<Seq<char>>,
) -> Seq<char> {
    namespace_flag(namespace) + container_flag(container)
}

/// `cmd` as run in a pod of the namespace that kubectl is set to, from the host.
pub open spec fn exec_command(
    pod: Seq<char>,
    container: Option<Seq<char>>,
    cmd: Seq<char>,
) -> Seq<char> {
    "kubectl exec "@ + container_flag(container) + ssh::shell_quote(pod) + " -- sh -c "@
        + ssh::shell_quote(cmd)
}

/// `cmd` as run in a pod of a namespace, from the host.
pub open spec fn exec_in(
    pod: Seq<char>,
    namespace: Option<Seq<char>>,
    container: Option<Seq<char>>,
    cmd: Seq<char>,
) -> Seq<char> {
    "kubectl exec "@ + place_flags(namespace, container) + ssh::shell_quote(pod) + " -- sh -c "@
        + ssh::shell_quote(cmd)
}

/// Where no namespace is named, the command is the one without a namespace.
pub proof fn law_no_namespace_adds_nothing(
    pod: Seq<char>,
    container: Option<Seq<char>>,
    cmd: Seq<char>,
)
    ensures
        exec_in(pod, None, container, cmd) == exec_command(pod, container, cmd),
{
    assert(place_flags(None, container) =~= container_flag(container));
}

/// The flag that names the container.
pub fn container_flag_text(container: Option<&str>) -> (r: String)
    ensures
        r@ == container_flag(text::opt_str(container)),
{
    match container {
        Some(c) => "-c ".to_owned().concat(ssh::shell_quote_single(c).as_str()).concat(" "),
        None => String::new(),
    }
}

/// The flags that name the namespace and the container.
fn place_flags_text(namespace: Option<&str>, container: Option<&str>) -> (r: String)
    ensures
        r@ == place_flags(text::opt_str(namespace), text::opt_str(container)),
{
    let first: String = match namespace {
        Some(n) => "-n ".to_owned().concat(ssh::shell_quote_single(n).as_str()).concat(" "),
        None => String::new(),
    };
    first.concat(container_flag_text(container).as_str())
}

/// `cmd` as run in a pod of a namespace, from the host.
pub fn wrap_exec_in(
    pod: &str,
    namespace: Option<&str>,
    container: Option<&str>,
    cmd: &str,
) -> (r: String)
    ensures
        r@ == exec_in(pod@, text::opt_str(namespace), text::opt_str(container), cmd@),
{
    "kubectl exec ".to_owned().concat(place_flags_text(namespace, container).as_str()).concat(
        ssh::shell_quote_single(pod).as_str(),
    ).concat(" -- sh -c ").concat(ssh::shell_quote_single(cmd).as_str())
}

/// `cmd` as run in a pod of the namespace that kubectl is set to, from the host.
pub fn wrap_exec_command(pod: &str, container: Option<&str>, cmd: &str) -> (r: String)
    ensures
        r@ == exec_command(pod@, text::opt_str(container), cmd@),
{
    "kubectl exec ".to_owned().concat(container_flag_text(container).as_str()).concat(
        ssh::shell_quote_single(pod).as_str(),
    ).concat(" -- sh -c ").concat(ssh::shell_quote_single(cmd).as_str())
}

/// The characters that mean something in an extended regular expression.
pub open spec fn is_meta(c: char) -> bool {
    ||| c == '\\'
    ||| c == '.'
    ||| c == '^'
    ||| c == '$'
    ||| c == '|'
    ||| c == '?'
    ||| c == '*'
    ||| c == '+'
    ||| c == '('
    ||| c == ')'
    ||| c == '['
    ||| c == ']'
    ||| c == '{'
    ||| c == '}'
}

/// `s` with a backslash before each character that means something.
pub open spec fn escape_meta(s: Seq<char>) -> Seq<char>
    decreases s.len(),
{
    if s.len() == 0 {
        Seq::empty()
    } else if is_meta(s.last()) {
        escape_meta(s.drop_last()).push('\\').push(s.last())
    } else {
        escape_meta(s.drop_last()).push(s.last())
    }
}

/// The pattern for `pkill -f`: the first character in brackets, the others escaped.
pub open spec fn kill_pattern(command: Seq<char>) -> Seq<char> {
    if command.len() == 0 {
        Seq::empty()
    } else {
        seq!['[', command[0], ']'] + escape_meta(command.subrange(1, command.len() as int))
    }
}

fn is_meta_char(c: char) -> (r: bool)
    ensures
        r == is_meta(c),
{
    c == '\\' || c == '.' || c == '^' || c == '$' || c == '|' || c == '?' || c == '*' || c == '+'
        || c == '(' || c == ')' || c == '[' || c == ']' || c == '{' || c == '}'
}

/// The pattern for `pkill -f` that stands for `command` and is not written like it, so that the
/// search does not come upon its own command line.
pub fn pkill_pattern(command: &str) -> (r: String)
    ensures
        r@ == kill_pattern(command@),
{
    let x: Vec<char> = text::to_chars(command);
    let mut out: String = String::new();
    if x.len() == 0 {
        proof {
            assert(out@ =~= kill_pattern(command@));
        }
        return out;
    }
    text::push_char(&mut out, '[');
    text::push_char(&mut out, x[0]);
    text::push_char(&mut out, ']');
    let ghost head = seq!['[', command@[0], ']'];
    let ghost rest = command@.subrange(1, command@.len() as int);
    let mut i: usize = 1;
    proof {
        assert(out@ =~= head + escape_meta(rest.take(0)));
    }
    while i < x.len()
        invariant
            x@ == command@,
            1 <= i <= x@.len(),
            rest == command@.subrange(1, command@.len() as int),
            out@ == head + escape_meta(rest.take(i - 1)),
        decreases x.len() - i,
    {
        let c: char = x[i];
        let ghost before = out@;
        proof {
            assert(rest.take(i as int).drop_last() =~= rest.take(i - 1));
            assert(rest.take(i as int).last() == c);
        }
        if is_meta_char(c) {
            text::push_char(&mut out, '\\');
        }
        text::push_char(&mut out, c);
        proof {
            assert(out@ =~= head + escape_meta(rest.take(i as int)));
        }
        i = i + 1;
    }
    proof {
        assert(rest.take(i - 1) =~= rest);
    }
    out
}

/// The one text that an extended regular expression stands for, where it is made only of characters
/// that stand for themselves, escaped characters, and brackets around one character.
pub open spec fn ere_text(p: Seq<char>) -> Option<Seq<char>>
    decreases p.len(),
{
    if p.len() == 0 {
        Some(Seq::empty())
    } else if p[0] == '[' {
        if p.len() >= 3 && p[1] != '^' && p[2] == ']' {
            match ere_text(p.subrange(3, p.len() as int)) {
                Some(t) => Some(seq![p[1]] + t),
                None => None,
            }
        } else {
            None
        }
    } else if p[0] == '\\' {
        if p.len() >= 2 && is_meta(p[1]) {
            match ere_text(p.subrange(2, p.len() as int)) {
                Some(t) => Some(seq![p[1]] + t),
                None => None,
            }
        } else {
            None
        }
    } else if is_meta(p[0]) {
        None
    } else {
        match ere_text(p.subrange(1, p.len() as int)) {
            Some(t) => Some(seq![p[0]] + t),
            None => None,
        }
    }
}

/// A character as it stands in the escaped text.
spec fn escaped_char(c: char) -> Seq<char> {
    if is_meta(c) {
        seq!['\\', c]
    } else {
        seq![c]
    }
}

proof fn lemma_escape_meta_front(c: char, s: Seq<char>)
    ensures
        escape_meta(seq![c] + s) == escaped_char(c) + escape_meta(s),
    decreases s.len(),
{
    let whole = seq![c] + s;
    if s.len() == 0 {
        assert(whole.drop_last() =~= Seq::<char>::empty());
        assert(escape_meta(whole.drop_last()) =~= Seq::<char>::empty());
        assert(escape_meta(s) =~= Seq::<char>::empty());
        assert(escape_meta(whole) =~= escaped_char(c) + escape_meta(s));
    } else {
        lemma_escape_meta_front(c, s.drop_last());
        assert(whole.drop_last() =~= seq![c] + s.drop_last());
        assert(escape_meta(whole) =~= escaped_char(c) + escape_meta(s));
    }
}

proof fn lemma_escape_meta_matches(s: Seq<char>)
    ensures
        ere_text(escape_meta(s)) == Some(s),
    decreases s.len(),
{
    if s.len() == 0 {
        assert(s =~= Seq::<char>::empty());
    } else {
        let rest = s.subrange(1, s.len() as int);
        assert(s =~= seq![s[0]] + rest);
        lemma_escape_meta_front(s[0], rest);
        lemma_escape_meta_matches(rest);
        let e = escape_meta(s);
        if is_meta(s[0]) {
            assert(e[0] == '\\' && e[1] == s[0]);
            assert(e.subrange(2, e.len() as int) =~= escape_meta(rest));
        } else {
            assert(e[0] == s[0]);
            assert(e.subrange(1, e.len() as int) =~= escape_meta(rest));
        }
    }
}

/// The kill pattern stands for exactly the text of the command. A command that begins with a caret
/// is left out: in brackets, a leading caret negates.
pub proof fn law_kill_pattern_matches(command: Seq<char>)
    requires
        command.len() > 0 ==> command[0] != '^',
    ensures
        ere_text(kill_pattern(command)) == Some(command),
{
    if command.len() == 0 {
        assert(command =~= Seq::<char>::empty());
    } else {
        let rest = command.subrange(1, command.len() as int);
        lemma_escape_meta_matches(rest);
        let p = kill_pattern(command);
        assert(p.subrange(3, p.len() as int) =~= escape_meta(rest));
        assert(seq![command[0]] + rest =~= command);
    }
}

/// How often a character stands in a text.
spec fn times(s: Seq<char>, c: char) -> nat
    decreases s.len(),
{
    if s.len() == 0 {
        0
    } else {
        times(s.drop_last(), c) + (if s.last() == c {
            1nat
        } else {
            0nat
        })
    }
}

proof fn lemma_times_joined(a: Seq<char>, b: Seq<char>, c: char)
    ensures
        times(a + b, c) == times(a, c) + times(b, c),
    decreases b.len(),
{
    if b.len() == 0 {
        assert(a + b =~= a);
    } else {
        assert((a + b).drop_last() =~= a + b.drop_last());
        lemma_times_joined(a, b.drop_last(), c);
    }
}

/// Escaping adds nothing but backslashes.
proof fn lemma_times_escaped(s: Seq<char>, c: char)
    requires
        c != '\\',
    ensures
        times(escape_meta(s), c) == times(s, c),
    decreases s.len(),
{
    if s.len() > 0 {
        lemma_times_escaped(s.drop_last(), c);
        lemma_times_joined(escape_meta(s.drop_last()), escaped_char(s.last()), c);
        reveal_with_fuel(times, 3);
        let e = escaped_char(s.last());
        assert(escape_meta(s) =~= escape_meta(s.drop_last()) + e);
        assert(e.last() == s.last());
        if e.len() == 2 {
            assert(e.drop_last().drop_last() =~= Seq::<char>::empty());
            assert(e.drop_last().last() == '\\');
        } else {
            assert(e.drop_last() =~= Seq::<char>::empty());
        }
    }
}

/// The text of the kill pattern does not hold the command, so `pkill -f` does not find the
/// command line that the pattern stands in. This is said of commands of two or more characters
/// that begin with no bracket and no backslash, and in which no closing bracket comes second, unless
/// something else than a backslash comes third.
pub proof fn law_kill_pattern_excludes_itself(command: Seq<char>)
    requires
        command.len() >= 2,
        command[0] != '[' && command[0] != ']' && command[0] != '\\',
        command[1] == ']' ==> command.len() > 2 && command[2] != '\\',
    ensures
        !text::contains(kill_pattern(command), command),
{
    let p = kill_pattern(command);
    let n = command.len() as int;
    let rest = command.subrange(1, n);
    let e = escape_meta(rest);
    let first = command[0];
    assert forall|i: int| !text::occurs_at(p, command, i) by {
        if text::occurs_at(p, command, i) {
            assert forall|k: int| 0 <= k < n implies p[i + k] == command[k] by {
                assert(p.subrange(i, i + n)[k] == p[i + k]);
            }
            assert(p[i + 0] == command[0]);
            assert(p[i + 1] == command[1]);
            assert(p[0] == '[' && p[2] == ']');
            if i == 1 {
                assert(p[i + 2] == command[2]);
                assert(rest =~= seq![command[1]] + rest.subrange(1, n - 1));
                lemma_escape_meta_front(command[1], rest.subrange(1, n - 1));
                assert(e[0] == '\\');
                assert(p[3] == e[0]);
                assert(false);
            }
            assert(i >= 3);
            let j = i - 3;
            let before = e.subrange(0, j);
            let after = e.subrange(j + n, e.len() as int);
            assert(e =~= before + command + after) by {
                assert forall|k: int| 0 <= k < n implies e[j + k] == command[k] by {
                    assert(p[i + k] == e[j + k]);
                }
            }
            lemma_times_joined(before + command, after, first);
            lemma_times_joined(before, command, first);
            lemma_times_escaped(rest, first);
            assert(command =~= seq![first] + rest);
            lemma_times_joined(seq![first], rest, first);
            reveal_with_fuel(times, 2);
            assert(seq![first].drop_last() =~= Seq::<char>::empty());
            assert(times(seq![first], first) == 1);
            assert(false);
        }
    }
}

/// Whether a path can name a file in a pod: it is absolute and holds no NUL.
pub open spec fn pod_path_ok(path: Seq<char>) -> bool {
    path.len() > 0 && path[0] == '/' && !path.contains('\0')
}

/// Why a path cannot name a file in a pod.
pub open spec fn pod_path_error(path: Seq<char>) -> Seq<char> {
    if path.len() == 0 || path[0] != '/' {
        "pod path must be absolute: "@ + text::quoted(path)
    } else {
        "pod path must not contain NUL"@
    }
}

/// Checks that a path can name a file in a pod.
pub fn validate_pod_path(path: &str) -> (r: Result<(), String>)
    ensures
        r is Ok <==> pod_path_ok(path@),
        r matches Err(e) ==> e@ == pod_path_error(path@),
{
    let x: Vec<char> = text::to_chars(path);
    if x.len() == 0 || x[0] != '/' {
        return Err(
            "pod path must be absolute: ".to_owned().concat(text::debug_text(path).as_str()),
        );
    }
    let mut i: usize = 0;
    while i < x.len()
        invariant
            x@ == path@,
            i <= x@.len(),
            path@[0] == '/',
            forall|j: int| 0 <= j < i ==> path@[j] != '\0',
        decreases x.len() - i,
    {
        if x[i] == '\0' {
            proof {
                assert(path@.contains('\0'));
            }
            return Err("pod path must not contain NUL".to_owned());
        }
        i = i + 1;
    }
    proof {
        assert(!path@.contains('\0'));
    }
    Ok(())
}

/// The position of the last slash; minus one where there is none.
pub open spec fn last_slash(path: Seq<char>) -> int
    decreases path.len(),
{
    if path.len() == 0 {
        -1
    } else if path.last() == '/' {
        path.len() - 1
    } else {
        last_slash(path.drop_last())
    }
}

/// What stands behind the last slash.
pub open spec fn base_name(path: Seq<char>) -> Seq<char> {
    path.subrange(last_slash(path) + 1, path.len() as int)
}

/// The directory that a path lies in.
pub open spec fn parent_dir(path: Seq<char>) -> Seq<char> {
    if last_slash(path) <= 0 {
        "/"@
    } else {
        path.subrange(0, last_slash(path))
    }
}

proof fn lemma_last_slash(path: Seq<char>)
    ensures
        -1 <= last_slash(path) < path.len(),
    decreases path.len(),
{
    if path.len() > 0 {
        lemma_last_slash(path.drop_last());
    }
}

/// One more than the position of the last slash; zero where there is none.
fn after_last_slash(x: &Vec<char>) -> (r: usize)
    ensures
        r == last_slash(x@) + 1,
        r <= x@.len(),
{
    let mut i: usize = x.len();
    proof {
        assert(x@.take(i as int) =~= x@);
        lemma_last_slash(x@);
    }
    while i > 0 && x[i - 1] != '/'
        invariant
            i <= x@.len(),
            last_slash(x@.take(i as int)) == last_slash(x@),
        decreases i,
    {
        proof {
            assert(x@.take(i as int).drop_last() =~= x@.take(i - 1));
        }
        i = i - 1;
    }
    i
}

/// What stands behind the last slash.
pub fn file_name(path: &str) -> (r: String)
    ensures
        r@ == base_name(path@),
{
    let x: Vec<char> = text::to_chars(path);
    let from: usize = after_last_slash(&x);
    text::slice_text(&x, from, x.len())
}

/// The directory that a path lies in.
pub fn directory(path: &str) -> (r: String)
    ensures
        r@ == parent_dir(path@),
{
    let x: Vec<char> = text::to_chars(path);
    let n: usize = after_last_slash(&x);
    if n <= 1 {
        "/".to_owned()
    } else {
        text::slice_text(&x, 0, n - 1)
    }
}

// ---------------------------------------------------------------------------------------------
// The channel
// ---------------------------------------------------------------------------------------------

/// The channel into a container of a pod, over the channel of its host.
#[derive(Debug, PartialEq, Eq)]
pub struct K8sChannel {
    pub pod: String,
    /// The namespace of the pod; the one that kubectl is set to where there is none.
    pub namespace: Option<String>,
    pub container: Option<String>,
}

impl K8sChannel {
    /// The flag that names the container.
    pub fn ctr_flag(&self) -> (r: String)
        ensures
            r@ == container_flag(text::opt(self.container)),
    {
        container_flag_text(text::as_str_opt(&self.container))
    }

    /// What running `cmd` in the container asks of the host.
    pub fn run(&self, cmd: &str) -> (r: Action<String>)
        ensures
            r@ == (Action::Run {
                site: Site::Host,
                cmd: exec_in(self.pod@, text::opt(self.namespace), text::opt(self.container), cmd@),
                secs: None,
            }),
    {
        Action::Run {
            site: Site::Host,
            cmd: wrap_exec_in(
                self.pod.as_str(),
                text::as_str_opt(&self.namespace),
                text::as_str_opt(&self.container),
                cmd,
            ),
            secs: None,
        }
    }

    /// Begins to copy a local file to `remote` in the container, over a staging file of a name
    /// that no other transfer has.
    pub fn upload(&self, local: &str, remote: &str) -> (r: Result<Upload<String>, String>)
        ensures
            r is Ok <==> pod_path_ok(remote@),
            r matches Err(e) ==> e@ == pod_path_error(remote@),
            r matches Ok(u) ==> exists|id: Seq<char>| #[trigger]
                ids::is_uuid(id) && u@ == upload_start(
                    self.pod@,
                    text::opt(self.namespace),
                    text::opt(self.container),
                    local@,
                    remote@,
                    id,
                ),
    {
        match validate_pod_path(remote) {
            Err(e) => Err(e),
            Ok(_) => {
                let id: String = ids::fresh_uuid();
                Ok(self.upload_over(local, remote, id.as_str()))
            },
        }
    }

    /// Begins to copy a local file to `remote` in the container, over a staging file named after
    /// `id`.
    pub fn upload_over(&self, local: &str, remote: &str, id: &str) -> (r: Upload<String>)
        ensures
            r@ == upload_start(
                self.pod@,
                text::opt(self.namespace),
                text::opt(self.container),
                local@,
                remote@,
                id@,
            ),
    {
        Upload {
            pod: self.pod.clone(),
            namespace: text::copy_opt(&self.namespace),
            container: text::copy_opt(&self.container),
            local: local.to_owned(),
            remote: remote.to_owned(),
            staging: staging_text(id, remote),
            stage: UploadStage::MakeStaging,
        }
    }

    /// Begins to copy `remote` of the container to a local file, from `offset` on, over a staging
    /// file of a name that no other transfer has.
    pub fn download(&self, remote: &str, local: &str, offset: u64) -> (r: Result<
        Download<String>,
        String,
    >)
        ensures
            r is Ok <==> pod_path_ok(remote@),
            r matches Err(e) ==> e@ == pod_path_error(remote@),
            r matches Ok(d) ==> exists|id: Seq<char>| #[trigger]
                ids::is_uuid(id) && d@ == download_start(
                    self.pod@,
                    text::opt(self.namespace),
                    text::opt(self.container),
                    remote@,
                    local@,
                    offset,
                    id,
                ),
    {
        match validate_pod_path(remote) {
            Err(e) => Err(e),
            Ok(_) => {
                let id: String = ids::fresh_uuid();
                Ok(self.download_over(remote, local, offset, id.as_str()))
            },
        }
    }

    /// Begins to copy `remote` of the container to a local file, from `offset` on, over a staging
    /// file named after `id`.
    pub fn download_over(&self, remote: &str, local: &str, offset: u64, id: &str) -> (r: Download<
        String,
    >)
        ensures
            r@ == download_start(
                self.pod@,
                text::opt(self.namespace),
                text::opt(self.container),
                remote@,
                local@,
                offset,
                id@,
            ),
    {
        Download {
            pod: self.pod.clone(),
            namespace: text::copy_opt(&self.namespace),
            container: text::copy_opt(&self.container),
            remote: remote.to_owned(),
            local: local.to_owned(),
            offset,
            staging: staging_text(id, remote),
            stage: DownloadStage::Stat,
        }
    }
}

/// The staging file of a transfer of `remote`.
pub open spec fn staging_path(id: Seq<char>, remote: Seq<char>) -> Seq<char> {
    STAGING_DIR@ + "/"@ + id + "-"@ + base_name(remote)
}

fn staging_text(id: &str, remote: &str) -> (r: String)
    ensures
        r@ == staging_path(id@, remote@),
{
    STAGING_DIR.to_owned().concat("/").concat(id).concat("-").concat(file_name(remote).as_str())
}

/// The command that removes one file.
pub open spec fn rm_command(path: Seq<char>) -> Seq<char> {
    "rm -f "@ + ssh::shell_quote(path)
}

fn rm_text(path: &str) -> (r: String)
    ensures
        r@ == rm_command(path@),
{
    "rm -f ".to_owned().concat(ssh::shell_quote_single(path).as_str())
}

// ---------------------------------------------------------------------------------------------
// Copying into a container
// ---------------------------------------------------------------------------------------------

/// Where a copy into a container stands.
#[derive(Debug, PartialEq, Eq)]
pub enum UploadStage<S> {
    /// Make the staging directory on the host.
    MakeStaging,
    /// First leg: to the staging file.
    Send,
    /// Second leg: from the staging file into the container.
    Inject,
    /// Remove the staging file, whatever became of the second leg.
    Unstage { injected: Result<Output<S>, S> },
    /// Give the file to the group.
    Regroup,
    /// Remove what arrived in the container, then fail.
    Remove { error: S },
    /// It is over.
    Ended { result: Result<(), S> },
}

/// A copy of a local file into a container.
#[derive(Debug, PartialEq, Eq)]
pub struct Upload<S> {
    pub pod: S,
    pub namespace: Option<S>,
    pub container: Option<S>,
    pub local: S,
    pub remote: S,
    pub staging: S,
    pub stage: UploadStage<S>,
}

impl View for UploadStage<String> {
    type V = UploadStage<Seq<char>>;

    open spec fn view(&self) -> UploadStage<Seq<char>> {
        match *self {
            UploadStage::MakeStaging => UploadStage::MakeStaging,
            UploadStage::Send => UploadStage::Send,
            UploadStage::Inject => UploadStage::Inject,
            UploadStage::Unstage { injected } => UploadStage::Unstage {
                injected: crate::flow::view_result(injected),
            },
            UploadStage::Regroup => UploadStage::Regroup,
            UploadStage::Remove { error } => UploadStage::Remove { error: error@ },
            UploadStage::Ended { result } => UploadStage::Ended {
                result: crate::flow::view_unit(result),
            },
        }
    }
}

impl View for Upload<String> {
    type V = Upload<Seq<char>>;

    open spec fn view(&self) -> Upload<Seq<char>> {
        Upload {
            pod: self.pod@,
            namespace: text::opt(self.namespace),
            container: text::opt(self.container),
            local: self.local@,
            remote: self.remote@,
            staging: self.staging@,
            stage: self.stage@,
        }
    }
}

/// A copy into a container that has not begun.
pub open spec fn upload_start(
    pod: Seq<char>,
    namespace: Option<Seq<char>>,
    container: Option<Seq<char>>,
    local: Seq<char>,
    remote: Seq<char>,
    id: Seq<char>,
) -> Upload<Seq<char>> {
    Upload {
        pod,
        namespace,
        container,
        local,
        remote,
        staging: staging_path(id, remote),
        stage: UploadStage::MakeStaging,
    }
}

/// The command of the second leg: the host's shell feeds the staging file to `cat` in the
/// container.
pub open spec fn inject_command(u: Upload<Seq<char>>) -> Seq<char> {
    "kubectl exec -i "@ + place_flags(u.namespace, u.container) + ssh::shell_quote(u.pod) + " -- sh -c "@
        + ssh::shell_quote(
        "mkdir -p "@ + ssh::shell_quote(parent_dir(u.remote)) + " && cat > "@ + ssh::shell_quote(
            u.remote,
        ),
    ) + " < "@ + ssh::shell_quote(u.staging)
}

/// The command that gives the file to the group.
pub open spec fn regroup_command(u: Upload<Seq<char>>) -> Seq<char> {
    let q = ssh::shell_quote(u.remote);
    "chgrp "@ + OSS_GROUP@ + " "@ + q + " && chmod g+r "@ + q
}

/// A command run on the host without a time limit.
pub open spec fn on_host(cmd: Seq<char>) -> Action<Seq<char>> {
    Action::Run { site: Site::Host, cmd, secs: None }
}

/// What a copy into a container asks for where it stands.
pub open spec fn upload_request(u: Upload<Seq<char>>) -> Action<Seq<char>> {
    match u.stage {
        UploadStage::MakeStaging => on_host("mkdir -p "@ + ssh::shell_quote(STAGING_DIR@)),
        UploadStage::Send => Action::Upload {
            site: Site::Host,
            local: u.local,
            remote: u.staging,
        },
        UploadStage::Inject => on_host(inject_command(u)),
        UploadStage::Unstage { injected } => on_host(rm_command(u.staging)),
        UploadStage::Regroup => on_host(exec_in(u.pod, u.namespace, u.container, regroup_command(u))),
        UploadStage::Remove { error } => on_host(
            exec_in(u.pod, u.namespace, u.container, rm_command(u.remote)),
        ),
        UploadStage::Ended { result } => Action::Finished,
    }
}

/// The stage that a copy into a container reaches by a reply.
pub open spec fn upload_next(u: Upload<Seq<char>>, reply: Reply<Seq<char>>) -> UploadStage<
    Seq<char>,
> {
    match (u.stage, reply) {
        (UploadStage::MakeStaging, Reply::Ran { ran: Ok(out), late }) => if out.exit_code == 0 {
            UploadStage::Send
        } else {
            UploadStage::Ended {
                result: Err(
                    "k8s upload: staging mkdir "@ + STAGING_DIR@ + " failed (exit "@
                        + text::signed_dec(out.exit_code as int) + "): "@ + out.stderr,
                ),
            }
        },
        (UploadStage::MakeStaging, Reply::Ran { ran: Err(e), late }) => UploadStage::Ended {
            result: Err(e),
        },
        (UploadStage::Send, Reply::Done { done: Ok(_), late }) => UploadStage::Inject,
        (UploadStage::Send, Reply::Done { done: Err(e), late }) => UploadStage::Ended {
            result: Err(
                "k8s upload: leg A sftp to staging "@ + u.staging + " failed: "@ + e,
            ),
        },
        (UploadStage::Inject, Reply::Ran { ran, late }) => UploadStage::Unstage { injected: ran },
        (UploadStage::Unstage { injected }, Reply::Ran { ran, late }) => match injected {
            Ok(out) => if out.exit_code == 0 {
                UploadStage::Regroup
            } else {
                UploadStage::Remove {
                    error: "k8s upload: leg B kubectl exec -i failed (exit "@ + text::signed_dec(
                        out.exit_code as int,
                    ) + "): "@ + out.stderr,
                }
            },
            Err(e) => UploadStage::Remove { error: e },
        },
        (UploadStage::Regroup, Reply::Ran { ran: Ok(out), late }) => if out.exit_code == 0 {
            UploadStage::Ended { result: Ok(()) }
        } else {
            UploadStage::Remove {
                error: "k8s upload: chgrp "@ + OSS_GROUP@ + " failed (exec 用户可能不在 "@
                    + OSS_GROUP@ + " 组): "@ + out.stderr,
            }
        },
        (UploadStage::Regroup, Reply::Ran { ran: Err(e), late }) => UploadStage::Remove { error: e },
        (UploadStage::Remove { error }, Reply::Ran { ran, late }) => UploadStage::Ended {
            result: Err(error),
        },
        (stage, _) => stage,
    }
}

impl Upload<String> {
    /// What the copy asks for.
    pub fn request(&self) -> (r: Action<String>)
        ensures
            r@ == upload_request(self@),
    {
        match &self.stage {
            UploadStage::MakeStaging => Action::Run {
                site: Site::Host,
                cmd: "mkdir -p ".to_owned().concat(ssh::shell_quote_single(STAGING_DIR).as_str()),
                secs: None,
            },
            UploadStage::Send => Action::Upload {
                site: Site::Host,
                local: self.local.clone(),
                remote: self.staging.clone(),
            },
            UploadStage::Inject => Action::Run {
                site: Site::Host,
                cmd: self.inject_text(),
                secs: None,
            },
            UploadStage::Unstage { injected: _ } => Action::Run {
                site: Site::Host,
                cmd: rm_text(self.staging.as_str()),
                secs: None,
            },
            UploadStage::Regroup => Action::Run {
                site: Site::Host,
                cmd: self.in_pod(self.regroup_text().as_str()),
                secs: None,
            },
            UploadStage::Remove { error: _ } => Action::Run {
                site: Site::Host,
                cmd: self.in_pod(rm_text(self.remote.as_str()).as_str()),
                secs: None,
            },
            UploadStage::Ended { result: _ } => Action::Finished,
        }
    }

    fn in_pod(&self, cmd: &str) -> (r: String)
        ensures
            r@ == exec_in(self.pod@, text::opt(self.namespace), text::opt(self.container), cmd@),
    {
        wrap_exec_in(
            self.pod.as_str(),
            text::as_str_opt(&self.namespace),
            text::as_str_opt(&self.container),
            cmd,
        )
    }

    fn inject_text(&self) -> (r: String)
        ensures
            r@ == inject_command(self@),
    {
        let inner: String = "mkdir -p ".to_owned().concat(
            ssh::shell_quote_single(directory(self.remote.as_str()).as_str()).as_str(),
        ).concat(" && cat > ").concat(ssh::shell_quote_single(self.remote.as_str()).as_str());
        "kubectl exec -i ".to_owned().concat(
            place_flags_text(
                text::as_str_opt(&self.namespace),
                text::as_str_opt(&self.container),
            ).as_str(),
        ).concat(ssh::shell_quote_single(self.pod.as_str()).as_str()).concat(" -- sh -c ").concat(
            ssh::shell_quote_single(inner.as_str()).as_str(),
        ).concat(" < ").concat(ssh::shell_quote_single(self.staging.as_str()).as_str())
    }

    fn regroup_text(&self) -> (r: String)
        ensures
            r@ == regroup_command(self@),
    {
        let q: String = ssh::shell_quote_single(self.remote.as_str());
        "chgrp ".to_owned().concat(OSS_GROUP).concat(" ").concat(q.as_str()).concat(
            " && chmod g+r ",
        ).concat(q.as_str())
    }

    /// Takes the reply to what was asked for.
    pub fn step(&mut self, reply: Reply<String>)
        ensures
            final(self)@ == (Upload { stage: upload_next(old(self)@, reply@), ..old(self)@ }),
    {
        let next: Option<UploadStage<String>> = match (&self.stage, reply) {
            (UploadStage::MakeStaging, Reply::Ran { ran: Ok(out), late: _ }) => if out.exit_code
                == 0 {
                Some(UploadStage::Send)
            } else {
                Some(
                    UploadStage::Ended {
                        result: Err(
                            "k8s upload: staging mkdir ".to_owned().concat(STAGING_DIR).concat(
                                " failed (exit ",
                            ).concat(text::i64_text(out.exit_code as i64).as_str()).concat(
                                "): ",
                            ).concat(out.stderr.as_str()),
                        ),
                    },
                )
            },
            (UploadStage::MakeStaging, Reply::Ran { ran: Err(e), late: _ }) => Some(
                UploadStage::Ended { result: Err(e) },
            ),
            (UploadStage::Send, Reply::Done { done: Ok(_), late: _ }) => Some(UploadStage::Inject),
            (UploadStage::Send, Reply::Done { done: Err(e), late: _ }) => Some(
                UploadStage::Ended {
                    result: Err(
                        "k8s upload: leg A sftp to staging ".to_owned().concat(
                            self.staging.as_str(),
                        ).concat(" failed: ").concat(e.as_str()),
                    ),
                },
            ),
            (UploadStage::Inject, Reply::Ran { ran, late: _ }) => Some(
                UploadStage::Unstage { injected: ran },
            ),
            (UploadStage::Unstage { injected }, Reply::Ran { ran: _, late: _ }) => match injected {
                Ok(out) => if out.exit_code == 0 {
                    Some(UploadStage::Regroup)
                } else {
                    Some(
                        UploadStage::Remove {
                            error: "k8s upload: leg B kubectl exec -i failed (exit ".to_owned().concat(
                                text::i64_text(out.exit_code as i64).as_str(),
                            ).concat("): ").concat(out.stderr.as_str()),
                        },
                    )
                },
                Err(e) => Some(UploadStage::Remove { error: e.clone() }),
            },
            (UploadStage::Regroup, Reply::Ran { ran: Ok(out), late: _ }) => if out.exit_code == 0 {
                Some(UploadStage::Ended { result: Ok(()) })
            } else {
                Some(
                    UploadStage::Remove {
                        error: "k8s upload: chgrp ".to_owned().concat(OSS_GROUP).concat(
                            " failed (exec 用户可能不在 ",
                        ).concat(OSS_GROUP).concat(" 组): ").concat(out.stderr.as_str()),
                    },
                )
            },
            (UploadStage::Regroup, Reply::Ran { ran: Err(e), late: _ }) => Some(
                UploadStage::Remove { error: e },
            ),
            (UploadStage::Remove { error }, Reply::Ran { ran: _, late: _ }) => Some(
                UploadStage::Ended { result: Err(error.clone()) },
            ),
            _ => None,
        };
        if let Some(stage) = next {
            self.stage = stage;
        }
    }
}

// ---------------------------------------------------------------------------------------------
// Copying out of a container
// ---------------------------------------------------------------------------------------------

/// Where a copy out of a container stands.
#[derive(Debug, PartialEq, Eq)]
pub enum DownloadStage<S> {
    /// Ask the container for the size of the file.
    Stat,
    /// Count the bytes of the file, in a container without `stat`.
    Count,
    /// First leg: from the container to the staging file.
    Cat { size: u64 },
    /// Remove the broken staging file, then fail.
    Discard { error: S },
    /// Second leg: from the staging file to the local file.
    Fetch { size: u64 },
    /// Remove the staging file.
    Unstage { size: u64 },
    /// Hold the size of the local file against that of the file in the container.
    Measure { size: u64 },
    /// It is over.
    Ended { result: Result<(), S> },
}

/// A copy of a file of a container to a local file.
#[derive(Debug, PartialEq, Eq)]
pub struct Download<S> {
    pub pod: S,
    pub namespace: Option<S>,
    pub container: Option<S>,
    pub remote: S,
    pub local: S,
    pub offset: u64,
    pub staging: S,
    pub stage: DownloadStage<S>,
}

impl View for DownloadStage<String> {
    type V = DownloadStage<Seq<char>>;

    open spec fn view(&self) -> DownloadStage<Seq<char>> {
        match *self {
            DownloadStage::Stat => DownloadStage::Stat,
            DownloadStage::Count => DownloadStage::Count,
            DownloadStage::Cat { size } => DownloadStage::Cat { size },
            DownloadStage::Discard { error } => DownloadStage::Discard { error: error@ },
            DownloadStage::Fetch { size } => DownloadStage::Fetch { size },
            DownloadStage::Unstage { size } => DownloadStage::Unstage { size },
            DownloadStage::Measure { size } => DownloadStage::Measure { size },
            DownloadStage::Ended { result } => DownloadStage::Ended {
                result: crate::flow::view_unit(result),
            },
        }
    }
}

impl View for Download<String> {
    type V = Download<Seq<char>>;

    open spec fn view(&self) -> Download<Seq<char>> {
        Download {
            pod: self.pod@,
            namespace: text::opt(self.namespace),
            container: text::opt(self.container),
            remote: self.remote@,
            local: self.local@,
            offset: self.offset,
            staging: self.staging@,
            stage: self.stage@,
        }
    }
}

/// A copy out of a container that has not begun.
pub open spec fn download_start(
    pod: Seq<char>,
    namespace: Option<Seq<char>>,
    container: Option<Seq<char>>,
    remote: Seq<char>,
    local: Seq<char>,
    offset: u64,
    id: Seq<char>,
) -> Download<Seq<char>> {
    Download {
        pod,
        namespace,
        container,
        remote,
        local,
        offset,
        staging: staging_path(id, remote),
        stage: DownloadStage::Stat,
    }
}

/// The command that prints the size of a file.
pub open spec fn stat_command(path: Seq<char>) -> Seq<char> {
    "stat -c %s "@ + ssh::shell_quote(path)
}

/// The command that prints the size of a file.
pub fn stat_text(path: &str) -> (r: String)
    ensures
        r@ == stat_command(path@),
{
    "stat -c %s ".to_owned().concat(ssh::shell_quote_single(path).as_str())
}

/// The command that counts the bytes of a file, for where there is no `stat`.
pub open spec fn count_command(path: Seq<char>) -> Seq<char> {
    "wc -c < "@ + ssh::shell_quote(path)
}

/// The command that counts the bytes of a file, for where there is no `stat`.
pub fn count_text(path: &str) -> (r: String)
    ensures
        r@ == count_command(path@),
{
    "wc -c < ".to_owned().concat(ssh::shell_quote_single(path).as_str())
}

/// Whether a shell did not find the program that it was to run.
pub open spec fn lacks_program(out: Output<Seq<char>>) -> bool {
    out.exit_code == PROGRAM_NOT_FOUND
}

/// What a copy out of a container asks for where it stands.
pub open spec fn download_request(d: Download<Seq<char>>) -> Action<Seq<char>> {
    match d.stage {
        DownloadStage::Stat => on_host(exec_in(d.pod, d.namespace, d.container, stat_command(d.remote))),
        DownloadStage::Count => on_host(
            exec_in(d.pod, d.namespace, d.container, count_command(d.remote)),
        ),
        DownloadStage::Cat { size } => on_host(
            "kubectl exec "@ + place_flags(d.namespace, d.container) + ssh::shell_quote(d.pod) + " -- cat "@
                + ssh::shell_quote(d.remote) + " > "@ + ssh::shell_quote(d.staging),
        ),
        DownloadStage::Discard { error } => on_host(rm_command(d.staging)),
        DownloadStage::Fetch { size } => Action::Download {
            remote: d.staging,
            local: d.local,
            offset: d.offset,
        },
        DownloadStage::Unstage { size } => on_host(rm_command(d.staging)),
        DownloadStage::Measure { size } => Action::LocalSize { path: d.local },
        DownloadStage::Ended { result } => Action::Finished,
    }
}

/// The local size that a reply reports; zero where it could not be found out.
pub open spec fn reported_size(number: Result<u64, Seq<char>>) -> u64 {
    match number {
        Ok(n) => n,
        Err(_) => 0,
    }
}

/// The size of the file could not be asked for.
pub open spec fn size_lost(remote: Seq<char>, e: Seq<char>) -> Seq<char> {
    "k8s download: stat "@ + remote + " failed: "@ + e
}

/// Where a size that was printed leads, or one that was not.
pub open spec fn download_sized(d: Download<Seq<char>>, out: Output<Seq<char>>) -> DownloadStage<
    Seq<char>,
> {
    if out.exit_code != 0 {
        DownloadStage::Ended {
            result: Err(
                "k8s download: 容器内文件不存在或不可读 "@ + d.remote + " (exit "@
                    + text::signed_dec(out.exit_code as int) + "): "@ + out.stderr,
            ),
        }
    } else {
        match text::parse_uint(text::trimmed(out.stdout), u64::MAX as nat) {
            Some(n) => DownloadStage::Cat { size: n as u64 },
            None => DownloadStage::Ended {
                result: Err("k8s download: unexpected stat output: "@ + text::quoted(out.stdout)),
            },
        }
    }
}

/// The stage that a copy out of a container reaches by a reply.
pub open spec fn download_next(d: Download<Seq<char>>, reply: Reply<Seq<char>>) -> DownloadStage<
    Seq<char>,
> {
    match (d.stage, reply) {
        (DownloadStage::Stat, Reply::Ran { ran: Ok(out), late }) => if lacks_program(out) {
            DownloadStage::Count
        } else {
            download_sized(d, out)
        },
        (DownloadStage::Stat, Reply::Ran { ran: Err(e), late }) => DownloadStage::Ended {
            result: Err(size_lost(d.remote, e)),
        },
        (DownloadStage::Count, Reply::Ran { ran: Ok(out), late }) => download_sized(d, out),
        (DownloadStage::Count, Reply::Ran { ran: Err(e), late }) => DownloadStage::Ended {
            result: Err(size_lost(d.remote, e)),
        },
        (DownloadStage::Cat { size }, Reply::Ran { ran: Ok(out), late }) => if out.exit_code == 0 {
            DownloadStage::Fetch { size }
        } else {
            DownloadStage::Discard {
                error: "k8s download: leg 1 (kubectl exec cat) failed (exit "@ + text::signed_dec(
                    out.exit_code as int,
                ) + "): "@ + out.stderr,
            }
        },
        (DownloadStage::Cat { size }, Reply::Ran { ran: Err(e), late }) => DownloadStage::Discard {
            error: e,
        },
        (DownloadStage::Discard { error }, Reply::Ran { ran, late }) => DownloadStage::Ended {
            result: Err(error),
        },
        (DownloadStage::Fetch { size }, Reply::Done { done: Ok(_), late }) => DownloadStage::Unstage {
            size,
        },
        (DownloadStage::Fetch { size }, Reply::Done { done: Err(e), late }) => DownloadStage::Ended {
            result: Err(
                "k8s download: leg 2 (sftp from host staging "@ + d.staging + ") failed: "@ + e,
            ),
        },
        (DownloadStage::Unstage { size }, Reply::Ran { ran, late }) => DownloadStage::Measure {
            size,
        },
        (DownloadStage::Measure { size }, Reply::Number { number }) => if reported_size(number)
            == size {
            DownloadStage::Ended { result: Ok(()) }
        } else {
            DownloadStage::Ended {
                result: Err(
                    "k8s download: size mismatch (pod "@ + text::dec(size as nat)
                        + " bytes, local "@ + text::dec(reported_size(number) as nat)
                        + " bytes) for "@ + d.remote,
                ),
            }
        },
        (stage, _) => stage,
    }
}

fn size_lost_text(remote: &str, e: &str) -> (r: String)
    ensures
        r@ == size_lost(remote@, e@),
{
    "k8s download: stat ".to_owned().concat(remote).concat(" failed: ").concat(e)
}

impl Download<String> {
    fn in_pod(&self, cmd: &str) -> (r: String)
        ensures
            r@ == exec_in(self.pod@, text::opt(self.namespace), text::opt(self.container), cmd@),
    {
        wrap_exec_in(
            self.pod.as_str(),
            text::as_str_opt(&self.namespace),
            text::as_str_opt(&self.container),
            cmd,
        )
    }

    fn sized(&self, out: Output<String>) -> (r: DownloadStage<String>)
        ensures
            r@ == download_sized(self@, out@),
    {
        if out.exit_code != 0 {
            return DownloadStage::Ended {
                result: Err(
                    "k8s download: 容器内文件不存在或不可读 ".to_owned().concat(
                        self.remote.as_str(),
                    ).concat(" (exit ").concat(
                        text::i64_text(out.exit_code as i64).as_str(),
                    ).concat("): ").concat(out.stderr.as_str()),
                ),
            };
        }
        match text::parse_number(text::trim(out.stdout.as_str()).as_str(), u64::MAX) {
            Some(size) => DownloadStage::Cat { size },
            None => DownloadStage::Ended {
                result: Err(
                    "k8s download: unexpected stat output: ".to_owned().concat(
                        text::debug_text(out.stdout.as_str()).as_str(),
                    ),
                ),
            },
        }
    }

    /// What the copy asks for.
    pub fn request(&self) -> (r: Action<String>)
        ensures
            r@ == download_request(self@),
    {
        match &self.stage {
            DownloadStage::Stat => Action::Run {
                site: Site::Host,
                cmd: self.in_pod(stat_text(self.remote.as_str()).as_str()),
                secs: None,
            },
            DownloadStage::Count => Action::Run {
                site: Site::Host,
                cmd: self.in_pod(count_text(self.remote.as_str()).as_str()),
                secs: None,
            },
            DownloadStage::Cat { size: _ } => Action::Run {
                site: Site::Host,
                cmd: "kubectl exec ".to_owned().concat(
                    place_flags_text(
                        text::as_str_opt(&self.namespace),
                        text::as_str_opt(&self.container),
                    ).as_str(),
                ).concat(ssh::shell_quote_single(self.pod.as_str()).as_str()).concat(
                    " -- cat ",
                ).concat(ssh::shell_quote_single(self.remote.as_str()).as_str()).concat(
                    " > ",
                ).concat(ssh::shell_quote_single(self.staging.as_str()).as_str()),
                secs: None,
            },
            DownloadStage::Discard { error: _ } => Action::Run {
                site: Site::Host,
                cmd: rm_text(self.staging.as_str()),
                secs: None,
            },
            DownloadStage::Fetch { size: _ } => Action::Download {
                remote: self.staging.clone(),
                local: self.local.clone(),
                offset: self.offset,
            },
            DownloadStage::Unstage { size: _ } => Action::Run {
                site: Site::Host,
                cmd: rm_text(self.staging.as_str()),
                secs: None,
            },
            DownloadStage::Measure { size: _ } => Action::LocalSize { path: self.local.clone() },
            DownloadStage::Ended { result: _ } => Action::Finished,
        }
    }

    /// Takes the reply to what was asked for.
    pub fn step(&mut self, reply: Reply<String>)
        ensures
            final(self)@ == (Download { stage: download_next(old(self)@, reply@), ..old(self)@ }),
    {
        let next: Option<DownloadStage<String>> = match (&self.stage, reply) {
            (DownloadStage::Stat, Reply::Ran { ran: Ok(out), late: _ }) => if out.exit_code
                == PROGRAM_NOT_FOUND {
                Some(DownloadStage::Count)
            } else {
                Some(self.sized(out))
            },
            (DownloadStage::Stat, Reply::Ran { ran: Err(e), late: _ }) => Some(
                DownloadStage::Ended {
                    result: Err(size_lost_text(self.remote.as_str(), e.as_str())),
                },
            ),
            (DownloadStage::Count, Reply::Ran { ran: Ok(out), late: _ }) => Some(self.sized(out)),
            (DownloadStage::Count, Reply::Ran { ran: Err(e), late: _ }) => Some(
                DownloadStage::Ended {
                    result: Err(size_lost_text(self.remote.as_str(), e.as_str())),
                },
            ),
            (DownloadStage::Cat { size }, Reply::Ran { ran: Ok(out), late: _ }) => if out.exit_code
                == 0 {
                Some(DownloadStage::Fetch { size: *size })
            } else {
                Some(
                    DownloadStage::Discard {
                        error: "k8s download: leg 1 (kubectl exec cat) failed (exit ".to_owned().concat(
                            text::i64_text(out.exit_code as i64).as_str(),
                        ).concat("): ").concat(out.stderr.as_str()),
                    },
                )
            },
            (DownloadStage::Cat { size: _ }, Reply::Ran { ran: Err(e), late: _ }) => Some(
                DownloadStage::Discard { error: e },
            ),
            (DownloadStage::Discard { error }, Reply::Ran { ran: _, late: _ }) => Some(
                DownloadStage::Ended { result: Err(error.clone()) },
            ),
            (DownloadStage::Fetch { size }, Reply::Done { done: Ok(_), late: _ }) => Some(
                DownloadStage::Unstage { size: *size },
            ),
            (DownloadStage::Fetch { size: _ }, Reply::Done { done: Err(e), late: _ }) => Some(
                DownloadStage::Ended {
                    result: Err(
                        "k8s download: leg 2 (sftp from host staging ".to_owned().concat(
                            self.staging.as_str(),
                        ).concat(") failed: ").concat(e.as_str()),
                    ),
                },
            ),
            (DownloadStage::Unstage { size }, Reply::Ran { ran: _, late: _ }) => Some(
                DownloadStage::Measure { size: *size },
            ),
            (DownloadStage::Measure { size }, Reply::Number { number }) => {
                let local_size: u64 = match number {
                    Ok(n) => n,
                    Err(_) => 0,
                };
                if local_size == *size {
                    Some(DownloadStage::Ended { result: Ok(()) })
                } else {
                    Some(
                        DownloadStage::Ended {
                            result: Err(
                                "k8s download: size mismatch (pod ".to_owned().concat(
                                    text::u64_text(*size).as_str(),
                                ).concat(" bytes, local ").concat(
                                    text::u64_text(local_size).as_str(),
                                ).concat(" bytes) for ").concat(self.remote.as_str()),
                            ),
                        },
                    )
                }
            },
            _ => None,
        };
        if let Some(stage) = next {
            self.stage = stage;
        }
    }
}

// ---------------------------------------------------------------------------------------------
// What holds of every transfer
// ---------------------------------------------------------------------------------------------

/// A copy into a container succeeds only when the group of the file was changed with exit code
/// zero, after everything before it.
pub proof fn law_upload_success(u: Upload<Seq<char>>, reply: Reply<Seq<char>>)
    requires
        u.stage !is Ended,
        upload_next(u, reply) == (UploadStage::<Seq<char>>::Ended { result: Ok(()) }),
    ensures
        u.stage is Regroup,
        reply matches Reply::Ran { ran: Ok(out), late } && out.exit_code == 0,
{
}

/// The group is changed only when the staging file was removed after a second leg that ended
/// with exit code zero.
pub proof fn law_upload_regroup_after_inject(u: Upload<Seq<char>>, reply: Reply<Seq<char>>)
    requires
        u.stage !is Regroup,
        upload_next(u, reply) is Regroup,
    ensures
        u.stage matches UploadStage::Unstage { injected: Ok(out) } && out.exit_code == 0,
{
}

/// The staging file is removed once the second leg has ended, with whatever exit code, or could
/// not be run at all.
pub proof fn law_upload_unstages(u: Upload<Seq<char>>, reply: Reply<Seq<char>>)
    requires
        u.stage is Inject,
        reply is Ran,
    ensures
        upload_request(Upload { stage: upload_next(u, reply), ..u }) == on_host(
            rm_command(u.staging),
        ),
{
}

/// Whether a command could not be run, or ended with an exit code other than zero.
pub open spec fn failed_run(ran: Result<Output<Seq<char>>, Seq<char>>) -> bool {
    match ran {
        Ok(out) => out.exit_code != 0,
        Err(_) => true,
    }
}

/// A copy that failed in the second leg or in the change of group removes the file from the
/// container before it ends in an error.
pub proof fn law_failed_upload_removes_target(
    u: Upload<Seq<char>>,
    first: Reply<Seq<char>>,
    second: Reply<Seq<char>>,
)
    requires
        ({
            ||| (u.stage matches UploadStage::Unstage { injected } && failed_run(injected)
                && first is Ran)
            ||| (u.stage is Regroup && (first matches Reply::Ran { ran, late: _ } && failed_run(
                ran,
            )))
        }),
        second is Ran,
    ensures
        ({
            let failed = Upload { stage: upload_next(u, first), ..u };
            let ended = Upload { stage: upload_next(failed, second), ..failed };
            &&& upload_request(failed) == on_host(
                exec_in(u.pod, u.namespace, u.container, rm_command(u.remote)),
            )
            &&& ended.stage matches UploadStage::Ended { result: Err(_) }
        }),
{
}

/// An ended copy into a container stays as it is.
pub proof fn law_upload_end_is_final(u: Upload<Seq<char>>, reply: Reply<Seq<char>>)
    requires
        u.stage is Ended,
    ensures
        upload_next(u, reply) == u.stage,
        upload_request(u) is Finished,
{
}

/// The size that a copy out of a container is to have.
pub open spec fn expected_size(stage: DownloadStage<Seq<char>>) -> Option<u64> {
    match stage {
        DownloadStage::Cat { size } => Some(size),
        DownloadStage::Fetch { size } => Some(size),
        DownloadStage::Unstage { size } => Some(size),
        DownloadStage::Measure { size } => Some(size),
        _ => None,
    }
}

/// The size that the container reported is the one that the local file is held against: no step
/// on the way changes it.
pub proof fn law_download_keeps_size(d: Download<Seq<char>>, reply: Reply<Seq<char>>)
    requires
        expected_size(d.stage) is Some,
        expected_size(download_next(d, reply)) is Some,
    ensures
        expected_size(download_next(d, reply)) == expected_size(d.stage),
{
}

/// The bytes of the file are counted only in a container that has no `stat`.
pub proof fn law_counts_only_without_stat(d: Download<Seq<char>>, reply: Reply<Seq<char>>)
    requires
        d.stage !is Count,
        download_next(d, reply) is Count,
    ensures
        d.stage is Stat,
        reply matches Reply::Ran { ran: Ok(out), late: _ } && lacks_program(out),
{
}

/// A copy out of a container succeeds only when the local file is as large as the container said.
pub proof fn law_download_success(d: Download<Seq<char>>, reply: Reply<Seq<char>>)
    requires
        d.stage !is Ended,
        download_next(d, reply) == (DownloadStage::<Seq<char>>::Ended { result: Ok(()) }),
    ensures
        d.stage is Measure,
        reply matches Reply::Number { number } && expected_size(d.stage) == Some(
            reported_size(number),
        ),
{
}

/// A first leg that failed removes its staging file before the copy ends in an error.
pub proof fn law_failed_download_unstages(
    d: Download<Seq<char>>,
    first: Reply<Seq<char>>,
    second: Reply<Seq<char>>,
)
    requires
        d.stage is Cat,
        first matches Reply::Ran { ran, late: _ } && failed_run(ran),
        second is Ran,
    ensures
        ({
            let failed = Download { stage: download_next(d, first), ..d };
            let ended = Download { stage: download_next(failed, second), ..failed };
            &&& download_request(failed) == on_host(rm_command(d.staging))
            &&& ended.stage matches DownloadStage::Ended { result: Err(_) }
        }),
{
}

/// An ended copy out of a container stays as it is.
pub proof fn law_download_end_is_final(d: Download<Seq<char>>, reply: Reply<Seq<char>>)
    requires
        d.stage is Ended,
    ensures
        download_next(d, reply) == d.stage,
        download_request(d) is Finished,
{
}

// ---------------------------------------------------------------------------------------------
// What holds of a whole transfer
// ---------------------------------------------------------------------------------------------

/// A copy into a container after replies.
pub open spec fn upload_run(u: Upload<Seq<char>>, replies: Seq<Reply<Seq<char>>>) -> Upload<
    Seq<char>,
>
    decreases replies.len(),
{
    if replies.len() == 0 {
        u
    } else {
        let before = upload_run(u, replies.drop_last());
        Upload { stage: upload_next(before, replies.last()), ..before }
    }
}

/// What a copy into a container asked for until then, each thing once.
pub open spec fn upload_asked(u: Upload<Seq<char>>, replies: Seq<Reply<Seq<char>>>) -> Seq<
    Action<Seq<char>>,
>
    decreases replies.len(),
{
    if replies.len() == 0 {
        seq![upload_request(u)]
    } else {
        let before = upload_run(u, replies.drop_last());
        let after = upload_run(u, replies);
        let asked = upload_asked(u, replies.drop_last());
        if after.stage == before.stage {
            asked
        } else {
            asked.push(upload_request(after))
        }
    }
}

/// What a copy into a container asks for when all goes well: to make the staging directory, to
/// bring the file there, to write it in the container, to remove it from the staging directory,
/// and to give it to the group of the JVM.
pub open spec fn upload_path(u: Upload<Seq<char>>) -> Seq<Action<Seq<char>>> {
    seq![
        on_host("mkdir -p "@ + ssh::shell_quote(STAGING_DIR@)),
        Action::Upload { site: Site::Host, local: u.local, remote: u.staging },
        on_host(inject_command(u)),
        on_host(rm_command(u.staging)),
        on_host(exec_in(u.pod, u.namespace, u.container, regroup_command(u))),
    ]
}

/// The removal of the file from the container.
pub open spec fn upload_removal(u: Upload<Seq<char>>) -> Action<Seq<char>> {
    on_host(exec_in(u.pod, u.namespace, u.container, rm_command(u.remote)))
}

proof fn lemma_upload_run(u: Upload<Seq<char>>, replies: Seq<Reply<Seq<char>>>)
    requires
        u.stage is MakeStaging,
    ensures
        ({
            let end = upload_run(u, replies);
            let asked = upload_asked(u, replies);
            let path = upload_path(u);
            &&& end == (Upload { stage: end.stage, ..u })
            &&& match end.stage {
                UploadStage::MakeStaging => asked == path.take(1),
                UploadStage::Send => asked == path.take(2),
                UploadStage::Inject => asked == path.take(3),
                UploadStage::Unstage { injected } => asked == path.take(4),
                UploadStage::Regroup => asked == path,
                UploadStage::Remove { error } => asked == path.take(4).push(upload_removal(u))
                    || asked == path.push(upload_removal(u)),
                UploadStage::Ended { result: Ok(_) } => asked == path.push(Action::Finished),
                UploadStage::Ended { result: Err(_) } => {
                    ||| asked == path.take(1).push(Action::Finished)
                    ||| asked == path.take(2).push(Action::Finished)
                    ||| asked == path.take(4).push(upload_removal(u)).push(Action::Finished)
                    ||| asked == path.push(upload_removal(u)).push(Action::Finished)
                },
            }
        }),
    decreases replies.len(),
{
    let path = upload_path(u);
    assert(path.take(5) =~= path);
    if replies.len() == 0 {
        assert(upload_asked(u, replies) =~= path.take(1));
    } else {
        let rest = replies.drop_last();
        lemma_upload_run(u, rest);
        let before = upload_run(u, rest);
        let after = upload_run(u, replies);
        let asked = upload_asked(u, rest);
        assert(path.take(2) =~= path.take(1).push(path[1]));
        assert(path.take(3) =~= path.take(2).push(path[2]));
        assert(path.take(4) =~= path.take(3).push(path[3]));
        assert(path.take(5) =~= path.take(4).push(path[4]));
        match before.stage {
            UploadStage::MakeStaging => {
                assert(after.stage is Ended ==> upload_asked(u, replies) == path.take(1).push(
                    Action::Finished,
                ));
            },
            UploadStage::Send => {
                assert(after.stage is Ended ==> upload_asked(u, replies) == path.take(2).push(
                    Action::Finished,
                ));
            },
            _ => {},
        }
    }
}

/// Over a whole run, a copy into a container that succeeds has asked for the five things that
/// [`upload_path`] names, in that order, and for nothing else.
pub proof fn law_upload_in_order(u: Upload<Seq<char>>, replies: Seq<Reply<Seq<char>>>)
    requires
        u.stage is MakeStaging,
        upload_run(u, replies).stage matches UploadStage::Ended { result: Ok(_) },
    ensures
        upload_asked(u, replies) == upload_path(u).push(Action::Finished),
{
    lemma_upload_run(u, replies);
}

/// Over a whole run, a copy into a container that fails leaves nothing behind that it could remove:
/// it failed before the second leg, or it went along [`upload_path`] at least up to the removal of
/// the staging file, and then asked for the removal of the file from the container as the last
/// thing.
pub proof fn law_failed_upload_leaves_nothing_else(
    u: Upload<Seq<char>>,
    replies: Seq<Reply<Seq<char>>>,
)
    requires
        u.stage is MakeStaging,
        upload_run(u, replies).stage matches UploadStage::Ended { result: Err(_) },
    ensures
        ({
            let asked = upload_asked(u, replies);
            let path = upload_path(u);
            ||| asked == path.take(1).push(Action::Finished)
            ||| asked == path.take(2).push(Action::Finished)
            ||| asked == path.take(4).push(upload_removal(u)).push(Action::Finished)
            ||| asked == path.push(upload_removal(u)).push(Action::Finished)
        }),
{
    lemma_upload_run(u, replies);
}

/// A copy out of a container after replies.
pub open spec fn download_run(d: Download<Seq<char>>, replies: Seq<Reply<Seq<char>>>) -> Download<
    Seq<char>,
>
    decreases replies.len(),
{
    if replies.len() == 0 {
        d
    } else {
        let before = download_run(d, replies.drop_last());
        Download { stage: download_next(before, replies.last()), ..before }
    }
}

/// What a copy out of a container asked for until then, each thing once.
pub open spec fn download_asked(d: Download<Seq<char>>, replies: Seq<Reply<Seq<char>>>) -> Seq<
    Action<Seq<char>>,
>
    decreases replies.len(),
{
    if replies.len() == 0 {
        seq![download_request(d)]
    } else {
        let before = download_run(d, replies.drop_last());
        let after = download_run(d, replies);
        let asked = download_asked(d, replies.drop_last());
        if after.stage == before.stage {
            asked
        } else {
            asked.push(download_request(after))
        }
    }
}

/// What a copy out of a container asks for when all goes well: the size of the file, once more by
/// counting where the container has no `stat`, to write it to the staging directory, to bring it
/// from there, to remove it there, and the size of what came.
pub open spec fn download_path(d: Download<Seq<char>>, counted: bool) -> Seq<Action<Seq<char>>> {
    let asked = seq![
        on_host(exec_in(d.pod, d.namespace, d.container, stat_command(d.remote))),
    ];
    let counting = if counted {
        asked.push(on_host(exec_in(d.pod, d.namespace, d.container, count_command(d.remote))))
    } else {
        asked
    };
    counting.push(
        on_host(
            "kubectl exec "@ + place_flags(d.namespace, d.container) + ssh::shell_quote(d.pod)
                + " -- cat "@ + ssh::shell_quote(d.remote) + " > "@ + ssh::shell_quote(d.staging),
        ),
    ).push(Action::Download { remote: d.staging, local: d.local, offset: d.offset }).push(
        on_host(rm_command(d.staging)),
    ).push(Action::LocalSize { path: d.local })
}

/// Whether what was asked for goes along [`download_path`] up to the last `left` things.
pub open spec fn downloads_along(
    d: Download<Seq<char>>,
    asked: Seq<Action<Seq<char>>>,
    left: int,
) -> bool {
    ||| asked == download_path(d, false).take(5 - left)
    ||| asked == download_path(d, true).take(6 - left)
}

/// Whether one of the replies is an output that gives a size.
pub open spec fn size_was_said(replies: Seq<Reply<Seq<char>>>, size: u64) -> bool {
    exists|i: int| 0 <= i < replies.len() && says_size(#[trigger] replies[i], size)
}

/// Whether a reply is an output that gives a size.
pub open spec fn says_size(reply: Reply<Seq<char>>, size: u64) -> bool {
    reply matches Reply::Ran { ran: Ok(out), late: _ } && out.exit_code == 0 && text::parse_uint(
        text::trimmed(out.stdout),
        u64::MAX as nat,
    ) == Some(size as nat)
}

proof fn lemma_download_run(d: Download<Seq<char>>, replies: Seq<Reply<Seq<char>>>)
    requires
        d.stage is Stat,
    ensures
        ({
            let end = download_run(d, replies);
            let asked = download_asked(d, replies);
            &&& end == (Download { stage: end.stage, ..d })
            &&& expected_size(end.stage) matches Some(size) ==> size_was_said(replies, size)
            &&& match end.stage {
                DownloadStage::Stat => asked == download_path(d, false).take(1),
                DownloadStage::Count => asked == download_path(d, true).take(2),
                DownloadStage::Cat { size } => downloads_along(d, asked, 3),
                DownloadStage::Fetch { size } => downloads_along(d, asked, 2),
                DownloadStage::Unstage { size } => downloads_along(d, asked, 1),
                DownloadStage::Measure { size } => downloads_along(d, asked, 0),
                DownloadStage::Discard { error } => asked.len() > 0 && asked.last() == on_host(
                    rm_command(d.staging),
                ) && downloads_along(d, asked.drop_last(), 3),
                DownloadStage::Ended { result: Ok(_) } => asked.len() > 0 && asked.last()
                    is Finished && downloads_along(d, asked.drop_last(), 0),
                DownloadStage::Ended { result: Err(_) } => true,
            }
        }),
    decreases replies.len(),
{
    let short = download_path(d, false);
    let long = download_path(d, true);
    if replies.len() == 0 {
        assert(download_asked(d, replies) =~= short.take(1));
    } else {
        let rest = replies.drop_last();
        lemma_download_run(d, rest);
        if let Some(size) = expected_size(download_run(d, replies).stage) {
            if size_was_said(rest, size) {
                let i = choose|i: int| 0 <= i < rest.len() && says_size(#[trigger] rest[i], size);
                assert(says_size(replies[i], size));
            } else {
                assert(says_size(replies[replies.len() - 1], size));
            }
        }
        assert(long.take(1) =~= short.take(1));
        assert(long.take(2) =~= long.take(1).push(long[1]));
        assert(short.take(2) =~= short.take(1).push(short[1]));
        assert(long.take(3) =~= long.take(2).push(long[2]));
        assert(short.take(3) =~= short.take(2).push(short[2]));
        assert(long.take(4) =~= long.take(3).push(long[3]));
        assert(short.take(4) =~= short.take(3).push(short[3]));
        assert(long.take(5) =~= long.take(4).push(long[4]));
        assert(short.take(5) =~= short.take(4).push(short[4]));
        assert(long.take(6) =~= long.take(5).push(long[5]));
        let asked = download_asked(d, rest);
        let after = download_run(d, replies);
        assert(asked.push(download_request(after)).drop_last() =~= asked);
    }
}

/// Over a whole run, a copy out of a container that succeeds has asked for the things that
/// [`download_path`] names, in that order, and for nothing else: the local file was measured last,
/// and was as large as the container had said before.
pub proof fn law_download_in_order(
    d: Download<Seq<char>>,
    replies: Seq<Reply<Seq<char>>>,
    last: Reply<Seq<char>>,
)
    requires
        d.stage is Stat,
        download_run(d, replies).stage !is Ended,
        download_run(d, replies.push(last)).stage matches DownloadStage::Ended { result: Ok(_) },
    ensures
        ({
            let asked = download_asked(d, replies.push(last));
            ||| asked == download_path(d, false).push(Action::Finished)
            ||| asked == download_path(d, true).push(Action::Finished)
        }),
        last matches Reply::Number { number } && size_was_said(replies, reported_size(number)),
{
    assert(replies.push(last).drop_last() =~= replies);
    lemma_download_run(d, replies);
    lemma_download_run(d, replies.push(last));
    let asked = download_asked(d, replies.push(last));
    assert(asked =~= asked.drop_last().push(Action::Finished));
    assert(download_path(d, false).take(5) =~= download_path(d, false));
    assert(download_path(d, true).take(6) =~= download_path(d, true));
}

// ---------------------------------------------------------------------------------------------
// What the commands do
// ---------------------------------------------------------------------------------------------

/// A command for a pod begins with `kubectl exec`, names the namespace and the container that are
/// named, then the pod, and ends with the one word that the shell in the pod is handed: the command.
pub proof fn law_exec_hands_the_command_over(
    pod: Seq<char>,
    namespace: Option<Seq<char>>,
    container: Option<Seq<char>>,
    cmd: Seq<char>,
)
    ensures
        ({
            let whole = exec_in(pod, namespace, container, cmd);
            let tail = ssh::shell_quote(pod) + " -- sh -c "@ + ssh::shell_quote(cmd);
            &&& text::starts(whole, "kubectl exec "@)
            &&& namespace matches Some(n) ==> text::contains(whole, "-n "@ + ssh::shell_quote(n) + " "@)
            &&& container matches Some(c) ==> text::contains(whole, "-c "@ + ssh::shell_quote(c) + " "@)
            &&& text::contains(whole, tail)
            &&& whole.subrange(whole.len() - ssh::shell_quote(cmd).len(), whole.len() as int)
                == ssh::shell_quote(cmd)
            &&& ssh::sh_word(ssh::shell_quote(cmd), false) == Some(cmd)
            &&& ssh::sh_word(ssh::shell_quote(pod), false) == Some(pod)
            &&& namespace is None && container is None ==> whole == "kubectl exec "@ + tail
        }),
{
    let whole = exec_in(pod, namespace, container, cmd);
    let head = "kubectl exec "@;
    let flags = place_flags(namespace, container);
    let nf = namespace_flag(namespace);
    let cf = container_flag(container);
    let q = ssh::shell_quote(pod);
    let mid = " -- sh -c "@;
    let c = ssh::shell_quote(cmd);
    ssh::law_quote_round_trip(cmd);
    ssh::law_quote_round_trip(pod);
    let p1 = head + flags;
    let p2 = p1 + q;
    let p3 = p2 + mid;
    text::lemma_start(head, flags);
    text::lemma_start_kept(p1, head, q);
    text::lemma_start_kept(p2, head, mid);
    text::lemma_start_kept(p3, head, c);
    assert(p1 =~= head + nf + cf);
    text::lemma_contains(head, nf, cf);
    text::lemma_part_kept(p1, nf, q);
    text::lemma_part_kept(p2, nf, mid);
    text::lemma_part_kept(p3, nf, c);
    text::lemma_part(head + nf, cf);
    text::lemma_part_kept(p1, cf, q);
    text::lemma_part_kept(p2, cf, mid);
    text::lemma_part_kept(p3, cf, c);
    text::lemma_part_of_three(p1, q, mid, c);
    assert(whole.subrange(whole.len() - c.len(), whole.len() as int) =~= c);
    if namespace is None && container is None {
        assert(flags =~= Seq::<char>::empty());
        assert(p1 =~= head);
        assert(whole =~= head + (q + mid + c));
    }
}

/// A path is split at its last slash: into the directory and the name that it was put together from.
pub proof fn law_path_is_directory_and_name(dir: Seq<char>, name: Seq<char>)
    requires
        !name.contains('/'),
    ensures
        base_name(dir + seq!['/'] + name) == name,
        dir.len() > 0 ==> parent_dir(dir + seq!['/'] + name) == dir,
        dir.len() == 0 ==> parent_dir(dir + seq!['/'] + name) == "/"@,
        base_name(name) == name,
{
    lemma_last_slash_at(dir, name);
    lemma_no_slash(name);
    let whole = dir + seq!['/'] + name;
    assert(whole.subrange(dir.len() as int + 1, whole.len() as int) =~= name);
    assert(whole.subrange(0, dir.len() as int) =~= dir);
    assert(name.subrange(0, name.len() as int) =~= name);
}

proof fn lemma_no_slash(name: Seq<char>)
    requires
        !name.contains('/'),
    ensures
        last_slash(name) == -1,
    decreases name.len(),
{
    if name.len() > 0 {
        assert(name.contains(name[name.len() - 1]));
        assert forall|i: int| 0 <= i < name.drop_last().len() implies name.drop_last()[i] != '/' by {
            assert(name.contains(name[i]));
        }
        lemma_no_slash(name.drop_last());
    }
}

proof fn lemma_last_slash_at(dir: Seq<char>, name: Seq<char>)
    requires
        !name.contains('/'),
    ensures
        last_slash(dir + seq!['/'] + name) == dir.len(),
    decreases name.len(),
{
    let whole = dir + seq!['/'] + name;
    if name.len() == 0 {
        assert(whole.last() == '/');
    } else {
        assert(name.contains(name[name.len() - 1]));
        assert forall|i: int| 0 <= i < name.drop_last().len() implies name.drop_last()[i] != '/' by {
            assert(name.contains(name[i]));
        }
        lemma_last_slash_at(dir, name.drop_last());
        assert(whole.drop_last() =~= dir + seq!['/'] + name.drop_last());
    }
}

/// A path can name a file in a pod where it begins with a slash and holds no NUL; the refusal of
/// another says which of the two it lacks.
pub proof fn law_pod_paths(rest: Seq<char>, path: Seq<char>)
    ensures
        !rest.contains('\0') ==> pod_path_ok(seq!['/'] + rest),
        rest.contains('\0') ==> !pod_path_ok(seq!['/'] + rest) && pod_path_error(seq!['/'] + rest)
            == "pod path must not contain NUL"@,
        path.len() == 0 || path[0] != '/' ==> !pod_path_ok(path) && text::contains(
            pod_path_error(path),
            text::quoted(path),
        ),
{
    let p = seq!['/'] + rest;
    text::lemma_part("pod path must be absolute: "@, text::quoted(path));
    if rest.contains('\0') {
        let i = choose|i: int| 0 <= i < rest.len() && rest[i] == '\0';
        assert(p[i + 1] == '\0');
    } else if p.contains('\0') {
        let i = choose|i: int| 0 <= i < p.len() && p[i] == '\0';
        assert(rest[i - 1] == '\0');
    }
}

/// Transfers of different names have different staging files, all in the staging directory.
pub proof fn law_staging_files_are_apart(a: Seq<char>, b: Seq<char>, remote: Seq<char>)
    ensures
        text::starts(staging_path(a, remote), "/tmp/friday-tools/staging/"@ + a),
        staging_path(a, remote) == staging_path(b, remote) ==> a == b,
{
    reveal_strlit("/tmp/friday-tools/staging");
    reveal_strlit("/tmp/friday-tools/staging/");
    reveal_strlit("/");
    let dir = STAGING_DIR@ + "/"@;
    assert(dir =~= "/tmp/friday-tools/staging/"@);
    let x = staging_path(a, remote);
    let y = staging_path(b, remote);
    let base = base_name(remote);
    text::lemma_start(dir + a, "-"@);
    text::lemma_start_kept(dir + a + "-"@, dir + a, base);
    assert(x.len() == dir.len() + a.len() + "-"@.len() + base.len());
    assert(y.len() == dir.len() + b.len() + "-"@.len() + base.len());
    if x == y {
        assert(x.subrange(dir.len() as int, dir.len() + a.len() as int) =~= a);
        assert(y.subrange(dir.len() as int, dir.len() + b.len() as int) =~= b);
    }
}

/// The second leg into a container reads the staging file, and hands the shell in the pod one word: the
/// command that makes the directory of the file and writes what it reads to the file.
pub proof fn law_inject_writes_the_file(u: Upload<Seq<char>>)
    ensures
        ({
            let inner = "mkdir -p "@ + ssh::shell_quote(parent_dir(u.remote)) + " && cat > "@
                + ssh::shell_quote(u.remote);
            let cmd = inject_command(u);
            &&& text::starts(cmd, "kubectl exec -i "@)
            &&& text::contains(
                cmd,
                ssh::shell_quote(u.pod) + " -- sh -c "@ + ssh::shell_quote(inner),
            )
            &&& ssh::sh_word(ssh::shell_quote(inner), false) == Some(inner)
            &&& text::contains(cmd, " < "@ + ssh::shell_quote(u.staging))
            &&& u.namespace matches Some(n) ==> text::contains(
                cmd,
                "-n "@ + ssh::shell_quote(n) + " "@,
            )
            &&& u.container matches Some(c) ==> text::contains(
                cmd,
                "-c "@ + ssh::shell_quote(c) + " "@,
            )
        }),
{
    let inner = "mkdir -p "@ + ssh::shell_quote(parent_dir(u.remote)) + " && cat > "@
        + ssh::shell_quote(u.remote);
    ssh::law_quote_round_trip(inner);
    let head = "kubectl exec -i "@;
    let flags = place_flags(u.namespace, u.container);
    let nf = namespace_flag(u.namespace);
    let cf = container_flag(u.container);
    let q = ssh::shell_quote(u.pod);
    let mid = " -- sh -c "@;
    let c = ssh::shell_quote(inner);
    let from = " < "@;
    let st = ssh::shell_quote(u.staging);
    let p1 = head + flags;
    let p2 = p1 + q;
    let p3 = p2 + mid;
    let p4 = p3 + c;
    let p5 = p4 + from;
    text::lemma_start(head, flags);
    text::lemma_start_kept(p1, head, q);
    text::lemma_start_kept(p2, head, mid);
    text::lemma_start_kept(p3, head, c);
    text::lemma_start_kept(p4, head, from);
    text::lemma_start_kept(p5, head, st);
    assert(p1 =~= head + nf + cf);
    text::lemma_contains(head, nf, cf);
    text::lemma_part_kept(p1, nf, q);
    text::lemma_part_kept(p2, nf, mid);
    text::lemma_part_kept(p3, nf, c);
    text::lemma_part_kept(p4, nf, from);
    text::lemma_part_kept(p5, nf, st);
    text::lemma_part(head + nf, cf);
    text::lemma_part_kept(p1, cf, q);
    text::lemma_part_kept(p2, cf, mid);
    text::lemma_part_kept(p3, cf, c);
    text::lemma_part_kept(p4, cf, from);
    text::lemma_part_kept(p5, cf, st);
    let t = q + mid + c;
    text::lemma_part_of_three(p1, q, mid, c);
    text::lemma_part_kept(p4, t, from);
    text::lemma_part_kept(p5, t, st);
    text::lemma_part_of_two(p4, from, st);
}

/// The file that was written is given to the group of the JVM, and made readable for it.
pub proof fn law_regroup_names_the_file(u: Upload<Seq<char>>)
    ensures
        regroup_command(u) == "chgrp "@ + "ossgroup"@ + " "@ + ssh::shell_quote(u.remote)
            + " && chmod g+r "@ + ssh::shell_quote(u.remote),
        ssh::sh_word(ssh::shell_quote(u.remote), false) == Some(u.remote),
{
    ssh::law_quote_round_trip(u.remote);
}

/// A copy into a container is asked for step by step, with its own files: the staging directory, the
/// local file to the staging file, the staging file to the file in the pod, and the removal of the
/// staging file. What a step said is what the copy fails with.
pub proof fn law_upload_steps(u: Upload<Seq<char>>, out: Output<Seq<char>>, e: Seq<char>, late: bool)
    ensures
        u.stage is MakeStaging ==> upload_request(u) == (Action::<Seq<char>>::Run {
            site: Site::Host,
            cmd: "mkdir -p "@ + ssh::shell_quote("/tmp/friday-tools/staging"@),
            secs: None,
        }),
        u.stage is Send ==> upload_request(u) == (Action::<Seq<char>>::Upload {
            site: Site::Host,
            local: u.local,
            remote: u.staging,
        }),
        u.stage is Unstage ==> upload_request(u) == (Action::<Seq<char>>::Run {
            site: Site::Host,
            cmd: "rm -f "@ + ssh::shell_quote(u.staging),
            secs: None,
        }),
        u.stage is Remove ==> upload_request(u) == (Action::<Seq<char>>::Run {
            site: Site::Host,
            cmd: exec_in(u.pod, u.namespace, u.container, "rm -f "@ + ssh::shell_quote(u.remote)),
            secs: None,
        }),
        u.stage is MakeStaging && out.exit_code == 0 ==> upload_next(
            u,
            Reply::Ran { ran: Ok(out), late },
        ) is Send,
        u.stage is Send ==> upload_next(u, Reply::Done { done: Ok(()), late }) is Inject,
        u.stage is MakeStaging && out.exit_code != 0 ==> upload_fails(
            upload_next(u, Reply::Ran { ran: Ok(out), late }),
            out.stderr,
        ),
        u.stage is MakeStaging ==> upload_fails(upload_next(u, Reply::Ran { ran: Err(e), late }), e),
        u.stage is Send ==> upload_fails(upload_next(u, Reply::Done { done: Err(e), late }), e),
        u.stage is Regroup && out.exit_code == 0 ==> upload_next(
            u,
            Reply::Ran { ran: Ok(out), late },
        ) == (UploadStage::<Seq<char>>::Ended { result: Ok(()) }),
        u.stage is Regroup && out.exit_code != 0 ==> (upload_next(
            u,
            Reply::Ran { ran: Ok(out), late },
        ) matches UploadStage::Remove { error } && text::contains(error, out.stderr)),
        u.stage == (UploadStage::<Seq<char>>::Unstage { injected: Ok(out) }) && out.exit_code != 0 ==> (
        upload_next(u, Reply::Ran { ran: Err(e), late }) matches UploadStage::Remove { error }
            && text::contains(error, out.stderr)),
        u.stage == (UploadStage::<Seq<char>>::Remove { error: e }) ==> upload_next(
            u,
            Reply::Ran { ran: Ok(out), late },
        ) == (UploadStage::<Seq<char>>::Ended { result: Err(e) }),
{
    let z = Seq::<char>::empty();
    text::lemma_contains(z, e, z);
    assert(z + e + z =~= e);
    text::lemma_part(
        "k8s upload: staging mkdir "@ + STAGING_DIR@ + " failed (exit "@ + text::signed_dec(
            out.exit_code as int,
        ) + "): "@,
        out.stderr,
    );
    text::lemma_part("k8s upload: leg A sftp to staging "@ + u.staging + " failed: "@, e);
    text::lemma_part(
        "k8s upload: leg B kubectl exec -i failed (exit "@ + text::signed_dec(out.exit_code as int)
            + "): "@,
        out.stderr,
    );
    text::lemma_part(
        "k8s upload: chgrp "@ + OSS_GROUP@ + " failed (exec 用户可能不在 "@ + OSS_GROUP@ + " 组): "@,
        out.stderr,
    );
}

/// Whether a copy into a container ended in an error that holds a text.
pub open spec fn upload_fails(stage: UploadStage<Seq<char>>, part: Seq<char>) -> bool {
    stage matches UploadStage::Ended { result: Err(e) } && text::contains(e, part)
}

/// A copy out of a container is asked for step by step, with its own files, and the size that the
/// container printed is the size that the copy is held to. What a step said is what the copy fails
/// with.
pub proof fn law_download_steps(
    d: Download<Seq<char>>,
    out: Output<Seq<char>>,
    e: Seq<char>,
    n: u64,
    m: u64,
    late: bool,
)
    requires
        out.stdout == text::dec(n as nat) + seq!['\n'],
    ensures
        d.stage is Stat ==> download_request(d) == (Action::<Seq<char>>::Run {
            site: Site::Host,
            cmd: exec_in(
                d.pod,
                d.namespace,
                d.container,
                "stat -c %s "@ + ssh::shell_quote(d.remote),
            ),
            secs: None,
        }),
        d.stage is Count ==> download_request(d) == (Action::<Seq<char>>::Run {
            site: Site::Host,
            cmd: exec_in(d.pod, d.namespace, d.container, "wc -c < "@ + ssh::shell_quote(d.remote)),
            secs: None,
        }),
        d.stage is Cat ==> (download_request(d) matches Action::Run { site, cmd, secs } && site is Host
            && secs is None && text::starts(cmd, "kubectl exec "@) && text::contains(
            cmd,
            " -- cat "@ + ssh::shell_quote(d.remote) + " > "@,
        ) && text::contains(cmd, " > "@ + ssh::shell_quote(d.staging))),
        d.stage is Fetch ==> download_request(d) == (Action::<Seq<char>>::Download {
            remote: d.staging,
            local: d.local,
            offset: d.offset,
        }),
        d.stage is Unstage || d.stage is Discard ==> download_request(d) == (Action::<Seq<char>>::Run {
            site: Site::Host,
            cmd: "rm -f "@ + ssh::shell_quote(d.staging),
            secs: None,
        }),
        d.stage is Measure ==> download_request(d) == (Action::<Seq<char>>::LocalSize { path: d.local }),
        (d.stage is Stat || d.stage is Count) && out.exit_code == 0 ==> download_next(
            d,
            Reply::Ran { ran: Ok(out), late },
        ) == (DownloadStage::<Seq<char>>::Cat { size: n }),
        d.stage is Stat && out.exit_code == 127 ==> download_next(
            d,
            Reply::Ran { ran: Ok(out), late },
        ) is Count,
        (d.stage is Stat || d.stage is Count) && out.exit_code != 0 && out.exit_code != 127
            ==> download_fails(download_next(d, Reply::Ran { ran: Ok(out), late }), out.stderr)
            && download_fails(download_next(d, Reply::Ran { ran: Ok(out), late }), d.remote),
        d.stage is Stat || d.stage is Count ==> download_fails(
            download_next(d, Reply::Ran { ran: Err(e), late }),
            e,
        ),
        d.stage == (DownloadStage::<Seq<char>>::Cat { size: n }) && out.exit_code == 0 ==> download_next(
            d,
            Reply::Ran { ran: Ok(out), late },
        ) == (DownloadStage::<Seq<char>>::Fetch { size: n }),
        d.stage is Cat && out.exit_code != 0 ==> (download_next(d, Reply::Ran { ran: Ok(out), late })
            matches DownloadStage::Discard { error } && text::contains(error, out.stderr)),
        d.stage is Fetch ==> download_fails(download_next(d, Reply::Done { done: Err(e), late }), e),
        d.stage == (DownloadStage::<Seq<char>>::Measure { size: n }) ==> download_next(
            d,
            Reply::Number { number: Ok(n) },
        ) == (DownloadStage::<Seq<char>>::Ended { result: Ok(()) }),
        d.stage == (DownloadStage::<Seq<char>>::Measure { size: n }) && m != n ==> download_fails(
            download_next(d, Reply::Number { number: Ok(m) }),
            text::dec(m as nat),
        ) && download_fails(download_next(d, Reply::Number { number: Ok(m) }), text::dec(n as nat)),
{
    let dn = text::dec(n as nat);
    let dm = text::dec(m as nat);
    text::lemma_dec_is_word(n as nat);
    lemma_trimmed_line(dn);
    text::law_number_round_trip(n as nat, u64::MAX as nat);
    let z = Seq::<char>::empty();
    text::lemma_contains(z, e, z);
    assert(z + e + z =~= e);
    let head = "kubectl exec "@;
    let flags = place_flags(d.namespace, d.container);
    let q = ssh::shell_quote(d.pod);
    let r = ssh::shell_quote(d.remote);
    let st = ssh::shell_quote(d.staging);
    let p1 = head + flags;
    let p2 = p1 + q;
    let p3 = p2 + " -- cat "@;
    let p4 = p3 + r;
    let p5 = p4 + " > "@;
    text::lemma_start(head, flags);
    text::lemma_start_kept(p1, head, q);
    text::lemma_start_kept(p2, head, " -- cat "@);
    text::lemma_start_kept(p3, head, r);
    text::lemma_start_kept(p4, head, " > "@);
    text::lemma_start_kept(p5, head, st);
    text::lemma_part_of_three(p2, " -- cat "@, r, " > "@);
    text::lemma_part_kept(p5, " -- cat "@ + r + " > "@, st);
    text::lemma_part_of_two(p4, " > "@, st);
    let code = text::signed_dec(out.exit_code as int);
    let g = "k8s download: 容器内文件不存在或不可读 "@;
    text::lemma_contains(g, d.remote, " (exit "@);
    text::lemma_part_kept(g + d.remote + " (exit "@, d.remote, code);
    text::lemma_part_kept(g + d.remote + " (exit "@ + code, d.remote, "): "@);
    text::lemma_part_kept(g + d.remote + " (exit "@ + code + "): "@, d.remote, out.stderr);
    text::lemma_part(g + d.remote + " (exit "@ + code + "): "@, out.stderr);
    text::lemma_part("k8s download: stat "@ + d.remote + " failed: "@, e);
    text::lemma_part("k8s download: leg 1 (kubectl exec cat) failed (exit "@ + code + "): "@, out.stderr);
    text::lemma_part("k8s download: leg 2 (sftp from host staging "@ + d.staging + ") failed: "@, e);
    let a = "k8s download: size mismatch (pod "@;
    let b = " bytes, local "@;
    let c = " bytes) for "@;
    text::lemma_contains(a, dn, b);
    text::lemma_part_kept(a + dn + b, dn, dm);
    text::lemma_part_kept(a + dn + b + dm, dn, c);
    text::lemma_part_kept(a + dn + b + dm + c, dn, d.remote);
    text::lemma_contains(a + dn + b, dm, c);
    text::lemma_part_kept(a + dn + b + dm + c, dm, d.remote);
}

proof fn lemma_trimmed_line(word: Seq<char>)
    requires
        text::is_word(word),
    ensures
        text::trimmed(word + seq!['\n']) == word,
{
    let whole = word + seq!['\n'];
    assert(whole[0] == word[0]);
    assert(text::trim_start(whole) == whole);
    assert(whole.subrange(0, whole.len() - 1) =~= word);
    reveal_with_fuel(text::trim_end, 2);
    assert(!text::is_white(word.last()));
    assert(text::trim_end(word) == word);
}

/// Whether a copy out of a container ended in an error that holds a text.
pub open spec fn download_fails(stage: DownloadStage<Seq<char>>, part: Seq<char>) -> bool {
    stage matches DownloadStage::Ended { result: Err(e) } && text::contains(e, part)
}

/// A copy begins as it was asked for: between these two files, in this container of this pod, over a
/// staging file that the name of the copy is part of. A copy into a container begins with the
/// staging directory, one out of it with the size of the file.
pub proof fn law_copies_begin_as_asked(
    pod: Seq<char>,
    namespace: Option<Seq<char>>,
    container: Option<Seq<char>>,
    local: Seq<char>,
    remote: Seq<char>,
    offset: u64,
    id: Seq<char>,
)
    ensures
        ({
            let u = upload_start(pod, namespace, container, local, remote, id);
            let d = download_start(pod, namespace, container, remote, local, offset, id);
            &&& u.pod == pod && u.namespace == namespace && u.container == container
            &&& u.local == local && u.remote == remote
            &&& u.staging == staging_path(id, remote)
            &&& d.pod == pod && d.namespace == namespace && d.container == container
            &&& d.local == local && d.remote == remote && d.offset == offset
            &&& d.staging == staging_path(id, remote)
            &&& upload_request(u) == on_host("mkdir -p "@ + ssh::shell_quote(STAGING_DIR@))
            &&& download_request(d) == on_host(
                exec_in(pod, namespace, container, "stat -c %s "@ + ssh::shell_quote(remote)),
            )
        }),
{
}

} // verus!
