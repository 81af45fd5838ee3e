//! What a tool is, and what a call of it gives back.

use vstd::prelude::*;

use crate::ids;
use crate::json;
use crate::json::Json;
use crate::text;

verus! {

// ---------------------------------------------------------------------------------------------
// What a call gives back
// ---------------------------------------------------------------------------------------------

/// What a call of a tool gives back.
pub struct ToolOutput {
    pub success: bool,
    pub data: serde_json::Value,
    /// What a command printed, where the call ran one.
    pub raw_stdout: Option<String>,
}

/// The model of [`ToolOutput`].
pub struct Shown {
    pub success: bool,
    pub data: Json,
    pub raw_stdout: Option<Seq<char>>,
}

impl View for ToolOutput {
    type V = Shown;

    open spec fn view(&self) -> Shown {
        Shown {
            success: self.success,
            data: json::view_of(self.data),
            raw_stdout: text::opt(self.raw_stdout),
        }
    }
}

/// A call that was refused or failed: a code to act on, and a message.
pub open spec fn refusal(code: Seq<char>, message: Seq<char>) -> Shown {
    Shown {
        success: false,
        data: Json::Object(
            json::no_members().insert("error"@, Json::Text(code)).insert(
                "message"@,
                Json::Text(message),
            ),
        ),
        raw_stdout: None,
    }
}

/// A call that was refused or failed.
pub fn error_output(code: &str, message: &str) -> (r: ToolOutput)
    ensures
        r@ == refusal(code@, message@),
{
    let mut m: serde_json::Map<String, serde_json::Value> = json::new_map();
    json::insert(&mut m, "error", json::text_value(code));
    json::insert(&mut m, "message", json::text_value(message));
    ToolOutput { success: false, data: json::object(m), raw_stdout: None }
}

/// What is said of an environment that is not known.
pub open spec fn unknown_environment(environment: Seq<char>) -> Seq<char> {
    "环境「"@ + environment + "」不存在。请先调用 list_environments 查看可用环境；若无匹配，请让用户在右侧「环境」面板添加。"@
}

/// What is said of an environment that is not known.
pub fn unknown_environment_text(environment: &str) -> (r: String)
    ensures
        r@ == unknown_environment(environment@),
{
    "环境「".to_owned()
        .concat(environment)
        .concat("」不存在。请先调用 list_environments 查看可用环境；若无匹配，请让用户在右侧「环境」面板添加。")
}

/// What is said of a command that did not end in time.
pub open spec fn command_timeout(secs: u64) -> Seq<char> {
    "command timed out after "@ + text::dec(secs as nat) + "s"@
}

/// What is said of a command that did not end in time.
pub fn command_timeout_text(secs: u64) -> (r: String)
    ensures
        r@ == command_timeout(secs),
{
    "command timed out after ".to_owned().concat(text::u64_text(secs).as_str()).concat("s")
}

// ---------------------------------------------------------------------------------------------
// Arguments
// ---------------------------------------------------------------------------------------------

/// The time that was asked for, up to `max`; `default` where none was.
pub open spec fn clamped(user: Option<int>, default: u64, max: u64) -> int {
    match user {
        Some(t) => if t <= 0 {
            default as int
        } else if t <= max {
            t
        } else {
            max as int
        },
        None => default as int,
    }
}

/// The time that was asked for, up to `max`; `default` where none was.
pub fn clamp_or(user: Option<i64>, default: u64, max: u64) -> (r: u64)
    ensures
        r == clamped(
            match user {
                Some(t) => Some(t as int),
                None => None,
            },
            default,
            max,
        ),
{
    match user {
        Some(t) => if t <= 0 {
            default
        } else if t as u64 <= max {
            t as u64
        } else {
            max
        },
        None => default,
    }
}

/// The number of a process: a text of digits that stands for a positive number.
pub open spec fn pid_of(v: Option<Json>) -> Option<nat> {
    match json::text_of(v) {
        Some(s) => if text::all_digits(s) {
            match text::parse_uint(s, u32::MAX as nat) {
                Some(n) => if n > 0 {
                    Some(n)
                } else {
                    None
                },
                None => None,
            }
        } else {
            None
        },
        None => None,
    }
}

/// The number of a process.
pub fn parse_pid(v: &serde_json::Value) -> (r: Option<u32>)
    ensures
        (match r {
            Some(n) => Some(n as nat),
            None => None,
        }) == pid_of(Some(json::view_of(*v))),
{
    match json::as_str(v) {
        Some(s) => if digits_only(s) {
            match text::parse_number(s, u32::MAX as u64) {
                Some(n) => if n > 0 {
                    Some(n as u32)
                } else {
                    None
                },
                None => None,
            }
        } else {
            None
        },
        None => None,
    }
}

fn digits_only(s: &str) -> (r: bool)
    ensures
        r == text::all_digits(s@),
{
    let x: Vec<char> = text::to_chars(s);
    let mut i: usize = 0;
    while i < x.len()
        invariant
            x@ == s@,
            i <= x@.len(),
            forall|j: int| 0 <= j < i ==> text::is_digit(#[trigger] s@[j]),
        decreases x@.len() - i,
    {
        if !text::is_digit_char(x[i]) {
            return false;
        }
        i = i + 1;
    }
    true
}

/// The text member of arguments, where an empty text counts as none.
pub open spec fn filled_arg(args: Json, key: Seq<char>) -> Option<Seq<char>> {
    text::non_blank(json::text_of(json::member(args, key)))
}

/// The text member of arguments, where an empty text counts as none.
pub fn filled_text_arg<'a>(args: &'a serde_json::Value, key: &str) -> (r: Option<&'a str>)
    ensures
        text::opt_str(r) == filled_arg(json::view_of(*args), key@),
{
    text::filter_empty(json::text_arg(args, key))
}

/// The time that arguments ask for.
pub open spec fn asked_secs(args: Json, default: u64, max: u64) -> int {
    clamped(json::int_of(json::member(args, "timeout_secs"@)), default, max)
}

/// The time that arguments ask for.
pub fn timeout_arg(args: &serde_json::Value, default: u64, max: u64) -> (r: u64)
    ensures
        r == asked_secs(json::view_of(*args), default, max),
{
    clamp_or(json::int_arg(args, "timeout_secs"), default, max)
}

/// Whatever is asked for, a call is never given more than the longest time.
pub proof fn law_time_is_bounded(user: Option<int>, default: u64, max: u64)
    requires
        default <= max,
    ensures
        0 <= clamped(user, default, max) <= max,
{
}

/// The time that is asked for is the time that is used, within its bounds; without a usable request
/// it is the usual one.
pub proof fn law_time_is_as_asked(t: int, default: u64, max: u64)
    ensures
        0 < t <= max ==> clamped(Some(t), default, max) == t,
        t > max ==> t > 0 ==> clamped(Some(t), default, max) == max,
        t <= 0 ==> clamped(Some(t), default, max) == default,
        clamped(None, default, max) == default,
{
}

/// A process is named by the numeral of a positive number, and by nothing else: the number that is
/// read is the number that the digits stand for.
pub proof fn law_pid_is_read_back(n: nat, v: Json)
    ensures
        0 < n <= u32::MAX ==> pid_of(Some(Json::Text(text::dec(n)))) == Some(n),
        n == 0 || n > u32::MAX ==> pid_of(Some(Json::Text(text::dec(n)))) is None,
        pid_of(None) is None,
        pid_of(Some(v)) matches Some(p) ==> 0 < p <= u32::MAX && (v matches Json::Text(s)
            && text::all_digits(s) && text::digits_value(s) == p),
{
    text::lemma_dec_value(n);
    text::lemma_dec_plain(n);
    assert(text::is_digit(text::dec(n)[0]));
    assert(text::without_plus(text::dec(n)) == text::dec(n));
    if n <= u32::MAX {
        text::law_number_round_trip(n, u32::MAX as nat);
    }
    if let Json::Text(s) = v {
        if text::all_digits(s) && s.len() > 0 {
            assert(text::is_digit(s[0]));
            assert(text::without_plus(s) == s);
        }
    }
}

/// An argument that is a text and not empty is used as it is; any other counts as none.
pub proof fn law_arguments_are_used_as_they_are(
    args: Map<Seq<char>, Json>,
    key: Seq<char>,
    s: Seq<char>,
)
    ensures
        args.contains_key(key) && args[key] == Json::Text(s) && s.len() > 0 ==> filled_arg(
            Json::Object(args),
            key,
        ) == Some(s),
        args.contains_key(key) && args[key] == Json::Text(Seq::empty()) ==> filled_arg(
            Json::Object(args),
            key,
        ) is None,
        !args.contains_key(key) || args[key] !is Text ==> filled_arg(Json::Object(args), key)
            is None,
{
}

/// A refusal is no success, and names its code and its message.
pub proof fn law_refusal_names_its_reason(code: Seq<char>, message: Seq<char>)
    ensures
        !refusal(code, message).success,
        refusal(code, message).raw_stdout is None,
        refusal(code, message).data matches Json::Object(m) && m["error"@] == Json::Text(code)
            && m["message"@] == Json::Text(message) && m.contains_key("error"@) && m.contains_key(
            "message"@,
        ),
{
    reveal_strlit("error");
    reveal_strlit("message");
    assert("error"@.len() != "message"@.len());
}

/// Results of different calls are kept in different files, under the prefix of their tool.
pub proof fn law_artifacts_are_apart(prefix: Seq<char>, a: Seq<char>, b: Seq<char>)
    ensures
        text::starts(artifact_name(prefix, a), prefix + "-"@),
        artifact_name(prefix, a) == artifact_name(prefix, b) ==> a == b,
{
    let head = prefix + "-"@;
    text::lemma_start(head, a);
    text::lemma_start_kept(head + a, head, ".md"@);
    let x = artifact_name(prefix, a);
    let y = artifact_name(prefix, b);
    if x == y {
        assert(x.len() == head.len() + a.len() + ".md"@.len());
        assert(y.len() == head.len() + b.len() + ".md"@.len());
        assert(x.subrange(head.len() as int, head.len() + a.len() as int) =~= a);
        assert(y.subrange(head.len() as int, head.len() + b.len() as int) =~= b);
    }
}

// ---------------------------------------------------------------------------------------------
// Files of results
// ---------------------------------------------------------------------------------------------

/// The name of the file that the full result of a tool is kept in.
pub open spec fn artifact_name(prefix: Seq<char>, id: Seq<char>) -> Seq<char> {
    prefix + "-"@ + id + ".md"@
}

/// The name of a new file for the full result of a tool.
pub fn artifact_file(prefix: &str) -> (r: String)
    ensures
        exists|id: Seq<char>| #[trigger] ids::is_uuid(id) && r@ == artifact_name(prefix@, id),
{
    let id: String = ids::fresh_uuid();
    let name: String = artifact_file_over(prefix, id.as_str());
    proof {
        assert(ids::is_uuid(id@));
    }
    name
}

/// The name of the file for the full result of a tool, over an identifier.
pub fn artifact_file_over(prefix: &str, id: &str) -> (r: String)
    ensures
        r@ == artifact_name(prefix@, id@),
{
    prefix.to_owned().concat("-").concat(id).concat(".md")
}

// ---------------------------------------------------------------------------------------------
// Tools
// ---------------------------------------------------------------------------------------------

/// How much a tool may disturb its target.
#[derive(Clone, Copy, Debug, PartialEq, Eq, Structural)]
pub enum RiskLevel {
    ReadOnly,
    Low,
}

/// What a tool is for.
#[derive(Clone, Copy, Debug, PartialEq, Eq, Structural)]
pub enum ToolCategory {
    Environment,
    K8s,
    Jfr,
    Arthas,
}

/// A tool as it is offered.
pub struct ToolDef {
    pub name: String,
    pub description: String,
    pub input_schema: serde_json::Value,
    pub risk_level: RiskLevel,
    pub category: ToolCategory,
    pub needs_channel: bool,
}

/// The model of [`ToolDef`].
pub struct Offer {
    pub name: Seq<char>,
    pub description: Seq<char>,
    pub input_schema: Json,
    pub risk_level: RiskLevel,
    pub category: ToolCategory,
    pub needs_channel: bool,
}

impl View for ToolDef {
    type V = Offer;

    open spec fn view(&self) -> Offer {
        Offer {
            name: self.name@,
            description: self.description@,
            input_schema: json::view_of(self.input_schema),
            risk_level: self.risk_level,
            category: self.category,
            needs_channel: self.needs_channel,
        }
    }
}

/// What tools are, by their models.
pub open spec fn offers(v: Seq<ToolDef>) -> Seq<Offer> {
    v.map_values(|d: ToolDef| d@)
}

/// The schema of a property: its type and what it is.
pub open spec fn prop(kind: Seq<char>, description: Seq<char>) -> Json {
    Json::Object(
        json::no_members().insert("type"@, Json::Text(kind)).insert(
            "description"@,
            Json::Text(description),
        ),
    )
}

/// The schema of a property.
pub fn prop_value(kind: &str, description: &str) -> (r: serde_json::Value)
    ensures
        json::view_of(r) == prop(kind@, description@),
{
    let mut m: serde_json::Map<String, serde_json::Value> = json::new_map();
    json::insert(&mut m, "type", json::text_value(kind));
    json::insert(&mut m, "description", json::text_value(description));
    json::object(m)
}

/// The schema of an object: its properties, and which of them there must be.
pub open spec fn object_schema(props: Map<Seq<char>, Json>, required: Seq<Seq<char>>) -> Json {
    Json::Object(
        json::no_members().insert("type"@, Json::Text("object"@)).insert(
            "properties"@,
            Json::Object(props),
        ).insert("required"@, json::texts(required)),
    )
}

/// The schema of an object.
pub fn object_schema_value(
    props: serde_json::Map<String, serde_json::Value>,
    required: &Vec<String>,
) -> (r: serde_json::Value)
    ensures
        json::view_of(r) == object_schema(json::members(props), text::views(required@)),
{
    let mut m: serde_json::Map<String, serde_json::Value> = json::new_map();
    json::insert(&mut m, "type", json::text_value("object"));
    json::insert(&mut m, "properties", json::object(props));
    json::insert(&mut m, "required", json::text_array(required));
    json::object(m)
}

/// One name.
pub fn one(a: &str) -> (r: Vec<String>)
    ensures
        text::views(r@) == seq![a@],
{
    let mut r: Vec<String> = Vec::new();
    r.push(a.to_owned());
    proof {
        assert(text::views(r@) =~= seq![a@]);
    }
    r
}

/// Two names.
pub fn two(a: &str, b: &str) -> (r: Vec<String>)
    ensures
        text::views(r@) == seq![a@, b@],
{
    let mut r: Vec<String> = Vec::new();
    r.push(a.to_owned());
    r.push(b.to_owned());
    proof {
        assert(text::views(r@) =~= seq![a@, b@]);
    }
    r
}

/// The type of a parameter that a tool takes; `None` where it takes none of that name.
pub open spec fn parameter(o: Offer, key: Seq<char>) -> Option<Seq<char>> {
    match json::member(o.input_schema, "properties"@) {
        Some(props) => match json::member(props, key) {
            Some(p) => json::text_of(json::member(p, "type"@)),
            None => None,
        },
        None => None,
    }
}

/// The parameters that a call of a tool must give.
pub open spec fn required_parameters(o: Offer) -> Option<Json> {
    json::member(o.input_schema, "required"@)
}

/// A schema of an object says of each property what its own schema says, and nothing of others.
pub proof fn law_schema_lists_its_properties(
    o: Offer,
    props: Map<Seq<char>, Json>,
    required: Seq<Seq<char>>,
    key: Seq<char>,
)
    requires
        o.input_schema == object_schema(props, required),
    ensures
        json::member(o.input_schema, "type"@) == Some(Json::Text("object"@)),
        required_parameters(o) == Some(json::texts(required)),
        !props.contains_key(key) ==> parameter(o, key) is None,
        props.contains_key(key) ==> parameter(o, key) == json::text_of(
            json::member(props[key], "type"@),
        ),
{
    reveal_strlit("type");
    reveal_strlit("properties");
    reveal_strlit("required");
    assert("type"@.len() != "properties"@.len());
    assert("type"@.len() != "required"@.len());
    assert("properties"@.len() != "required"@.len());
}

/// The schema of a property says its type and what it is.
pub proof fn law_property_says_its_type(kind: Seq<char>, description: Seq<char>)
    ensures
        json::text_of(json::member(prop(kind, description), "type"@)) == Some(kind),
        json::text_of(json::member(prop(kind, description), "description"@)) == Some(description),
{
    reveal_strlit("type");
    reveal_strlit("description");
    assert("type"@.len() != "description"@.len());
}

} // verus!
