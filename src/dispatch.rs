//! Skill dispatch: admission of action requests, the checks made before a skill runs,
//! and how a finished run becomes a response.
use vstd::prelude::*;
use vstd::utf8::{decode_utf8, valid_utf8};
use crate::allow_list::{allow_list_digest, allow_list_hash, hex_digit, names_view};
use crate::status::{Code, Status};
use crate::text::{push_char, push_signed_decimal, push_str, same_text, signed_decimal, trim_unicode, trimmed};

verus! {

/// Time a skill may run when the request names no limit, in milliseconds.
pub const DEFAULT_TIMEOUT_MS: u64 = 5000;

/// A request to run one named skill.
#[derive(Clone, Debug)]
pub struct ActionRequest {
    pub skill_name: String,
    /// Parameters handed to the skill, as name/value pairs.
    pub params: Vec<(String, String)>,
    pub depth: i32,
    pub reasoning_id: String,
    pub mock_mode: bool,
    /// Allow-list hash that the client computed; empty when it sends none.
    pub allow_list_hash: String,
    /// Time limit in milliseconds; 0 asks for the default.
    pub timeout_ms: u32,
}

/// What a skill run (or a mock of it) observed.
#[derive(Clone, Debug)]
pub struct ActionResponse {
    pub observation: String,
    pub success: bool,
    pub error: String,
}

/// How an admitted action request is served.
#[derive(Debug)]
pub enum ActionRoute {
    /// Answer at once with this response; no process is started.
    Respond(ActionResponse),
    /// Run the skill for real.
    Dispatch,
}

/// Everything a real run needs once the request passed its checks.
#[derive(Clone, Debug)]
pub struct DispatchPlan {
    pub skill_name: String,
    pub reasoning_id: String,
    /// The parameters as one JSON object.
    pub params_json: String,
    pub timeout_ms: u64,
}

/// How a skill's process ended.
#[derive(Debug)]
pub enum ChildOutcome {
    /// The time limit ran out first; the process was killed.
    TimedOut,
    /// The process exited with this output and status.
    Exited { stdout: Vec<u8>, stderr: Vec<u8>, success: bool, code: Option<i32> },
}

/// How JSON writes one character inside a string literal: quote and backslash behind a
/// backslash, the usual short escapes for backspace, tab, line feed, form feed and
/// carriage return, other control characters as `\u00` and two lower-case hex digits,
/// and any other character as itself.
pub open spec fn json_char_escape(c: char) -> Seq<char> {
    let u = c as u32;
    if c == '"' {
        seq!['\\', '"']
    } else if c == '\\' {
        seq!['\\', '\\']
    } else if u == 0x08 {
        seq!['\\', 'b']
    } else if u == 0x09 {
        seq!['\\', 't']
    } else if u == 0x0A {
        seq!['\\', 'n']
    } else if u == 0x0C {
        seq!['\\', 'f']
    } else if u == 0x0D {
        seq!['\\', 'r']
    } else if u < 0x20 {
        seq!['\\', 'u', '0', '0', hex_digit((u / 16) as nat), hex_digit((u % 16) as nat)]
    } else {
        seq![c]
    }
}

/// The escaped characters of a text, in order.
pub open spec fn json_escaped(s: Seq<char>) -> Seq<char>
    decreases s.len(),
{
    if s.len() == 0 {
        Seq::empty()
    } else {
        json_escaped(s.drop_last()) + json_char_escape(s.last())
    }
}

/// The JSON string literal of a text.
pub open spec fn json_string_of(s: Seq<char>) -> Seq<char> {
    seq!['"'] + json_escaped(s) + seq!['"']
}

/// Names the text that a byte string decodes to, with invalid sequences replaced.
pub uninterp spec fn utf8_lossy(b: Seq<u8>) -> Seq<char>;

/// Relies on `serde_json::to_string` on a `&str`: the compact serializer writes the
/// escaped literal into a `Vec`, which cannot fail.
#[verifier::external_body]
fn json_string(s: &str) -> (r: Option<String>)
    ensures
        r is Some,
        r matches Some(j) ==> j@ == json_string_of(s@),
{
    serde_json::to_string(s).ok()
}

/// Relies on `String::from_utf8_lossy`: valid UTF-8 decodes as itself.
#[verifier::external_body]
fn decode_lossy(b: &Vec<u8>) -> (r: String)
    ensures
        r@ == utf8_lossy(b@),
        valid_utf8(b@) ==> r@ == decode_utf8(b@),
{
    String::from_utf8_lossy(b.as_slice()).into_owned()
}

pub open spec fn pairs_view(p: Seq<(String, String)>) -> Seq<(Seq<char>, Seq<char>)> {
    p.map_values(|kv: (String, String)| (kv.0@, kv.1@))
}

/// Encoded members `"k":"v"` of a JSON object, separated by commas.
pub open spec fn json_members(enc: Seq<(Seq<char>, Seq<char>)>) -> Seq<char>
    decreases enc.len(),
{
    if enc.len() == 0 {
        Seq::empty()
    } else {
        let m = enc.last().0 + ":"@ + enc.last().1;
        if enc.len() == 1 {
            m
        } else {
            json_members(enc.drop_last()) + ","@ + m
        }
    }
}

/// Each name and value replaced by its JSON string literal.
pub open spec fn encode_pairs(p: Seq<(Seq<char>, Seq<char>)>) -> Seq<(Seq<char>, Seq<char>)> {
    p.map_values(|kv: (Seq<char>, Seq<char>)| (json_string_of(kv.0), json_string_of(kv.1)))
}

/// The JSON object holding the given members in order.
pub open spec fn json_object(p: Seq<(Seq<char>, Seq<char>)>) -> Seq<char> {
    "{"@ + json_members(encode_pairs(p)) + "}"@
}

pub open spec fn mock_observation(skill_name: Seq<char>) -> Seq<char> {
    "Observation: mock executed skill="@ + skill_name
}

/// The time limit a run gets: the requested one, or the default for 0.
pub open spec fn effective_timeout(timeout_ms: u32) -> u64 {
    if timeout_ms > 0 {
        timeout_ms as u64
    } else {
        5000
    }
}

/// The rendering of an optional exit code: `Some(<n>)` or `None`.
pub open spec fn exit_code_text(code: Option<i32>) -> Seq<char> {
    match code {
        Some(c) => "Some("@ + signed_decimal(c as int) + ")"@,
        None => "None"@,
    }
}

/// The error text of a run that exited unsuccessfully: its trimmed error output, or
/// its exit code when that output is blank.
pub open spec fn failure_text(stderr: Seq<u8>, code: Option<i32>) -> Seq<char> {
    let e = trimmed(utf8_lossy(stderr), false);
    if e.len() > 0 {
        e
    } else {
        "exit code "@ + exit_code_text(code)
    }
}

/// The mock response for a skill: success, with an observation that names it.
pub fn mock_response(skill_name: &str) -> (r: ActionResponse)
    ensures
        r.observation@ == mock_observation(skill_name@),
        r.success,
        r.error@ == Seq::<char>::empty(),
{
    let mut observation = "Observation: mock executed skill=".to_string();
    push_str(&mut observation, skill_name);
    ActionResponse { observation, success: true, error: String::new() }
}

/// Admission and mode selection for an action request. Deeper recursion than allowed is
/// refused; the request is mocked when it asks for mock mode, when mock mode is forced,
/// or when real dispatch is not enabled; otherwise the skill is run for real.
pub fn route_action(max_depth: u32, force_mock: bool, allow_real: bool, req: &ActionRequest) -> (r:
    Result<ActionRoute, Status>)
    ensures
        (req.depth < 0 || req.depth > max_depth) ==> (r matches Err(e) && e.code
            == Code::InvalidArgument),
        (0 <= req.depth <= max_depth && (req.mock_mode || force_mock || !allow_real)) ==> (r matches Ok(
            ActionRoute::Respond(resp),
        ) && resp.observation@ == mock_observation(req.skill_name@) && resp.success
            && resp.error@.len() == 0),
        (0 <= req.depth <= max_depth && !req.mock_mode && !force_mock && allow_real) ==> (r matches Ok(
            ActionRoute::Dispatch,
        )),
{
    if req.depth < 0 || req.depth as u32 > max_depth {
        return Err(
            Status::invalid_argument("Recursion depth exceeded; circuit breaker activated"),
        );
    }
    if req.mock_mode || force_mock || !allow_real {
        Ok(ActionRoute::Respond(mock_response(req.skill_name.as_str())))
    } else {
        Ok(ActionRoute::Dispatch)
    }
}

/// A request without a time limit runs for the default 5000 ms; any other runs for the
/// limit it names.
pub proof fn lemma_timeout_default(timeout_ms: u32)
    ensures
        effective_timeout(0) == DEFAULT_TIMEOUT_MS,
        timeout_ms > 0 ==> effective_timeout(timeout_ms) == timeout_ms as u64,
{
}

/// Whether `name` is one of `list`.
pub fn list_contains(list: &Vec<String>, name: &str) -> (r: bool)
    ensures
        r == names_view(list@).contains(name@),
{
    let mut i: usize = 0;
    while i < list.len()
        invariant
            i <= list@.len(),
            forall|k: int| 0 <= k < i ==> list@[k]@ != name@,
        decreases list@.len() - i,
    {
        if same_text(list[i].as_str(), name) {
            proof {
                assert(names_view(list@)[i as int] == name@);
            }
            return true;
        }
        i = i + 1;
    }
    proof {
        if names_view(list@).contains(name@) {
            let k = choose|k: int| 0 <= k < names_view(list@).len() && names_view(list@)[k] == name@;
            assert(list@[k]@ == name@);
        }
    }
    false
}

/// The JSON object whose members are the already encoded name/value pairs `encoded`.
pub fn json_object_from(encoded: &Vec<(String, String)>) -> (r: String)
    ensures
        r@ == "{"@ + json_members(pairs_view(encoded@)) + "}"@,
{
    let mut body = String::new();
    let mut i: usize = 0;
    proof {
        assert(pairs_view(encoded@.subrange(0, 0)) =~= Seq::<(Seq<char>, Seq<char>)>::empty());
    }
    while i < encoded.len()
        invariant
            i <= encoded@.len(),
            body@ == json_members(pairs_view(encoded@.subrange(0, i as int))),
        decreases encoded@.len() - i,
    {
        let ghost before = body@;
        if i > 0 {
            push_str(&mut body, ",");
        }
        push_str(&mut body, encoded[i].0.as_str());
        push_str(&mut body, ":");
        push_str(&mut body, encoded[i].1.as_str());
        proof {
            let p = pairs_view(encoded@.subrange(0, i + 1));
            assert(p.drop_last() =~= pairs_view(encoded@.subrange(0, i as int)));
            assert(p.last() == (encoded@[i as int].0@, encoded@[i as int].1@));
            if i > 0 {
                assert(body@ =~= before + ","@ + (p.last().0 + ":"@ + p.last().1));
            } else {
                assert(before =~= Seq::<char>::empty());
                assert(body@ =~= p.last().0 + ":"@ + p.last().1);
            }
        }
        i = i + 1;
    }
    proof {
        assert(encoded@.subrange(0, encoded@.len() as int) =~= encoded@);
    }
    let mut out = "{".to_string();
    push_str(&mut out, body.as_str());
    push_str(&mut out, "}");
    out
}

/// The parameters as one JSON object, members in the order given.
pub fn params_json(params: &Vec<(String, String)>) -> (r: String)
    ensures
        r@ == json_object(pairs_view(params@)),
{
    let mut encoded: Vec<(String, String)> = Vec::new();
    let mut i: usize = 0;
    while i < params.len()
        invariant
            i <= params@.len(),
            encoded@.len() == i,
            pairs_view(encoded@) == encode_pairs(pairs_view(params@.subrange(0, i as int))),
        decreases params@.len() - i,
    {
        let k = json_string(params[i].0.as_str());
        let v = json_string(params[i].1.as_str());
        match (k, v) {
            (Some(k), Some(v)) => {
                proof {
                    let lhs = pairs_view(encoded@.push((k, v)));
                    let rhs = encode_pairs(pairs_view(params@.subrange(0, i + 1)));
                    let prev = encode_pairs(pairs_view(params@.subrange(0, i as int)));
                    assert(lhs.len() == rhs.len());
                    assert forall|j: int| 0 <= j < lhs.len() implies lhs[j] == rhs[j] by {
                        if j < i {
                            assert(lhs[j] == pairs_view(encoded@)[j]);
                            assert(rhs[j] == prev[j]);
                        }
                    }
                    assert(lhs =~= rhs);
                }
                encoded.push((k, v));
            },
            _ => {
                return "{}".to_string();
            },
        }
        i = i + 1;
    }
    proof {
        assert(params@.subrange(0, params@.len() as int) =~= params@);
    }
    json_object_from(&encoded)
}

/// The checks made before a skill runs. A skill outside the allow-list is refused; a
/// client hash that is present and differs from the allow-list's own is refused; else
/// the run is planned with the effective time limit and the parameters as JSON.
pub fn plan_dispatch(allow_list: &Vec<String>, req: &ActionRequest) -> (r: Result<
    DispatchPlan,
    Status,
>)
    ensures
        !names_view(allow_list@).contains(req.skill_name@) ==> (r matches Err(e) && e.code
            == Code::PermissionDenied && e.message@ == "Skill not in registry"@),
        names_view(allow_list@).contains(req.skill_name@) && req.allow_list_hash@.len() > 0
            && req.allow_list_hash@ != allow_list_digest(names_view(allow_list@)) ==> (r matches Err(
            e,
        ) && e.code == Code::InvalidArgument && e.message@ == "Allow-list mismatch"@),
        names_view(allow_list@).contains(req.skill_name@) && (req.allow_list_hash@.len() == 0
            || req.allow_list_hash@ == allow_list_digest(names_view(allow_list@))) ==> (r matches Ok(
            p,
        ) && p.skill_name@ == req.skill_name@ && p.reasoning_id@ == req.reasoning_id@
            && p.timeout_ms == effective_timeout(req.timeout_ms) && p.params_json@ == json_object(
            pairs_view(req.params@),
        )),
{
    if !list_contains(allow_list, req.skill_name.as_str()) {
        return Err(Status::new(Code::PermissionDenied, "Skill not in registry".to_string()));
    }
    let computed = allow_list_hash(allow_list);
    if !req.allow_list_hash.as_str().is_empty() && !same_text(req.allow_list_hash.as_str(), computed.as_str()) {
        return Err(Status::invalid_argument("Allow-list mismatch"));
    }
    let timeout_ms: u64 = if req.timeout_ms > 0 {
        req.timeout_ms as u64
    } else {
        DEFAULT_TIMEOUT_MS
    };
    Ok(
        DispatchPlan {
            skill_name: req.skill_name.clone(),
            reasoning_id: req.reasoning_id.clone(),
            params_json: params_json(&req.params),
            timeout_ms,
        },
    )
}

/// The response for a finished run. A timeout fails with `Execution timed out` and an
/// empty observation; an exit observes the trimmed standard output and, when the exit
/// failed, reports `failure_text`.
pub fn finish_dispatch(outcome: ChildOutcome) -> (r: ActionResponse)
    ensures
        outcome is TimedOut ==> r.observation@.len() == 0 && !r.success && r.error@
            == "Execution timed out"@,
        outcome matches ChildOutcome::Exited { stdout, stderr, success, code } ==> (
        r.observation@ == trimmed(utf8_lossy(stdout@), false) && r.success == success && (success
            ==> r.error@.len() == 0) && (!success ==> r.error@ == failure_text(stderr@, code))),
{
    match outcome {
        ChildOutcome::TimedOut => ActionResponse {
            observation: String::new(),
            success: false,
            error: "Execution timed out".to_string(),
        },
        ChildOutcome::Exited { stdout, stderr, success, code } => {
            let out_text = decode_lossy(&stdout);
            let observation = trim_unicode(out_text.as_str());
            let error = if success {
                String::new()
            } else {
                let err_text = decode_lossy(&stderr);
                let trimmed_err = trim_unicode(err_text.as_str());
                if !trimmed_err.as_str().is_empty() {
                    trimmed_err
                } else {
                    let mut e = "exit code ".to_string();
                    match code {
                        Some(c) => {
                            push_str(&mut e, "Some(");
                            push_signed_decimal(&mut e, c);
                            push_char(&mut e, ')');
                            proof {
                                reveal_strlit(")");
                                assert(e@ =~= "exit code "@ + exit_code_text(code));
                            }
                        },
                        None => {
                            push_str(&mut e, "None");
                        },
                    }
                    e
                }
            };
            ActionResponse { observation, success, error }
        },
    }
}

/// The line a run leaves in the agent-action log:
/// `ACTION <reasoning_id> <skill_name> -> <observation, or error when it failed>`.
pub fn action_log_line(reasoning_id: &str, skill_name: &str, resp: &ActionResponse) -> (r: String)
    ensures
        r@ == "ACTION "@ + reasoning_id@ + " "@ + skill_name@ + " -> "@ + (if resp.success {
            resp.observation@
        } else {
            resp.error@
        }),
{
    let mut line = "ACTION ".to_string();
    push_str(&mut line, reasoning_id);
    push_str(&mut line, " ");
    push_str(&mut line, skill_name);
    push_str(&mut line, " -> ");
    if resp.success {
        push_str(&mut line, resp.observation.as_str());
    } else {
        push_str(&mut line, resp.error.as_str());
    }
    line
}

} // verus!
