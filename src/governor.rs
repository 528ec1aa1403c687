//! Request admission for delegated reasoning: recursion limit, operation-class denial
//! and input normalisation.
use vstd::prelude::*;
use crate::config::{env_value, flag_setting, is_truthy, lookup, number_setting};
use crate::status::{Code, Status};
use crate::text::{
    chars_of, contains, contains_chars, is_ascii_space, parse_decimal_of, string_of, take_chars,
    trim_bounds, trim_end, trim_start, trimmed,
};

verus! {

/// Longest text, in characters, that an admitted request carries.
pub const MAX_TEXT_CHARS: usize = 10240;

/// Recursion limit when none is configured.
pub const DEFAULT_MAX_DEPTH: u32 = 5;

/// A reasoning sub-query to be delegated.
#[derive(Clone, Debug)]
pub struct RlmRequest {
    pub sub_query: String,
    pub sub_context: String,
    pub depth: i32,
}

/// The admission filter for reasoning requests.
#[derive(Clone, Copy, Debug)]
pub struct SafetyGovernor {
    /// Deepest recursion admitted.
    pub max_depth: u32,
    /// Whether core operations need human approval.
    pub hitl_gate: bool,
}

/// Text as downstream consumers see it: ASCII whitespace trimmed at both ends, then cut
/// to at most `MAX_TEXT_CHARS` characters.
pub open spec fn sanitized(s: Seq<char>) -> Seq<char> {
    take_chars(trimmed(s, true), 10240)
}

/// A recursion depth within the limit.
pub open spec fn depth_admitted(depth: int, max_depth: u32) -> bool {
    0 <= depth <= max_depth
}

/// The query names a core operation while the human-approval gate is on.
pub open spec fn hitl_violation(hitl_gate: bool, sub_query: Seq<char>) -> bool {
    hitl_gate && contains(sub_query, "patch_core"@)
}

impl SafetyGovernor {
    /// The governor configured by `PAGI_MAX_RECURSION_DEPTH` (default 5) and
    /// `PAGI_HITL_GATE` (default on) among the environment pairs `vars`.
    pub fn new(vars: &Vec<(String, String)>) -> (r: SafetyGovernor)
        ensures
            r.max_depth as nat == number_setting(
                env_value(vars@, "PAGI_MAX_RECURSION_DEPTH"@),
                u32::MAX as nat,
                5,
            ),
            r.hitl_gate == flag_setting(env_value(vars@, "PAGI_HITL_GATE"@), true),
    {
        let max_depth = match lookup(vars, "PAGI_MAX_RECURSION_DEPTH") {
            Some(v) => match parse_decimal_of(v.as_str(), 4294967295) {
                Some(n) => n as u32,
                None => DEFAULT_MAX_DEPTH,
            },
            None => DEFAULT_MAX_DEPTH,
        };
        let hitl_gate = match lookup(vars, "PAGI_HITL_GATE") {
            Some(v) => is_truthy(v.as_str()),
            None => true,
        };
        SafetyGovernor { max_depth, hitl_gate }
    }

    /// Enforces the recursion limit and the core-operation gate, and normalises both
    /// text fields of an admitted request.
    pub fn guard_rlm(&self, req: RlmRequest) -> (r: Result<RlmRequest, Status>)
        ensures
            !depth_admitted(req.depth as int, self.max_depth) ==> (r matches Err(e) && e.code
                == Code::InvalidArgument),
            depth_admitted(req.depth as int, self.max_depth) && hitl_violation(
                self.hitl_gate,
                req.sub_query@,
            ) ==> (r matches Err(e) && e.code == Code::PermissionDenied),
            depth_admitted(req.depth as int, self.max_depth) && !hitl_violation(
                self.hitl_gate,
                req.sub_query@,
            ) ==> (r matches Ok(g) && g.sub_query@ == sanitized(req.sub_query@)
                && g.sub_context@ == sanitized(req.sub_context@) && g.depth == req.depth),
            r matches Ok(g) ==> g.sub_query@.len() <= MAX_TEXT_CHARS && g.sub_context@.len()
                <= MAX_TEXT_CHARS,
    {
        if req.depth < 0 || req.depth as u32 > self.max_depth {
            return Err(
                Status::invalid_argument("Recursion depth exceeded; circuit breaker activated"),
            );
        }
        let sub_query = self.sanitize(req.sub_query.as_str());
        let sub_context = self.sanitize(req.sub_context.as_str());
        if self.hitl_gate && contains_chars(
            &chars_of(req.sub_query.as_str()),
            &chars_of("patch_core"),
        ) {
            return Err(
                Status::new(
                    Code::PermissionDenied,
                    "HITL approval required for core operations".to_string(),
                ),
            );
        }
        proof {
            lemma_sanitized_shape(req.sub_query@);
            lemma_sanitized_shape(req.sub_context@);
        }
        Ok(RlmRequest { sub_query, sub_context, depth: req.depth })
    }

    /// `input` trimmed of ASCII whitespace and cut to `MAX_TEXT_CHARS` characters.
    pub fn sanitize(&self, input: &str) -> (r: String)
        ensures
            r@ == sanitized(input@),
    {
        let cs = chars_of(input);
        let (lo, hi) = trim_bounds(&cs, true);
        let end = if hi - lo > MAX_TEXT_CHARS {
            lo + MAX_TEXT_CHARS
        } else {
            hi
        };
        proof {
            if hi - lo > 10240 {
                assert(cs@.subrange(lo as int, hi as int).subrange(0, 10240) =~= cs@.subrange(
                    lo as int,
                    lo + 10240,
                ));
            }
        }
        string_of(&cs, lo, end)
    }
}

impl Default for SafetyGovernor {
    /// Recursion limit 5, human-approval gate on.
    fn default() -> (r: SafetyGovernor)
        ensures
            r.max_depth == DEFAULT_MAX_DEPTH,
            r.hitl_gate,
    {
        SafetyGovernor { max_depth: DEFAULT_MAX_DEPTH, hitl_gate: true }
    }
}

proof fn lemma_trim_start_first(s: Seq<char>, ascii_only: bool)
    ensures
        trim_start(s, ascii_only).len() > 0 ==> !crate::text::is_space(
            trim_start(s, ascii_only)[0],
            ascii_only,
        ),
    decreases s.len(),
{
    if s.len() > 0 && crate::text::is_space(s[0], ascii_only) {
        lemma_trim_start_first(s.drop_first(), ascii_only);
    }
}

proof fn lemma_trim_end_prefix(s: Seq<char>, ascii_only: bool)
    ensures
        trim_end(s, ascii_only).len() <= s.len(),
        trim_end(s, ascii_only) == s.subrange(0, trim_end(s, ascii_only).len() as int),
    decreases s.len(),
{
    if s.len() > 0 && crate::text::is_space(s.last(), ascii_only) {
        lemma_trim_end_prefix(s.drop_last(), ascii_only);
        assert(s.drop_last().subrange(0, trim_end(s, ascii_only).len() as int) =~= s.subrange(
            0,
            trim_end(s, ascii_only).len() as int,
        ));
    } else {
        assert(s.subrange(0, s.len() as int) =~= s);
    }
}

/// What an admitted request carries in place of a text `s`: a prefix of `s` trimmed,
/// at most `MAX_TEXT_CHARS` characters long, equal to `s` trimmed whenever that fits,
/// and never starting with whitespace.
pub proof fn lemma_sanitized_shape(s: Seq<char>)
    ensures
        sanitized(s).len() <= 10240,
        sanitized(s) == trimmed(s, true).subrange(0, sanitized(s).len() as int),
        trimmed(s, true).len() <= 10240 ==> sanitized(s) == trimmed(s, true),
        sanitized(s).len() > 0 ==> !is_ascii_space(sanitized(s)[0]),
{
    let t = trimmed(s, true);
    lemma_trim_start_first(s, true);
    lemma_trim_end_prefix(trim_start(s, true), true);
    if t.len() <= 10240 {
        assert(t.subrange(0, t.len() as int) =~= t);
    }
}

/// A depth equal to the limit is admitted; one more is not.
pub proof fn lemma_depth_boundary(max_depth: u32)
    ensures
        depth_admitted(max_depth as int, max_depth),
        !depth_admitted(max_depth + 1, max_depth),
{
}

/// A text without surrounding whitespace passes unchanged at exactly `MAX_TEXT_CHARS`
/// characters, and one character more is cut back to `MAX_TEXT_CHARS`.
pub proof fn lemma_length_boundary(s: Seq<char>)
    requires
        trimmed(s, true) == s,
    ensures
        s.len() == 10240 ==> sanitized(s) == s,
        s.len() == 10241 ==> sanitized(s) == s.subrange(0, 10240) && sanitized(s).len() == 10240,
{
}

} // verus!
