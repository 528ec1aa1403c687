//! The configuration surface: typed settings read from process environment pairs.
use vstd::prelude::*;
use crate::text::{
    chars_of, eq_ignore_ascii_case, eq_ignore_case, parse_decimal, parse_decimal_of, push_str, same_text,
    trim_unicode, trimmed,
};

verus! {

/// A setting's text turns a switch on: `true`, `1`, `yes`, `on` or `y`, in any ASCII case,
/// once surrounding whitespace is dropped.
pub open spec fn truthy(v: Seq<char>) -> bool {
    let t = trimmed(v, false);
    eq_ignore_ascii_case(t, "true"@) || eq_ignore_ascii_case(t, "1"@) || eq_ignore_ascii_case(
        t,
        "yes"@,
    ) || eq_ignore_ascii_case(t, "on"@) || eq_ignore_ascii_case(t, "y"@)
}

/// A switch: its default when unset, else whether its text is truthy.
pub open spec fn flag_setting(v: Option<Seq<char>>, default: bool) -> bool {
    match v {
        Some(s) => truthy(s),
        None => default,
    }
}

/// A number: the decimal value of its text when that is a numeral no greater than `max`,
/// else its default.
pub open spec fn number_setting(v: Option<Seq<char>>, max: nat, default: nat) -> nat {
    match v {
        Some(s) => match parse_decimal(s, max) {
            Some(n) => n,
            None => default,
        },
        None => default,
    }
}

/// The value of the first pair in `vars` named `name`.
pub open spec fn env_value(vars: Seq<(String, String)>, name: Seq<char>) -> Option<Seq<char>>
    decreases vars.len(),
{
    if vars.len() == 0 {
        None
    } else if vars[0].0@ == name {
        Some(vars[0].1@)
    } else {
        env_value(vars.drop_first(), name)
    }
}

pub open spec fn text_or(v: Option<Seq<char>>, default: Seq<char>) -> Seq<char> {
    match v {
        Some(s) => s,
        None => default,
    }
}

/// Whether `v` is truthy (see `truthy`).
pub fn is_truthy(v: &str) -> (r: bool)
    ensures
        r == truthy(v@),
{
    let t = trim_unicode(v);
    let t = chars_of(t.as_str());
    eq_ignore_case(&t, &chars_of("true")) || eq_ignore_case(&t, &chars_of("1")) || eq_ignore_case(
        &t,
        &chars_of("yes"),
    ) || eq_ignore_case(&t, &chars_of("on")) || eq_ignore_case(&t, &chars_of("y"))
}

/// The value of the first pair in `vars` named `name`.
pub fn lookup(vars: &Vec<(String, String)>, name: &str) -> (r: Option<String>)
    ensures
        r matches Some(v) ==> env_value(vars@, name@) == Some(v@),
        r is None ==> env_value(vars@, name@) is None,
{
    let n = vars.len();
    let mut i: usize = 0;
    proof {
        assert(vars@.subrange(0, n as int) =~= vars@);
    }
    while i < n
        invariant
            i <= n == vars@.len(),
            env_value(vars@, name@) == env_value(vars@.subrange(i as int, n as int), name@),
        decreases n - i,
    {
        proof {
            assert(vars@.subrange(i as int, n as int).drop_first() =~= vars@.subrange(
                i + 1,
                n as int,
            ));
        }
        if same_text(vars[i].0.as_str(), name) {
            return Some(vars[i].1.clone());
        }
        i = i + 1;
    }
    proof {
        assert(vars@.subrange(i as int, n as int) =~= Seq::<(String, String)>::empty());
    }
    None
}

/// The switch `name` among `vars`, with its default.
pub fn flag(vars: &Vec<(String, String)>, name: &str, default: bool) -> (r: bool)
    ensures
        r == flag_setting(env_value(vars@, name@), default),
{
    match lookup(vars, name) {
        Some(v) => is_truthy(v.as_str()),
        None => default,
    }
}

/// The number `name` among `vars`, no greater than `max`, with its default.
pub fn number(vars: &Vec<(String, String)>, name: &str, max: u64, default: u64) -> (r: u64)
    requires
        default <= max,
    ensures
        r as nat == number_setting(env_value(vars@, name@), max as nat, default as nat),
        r <= max,
{
    match lookup(vars, name) {
        Some(v) => match parse_decimal_of(v.as_str(), max) {
            Some(n) => n,
            None => default,
        },
        None => default,
    }
}

/// The text `name` among `vars`, or `default`.
pub fn text(vars: &Vec<(String, String)>, name: &str, default: &str) -> (r: String)
    ensures
        r@ == text_or(env_value(vars@, name@), default@),
{
    match lookup(vars, name) {
        Some(v) => v,
        None => default.to_string(),
    }
}

/// `base` joined with a relative path.
pub open spec fn joined(base: Seq<char>, rel: Seq<char>) -> Seq<char> {
    base + "/"@ + rel
}

/// The runtime's configuration, read from environment pairs.
#[derive(Clone, Debug)]
pub struct Settings {
    /// TCP port of the listener (`PAGI_GRPC_PORT`, default 50051).
    pub grpc_port: u16,
    /// The evolution registry (`PAGI_REGISTRY_PATH`, default `<cwd>/../pagi-skills`).
    pub registry_path: String,
    /// The server's tree (`PAGI_CORE_DIR`, default `<cwd>`).
    pub core_dir: String,
    /// The worker's tree (`PAGI_BRIDGE_DIR`, default `<cwd>/../pagi-intelligence-bridge`).
    pub bridge_dir: String,
    /// Force mock dispatch (`PAGI_MOCK_MODE`, default off).
    pub mock_mode: bool,
    /// Permit real dispatch (`PAGI_ALLOW_REAL_DISPATCH`, default off).
    pub allow_real_dispatch: bool,
    /// Fail every apply after approval (`PAGI_FORCE_TEST_FAIL`, default off).
    pub force_test_fail: bool,
    /// Skip the pre-apply tests (`PAGI_SKIP_APPLY_TEST`, default off).
    pub skip_apply_test: bool,
    /// Commit applied patches (`PAGI_AUTO_COMMIT_SELF_PATCH`, default on).
    pub auto_commit: bool,
    /// Evolve skills from worker patches (`PAGI_AUTO_EVOLVE_SKILLS`, default off).
    pub auto_evolve: bool,
    /// Name of the approval flag file (`PAGI_APPROVE_FLAG`, default `approve.patch`).
    pub approve_flag: String,
    /// How long a simulated heal waits for approval (`PAGI_HITL_POLL_SECS`, default 30).
    pub hitl_poll_secs: u64,
    /// Registry watcher period (`PAGI_WATCH_INTERVAL_SECS`, default 60).
    pub watch_interval_secs: u64,
    /// Vector backend off (`PAGI_DISABLE_QDRANT`, default off).
    pub disable_vectors: bool,
    /// Vector width (`PAGI_EMBEDDING_DIM`, default 1536).
    pub embedding_dim: usize,
    /// Vector backend address (`PAGI_QDRANT_URI`, default `http://localhost:6334`).
    pub vector_uri: String,
    /// Vector backend key (`PAGI_QDRANT_API_KEY`), when set and non-empty.
    pub vector_api_key: Option<String>,
    /// Log of simulated heals (`PAGI_SELF_HEAL_LOG`, default `agent_actions.log`).
    pub self_heal_log: String,
    /// Log of agent actions (`PAGI_AGENT_ACTIONS_LOG`, else the self-heal log).
    pub agent_actions_log: String,
}

impl Settings {
    /// The settings that the environment pairs `vars` give, with paths resolved against `cwd`.
    pub fn from_vars(vars: &Vec<(String, String)>, cwd: &str) -> (r: Settings)
        ensures
            r.grpc_port as nat == number_setting(env_value(vars@, "PAGI_GRPC_PORT"@), 65535, 50051),
            r.registry_path@ == text_or(
                env_value(vars@, "PAGI_REGISTRY_PATH"@),
                joined(cwd@, "../pagi-skills"@),
            ),
            r.core_dir@ == text_or(env_value(vars@, "PAGI_CORE_DIR"@), cwd@),
            r.bridge_dir@ == text_or(
                env_value(vars@, "PAGI_BRIDGE_DIR"@),
                joined(cwd@, "../pagi-intelligence-bridge"@),
            ),
            r.mock_mode == flag_setting(env_value(vars@, "PAGI_MOCK_MODE"@), false),
            r.allow_real_dispatch == flag_setting(
                env_value(vars@, "PAGI_ALLOW_REAL_DISPATCH"@),
                false,
            ),
            r.force_test_fail == flag_setting(env_value(vars@, "PAGI_FORCE_TEST_FAIL"@), false),
            r.skip_apply_test == flag_setting(env_value(vars@, "PAGI_SKIP_APPLY_TEST"@), false),
            r.auto_commit == flag_setting(env_value(vars@, "PAGI_AUTO_COMMIT_SELF_PATCH"@), true),
            r.auto_evolve == flag_setting(env_value(vars@, "PAGI_AUTO_EVOLVE_SKILLS"@), false),
            r.approve_flag@ == text_or(env_value(vars@, "PAGI_APPROVE_FLAG"@), "approve.patch"@),
            r.hitl_poll_secs as nat == number_setting(
                env_value(vars@, "PAGI_HITL_POLL_SECS"@),
                u64::MAX as nat,
                30,
            ),
            r.watch_interval_secs as nat == number_setting(
                env_value(vars@, "PAGI_WATCH_INTERVAL_SECS"@),
                u64::MAX as nat,
                60,
            ),
            r.disable_vectors == flag_setting(env_value(vars@, "PAGI_DISABLE_QDRANT"@), false),
            r.embedding_dim as nat == number_setting(
                env_value(vars@, "PAGI_EMBEDDING_DIM"@),
                usize::MAX as nat,
                1536,
            ),
            r.vector_uri@ == text_or(
                env_value(vars@, "PAGI_QDRANT_URI"@),
                "http://localhost:6334"@,
            ),
            r.vector_api_key matches Some(k) ==> env_value(vars@, "PAGI_QDRANT_API_KEY"@) == Some(
                k@,
            ) && k@.len() > 0,
            r.vector_api_key is None ==> !(env_value(vars@, "PAGI_QDRANT_API_KEY"@) matches Some(
                k,
            ) && k.len() > 0),
            r.self_heal_log@ == text_or(
                env_value(vars@, "PAGI_SELF_HEAL_LOG"@),
                "agent_actions.log"@,
            ),
            r.agent_actions_log@ == text_or(
                env_value(vars@, "PAGI_AGENT_ACTIONS_LOG"@),
                r.self_heal_log@,
            ),
    {
        let mut registry_default = cwd.to_string();
        push_str(&mut registry_default, "/../pagi-skills");
        let mut bridge_default = cwd.to_string();
        push_str(&mut bridge_default, "/../pagi-intelligence-bridge");
        proof {
            reveal_strlit("/../pagi-skills");
            reveal_strlit("../pagi-skills");
            reveal_strlit("/");
            reveal_strlit("/../pagi-intelligence-bridge");
            reveal_strlit("../pagi-intelligence-bridge");
            assert(registry_default@ =~= joined(cwd@, "../pagi-skills"@));
            assert(bridge_default@ =~= joined(cwd@, "../pagi-intelligence-bridge"@));
        }
        let vector_api_key = match lookup(vars, "PAGI_QDRANT_API_KEY") {
            Some(k) => if k.as_str().is_empty() {
                None
            } else {
                Some(k)
            },
            None => None,
        };
        let self_heal_log = text(vars, "PAGI_SELF_HEAL_LOG", "agent_actions.log");
        let agent_actions_log = text(vars, "PAGI_AGENT_ACTIONS_LOG", self_heal_log.as_str());
        Settings {
            grpc_port: number(vars, "PAGI_GRPC_PORT", 65535, 50051) as u16,
            registry_path: text(vars, "PAGI_REGISTRY_PATH", registry_default.as_str()),
            core_dir: text(vars, "PAGI_CORE_DIR", cwd),
            bridge_dir: text(vars, "PAGI_BRIDGE_DIR", bridge_default.as_str()),
            mock_mode: flag(vars, "PAGI_MOCK_MODE", false),
            allow_real_dispatch: flag(vars, "PAGI_ALLOW_REAL_DISPATCH", false),
            force_test_fail: flag(vars, "PAGI_FORCE_TEST_FAIL", false),
            skip_apply_test: flag(vars, "PAGI_SKIP_APPLY_TEST", false),
            auto_commit: flag(vars, "PAGI_AUTO_COMMIT_SELF_PATCH", true),
            auto_evolve: flag(vars, "PAGI_AUTO_EVOLVE_SKILLS", false),
            approve_flag: text(vars, "PAGI_APPROVE_FLAG", "approve.patch"),
            hitl_poll_secs: number(vars, "PAGI_HITL_POLL_SECS", u64::MAX, 30),
            watch_interval_secs: number(vars, "PAGI_WATCH_INTERVAL_SECS", u64::MAX, 60),
            disable_vectors: flag(vars, "PAGI_DISABLE_QDRANT", false),
            embedding_dim: number(vars, "PAGI_EMBEDDING_DIM", usize::MAX as u64, 1536) as usize,
            vector_uri: text(vars, "PAGI_QDRANT_URI", "http://localhost:6334"),
            vector_api_key,
            self_heal_log,
            agent_actions_log,
        }
    }

    /// The switches that shape an apply.
    pub fn apply_switches(&self) -> (r: crate::apply::ApplySwitches)
        ensures
            r.force_test_fail == self.force_test_fail,
            r.skip_apply_test == self.skip_apply_test,
            r.auto_commit == self.auto_commit,
            r.auto_evolve == self.auto_evolve,
    {
        crate::apply::ApplySwitches {
            force_test_fail: self.force_test_fail,
            skip_apply_test: self.skip_apply_test,
            auto_commit: self.auto_commit,
            auto_evolve: self.auto_evolve,
        }
    }
}

} // verus!
