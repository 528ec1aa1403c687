//! Auto-evolution: the request that derives a new skill from a persisted patch, and how
//! its observation names the skill file.
use vstd::prelude::*;
use crate::allow_list::{allow_list_digest, allow_list_hash, names_view};
use crate::dispatch::{ActionRequest, ActionResponse};
use crate::patches::{debug_text, new_uuid};
use crate::status::{Code, Status};
use crate::text::{
    chars_of, ends_with, ends_with_chars, push_char, push_str, replace_char, replace_char_of,
    starts_with, starts_with_chars, string_of, trim_unicode, trimmed,
};

verus! {

/// Time the evolution skill may run, in milliseconds.
pub const EVOLVE_TIMEOUT_MS: u32 = 15000;

/// The path that an evolution observation reports: after trimming, the text following
/// `EVOLVED_PATH:`, trimmed again, non-empty, with backslashes turned into slashes.
pub open spec fn evolved_path_of(observation: Seq<char>) -> Option<Seq<char>> {
    let t = trimmed(observation, false);
    if starts_with(t, "EVOLVED_PATH:"@) {
        let p = trimmed(t.subrange(13, t.len() as int), false);
        if p.len() > 0 {
            Some(replace_char(p, '\\', '/'))
        } else {
            None
        }
    } else {
        None
    }
}

/// The request that runs the evolution skill on a patch's text, under the current
/// allow-list's hash.
pub fn evolve_request(patch_content: String, allow_list: &Vec<String>) -> (r: ActionRequest)
    ensures
        r.skill_name@ == "evolve_skill_from_patch"@,
        r.params@.len() == 1,
        r.params@[0].0@ == "patch_content"@,
        r.params@[0].1@ == patch_content@,
        r.depth == 0,
        starts_with(r.reasoning_id@, "auto-evolve-"@),
        !r.mock_mode,
        r.allow_list_hash@ == allow_list_digest(names_view(allow_list@)),
        r.timeout_ms == EVOLVE_TIMEOUT_MS,
{
    let mut reasoning_id = "auto-evolve-".to_string();
    let id = new_uuid();
    push_str(&mut reasoning_id, id.as_str());
    proof {
        assert(reasoning_id@.subrange(0, "auto-evolve-"@.len() as int) =~= "auto-evolve-"@);
    }
    let mut params: Vec<(String, String)> = Vec::new();
    params.push(("patch_content".to_string(), patch_content));
    ActionRequest {
        skill_name: "evolve_skill_from_patch".to_string(),
        params,
        depth: 0,
        reasoning_id,
        mock_mode: false,
        allow_list_hash: allow_list_hash(allow_list),
        timeout_ms: EVOLVE_TIMEOUT_MS,
    }
}

/// The skill file that a run of the evolution skill reports, relative to the worker tree.
/// A failed run, or an observation that names no path, is an internal error.
pub fn evolved_path(resp: &ActionResponse) -> (r: Result<String, Status>)
    ensures
        !resp.success ==> (r matches Err(e) && e.code == Code::Internal),
        resp.success ==> (r matches Ok(p) ==> evolved_path_of(resp.observation@) == Some(p@)),
        resp.success ==> (r is Err ==> evolved_path_of(resp.observation@) is None),
        r matches Err(e) ==> e.code == Code::Internal,
{
    if !resp.success {
        let mut m = "evolve_skill_from_patch failed: ".to_string();
        push_str(&mut m, resp.error.as_str());
        return Err(Status::new(Code::Internal, m));
    }
    let t = trim_unicode(resp.observation.as_str());
    let cs = chars_of(t.as_str());
    let prefix = chars_of("EVOLVED_PATH:");
    proof {
        reveal_strlit("EVOLVED_PATH:");
    }
    if starts_with_chars(&cs, &prefix) {
        let rest = string_of(&cs, 13, cs.len());
        let p = trim_unicode(rest.as_str());
        if !p.as_str().is_empty() {
            return Ok(replace_char_of(p.as_str(), '\\', '/'));
        }
    }
    let end: usize = if cs.len() > 80 {
        80
    } else {
        cs.len()
    };
    let head = string_of(&cs, 0, end);
    let mut m = "evolve_skill_from_patch observation missing EVOLVED_PATH: ".to_string();
    let shown = debug_text(head.as_str());
    push_str(&mut m, shown.as_str());
    Err(Status::new(Code::Internal, m))
}

/// `s` with every `..` removed, scanning from the left.
pub open spec fn drop_double_dots(s: Seq<char>) -> Seq<char>
    decreases s.len(),
{
    if s.len() >= 2 && s[0] == '.' && s[1] == '.' {
        drop_double_dots(s.subrange(2, s.len() as int))
    } else if s.len() == 0 {
        s
    } else {
        seq![s[0]] + drop_double_dots(s.drop_first())
    }
}

/// Characters a skill file name may keep: ASCII letters and digits, `_`, `-` and `.`.
pub open spec fn is_filename_char(c: char) -> bool {
    ('a' <= c && c <= 'z') || ('A' <= c && c <= 'Z') || ('0' <= c && c <= '9') || c == '_' || c
        == '-' || c == '.'
}

pub open spec fn keep_filename_chars(s: Seq<char>) -> Seq<char>
    decreases s.len(),
{
    if s.len() == 0 {
        s
    } else {
        let r = keep_filename_chars(s.drop_last());
        if is_filename_char(s.last()) {
            r.push(s.last())
        } else {
            r
        }
    }
}

/// A safe skill file name from untrusted text: trimmed, path separators turned into `_`,
/// every `..` removed, other characters outside the file-name set dropped, a fallback name
/// when nothing is left, and a `.py` ending.
pub open spec fn safe_skill_filename(raw: Seq<char>) -> Seq<char> {
    let a = replace_char(replace_char(trimmed(raw, false), '/', '_'), '\\', '_');
    let b = keep_filename_chars(drop_double_dots(a));
    let c = if b.len() == 0 {
        "evolved_skill.py"@
    } else {
        b
    };
    if ends_with(c, ".py"@) {
        c
    } else {
        c + ".py"@
    }
}

/// A safe skill file name (see `safe_skill_filename`).
pub fn sanitize_skill_filename(raw: &str) -> (r: String)
    ensures
        r@ == safe_skill_filename(raw@),
{
    let t = trim_unicode(raw);
    let t = replace_char_of(t.as_str(), '/', '_');
    let t = replace_char_of(t.as_str(), '\\', '_');
    let cs = chars_of(t.as_str());
    let n = cs.len();
    let mut undotted: Vec<char> = Vec::new();
    let mut i: usize = 0;
    proof {
        assert(cs@.subrange(0, n as int) =~= cs@);
        assert(undotted@ + cs@ =~= cs@);
    }
    while i < n
        invariant
            i <= n == cs@.len(),
            drop_double_dots(cs@) == undotted@ + drop_double_dots(cs@.subrange(i as int, n as int)),
        decreases n - i,
    {
        let rest = Ghost(cs@.subrange(i as int, n as int));
        if i + 1 < n && cs[i] == '.' && cs[i + 1] == '.' {
            proof {
                assert(rest@.subrange(2, rest@.len() as int) =~= cs@.subrange(i + 2, n as int));
            }
            i = i + 2;
        } else {
            proof {
                assert(rest@.drop_first() =~= cs@.subrange(i + 1, n as int));
                assert(undotted@.push(cs@[i as int]) + drop_double_dots(cs@.subrange(i + 1, n as int))
                    =~= undotted@ + (seq![cs@[i as int]] + drop_double_dots(
                    cs@.subrange(i + 1, n as int),
                )));
            }
            undotted.push(cs[i]);
            i = i + 1;
        }
    }
    proof {
        assert(cs@.subrange(n as int, n as int) =~= Seq::<char>::empty());
        assert(undotted@ + Seq::<char>::empty() =~= undotted@);
    }
    let mut kept = String::new();
    let mut j: usize = 0;
    while j < undotted.len()
        invariant
            j <= undotted@.len(),
            kept@ == keep_filename_chars(undotted@.subrange(0, j as int)),
        decreases undotted@.len() - j,
    {
        let c = undotted[j];
        proof {
            assert(undotted@.subrange(0, j + 1).drop_last() =~= undotted@.subrange(0, j as int));
        }
        if ('a' <= c && c <= 'z') || ('A' <= c && c <= 'Z') || ('0' <= c && c <= '9') || c == '_'
            || c == '-' || c == '.' {
            push_char(&mut kept, c);
        }
        j = j + 1;
    }
    proof {
        assert(undotted@.subrange(0, undotted@.len() as int) =~= undotted@);
    }
    let mut name = if kept.as_str().is_empty() {
        "evolved_skill.py".to_string()
    } else {
        kept
    };
    if !ends_with_chars(&chars_of(name.as_str()), &chars_of(".py")) {
        push_str(&mut name, ".py");
    }
    name
}

} // verus!
