//! The pending-patch store and the propose half of the patch lifecycle.
use vstd::prelude::*;
use dashmap::DashMap;
use crate::status::{Code, Status};
use crate::text::{first_line, first_line_of, push_str, same_text, string_of, chars_of, take_chars};

verus! {

#[verifier::external_type_specification]
#[verifier::external_body]
#[verifier::reject_recursive_types(K)]
#[verifier::reject_recursive_types(V)]
#[verifier::reject_recursive_types(S)]
pub struct ExDashMap<K, V, S>(DashMap<K, V, S>);

/// A proposed patch waiting to be applied.
#[derive(Debug)]
pub struct PendingPatch {
    pub proposed_code: String,
    pub requires_hitl: bool,
    pub component: String,
}

impl View for PendingPatch {
    type V = (Seq<char>, bool, Seq<char>);

    open spec fn view(&self) -> (Seq<char>, bool, Seq<char>) {
        (self.proposed_code@, self.requires_hitl, self.component@)
    }
}

/// A request to propose a patch for an observed failure.
#[derive(Clone, Debug)]
pub struct PatchRequest {
    pub error_trace: String,
    pub component: String,
}

/// A proposed patch, as handed back to the client.
#[derive(Clone, Debug)]
pub struct PatchResponse {
    pub patch_id: String,
    pub proposed_code: String,
    pub requires_hitl: bool,
}

/// Names what a map of pending patches holds: patch id to (code, needs approval, component).
pub uninterp spec fn pending_entries(m: DashMap<String, PendingPatch>) -> Map<
    Seq<char>,
    (Seq<char>, bool, Seq<char>),
>;

/// Names the debug rendering of a text: quoted, with special characters escaped.
pub uninterp spec fn debug_text_of(s: Seq<char>) -> Seq<char>;

/// Relies on `DashMap::new`: a map with no entries.
#[verifier::external_body]
fn pending_map_new() -> (m: DashMap<String, PendingPatch>)
    ensures
        pending_entries(m).dom() == Set::<Seq<char>>::empty(),
{
    DashMap::new()
}

/// Relies on `DashMap::insert`: the key now maps to the value, other keys unchanged.
#[verifier::external_body]
fn pending_map_insert(m: &mut DashMap<String, PendingPatch>, k: String, v: PendingPatch)
    ensures
        pending_entries(*final(m)) == pending_entries(*old(m)).insert(k@, v@),
{
    m.insert(k, v);
}

/// Relies on `DashMap::get`: the value under the key, if any.
#[verifier::external_body]
fn pending_map_get(m: &DashMap<String, PendingPatch>, k: &str) -> (r: Option<PendingPatch>)
    ensures
        r is Some <==> pending_entries(*m).contains_key(k@),
        r matches Some(p) ==> p@ == pending_entries(*m)[k@],
{
    m.get(k).map(
        |g| PendingPatch {
            proposed_code: g.proposed_code.clone(),
            requires_hitl: g.requires_hitl,
            component: g.component.clone(),
        },
    )
}

/// Relies on `DashMap::remove`: the key no longer maps to anything.
#[verifier::external_body]
fn pending_map_remove(m: &mut DashMap<String, PendingPatch>, k: &str)
    ensures
        pending_entries(*final(m)) == pending_entries(*old(m)).remove(k@),
{
    m.remove(k);
}

/// Relies on `DashMap::contains_key`: whether the key maps to something.
#[verifier::external_body]
fn pending_map_contains(m: &DashMap<String, PendingPatch>, k: &str) -> (r: bool)
    ensures
        r == pending_entries(*m).contains_key(k@),
{
    m.contains_key(k)
}

pub open spec fn is_lower_hex_digit(c: char) -> bool {
    ('0' <= c && c <= '9') || ('a' <= c && c <= 'f')
}

/// A version-4 UUID in hyphenated lower-case form: 36 characters, hyphens at 8, 13, 18
/// and 23, lower-case hex digits elsewhere, version digit `4`, variant digit one of
/// `8`, `9`, `a`, `b`.
pub open spec fn is_uuid_v4_text(s: Seq<char>) -> bool {
    &&& s.len() == 36
    &&& forall|i: int|
        0 <= i < 36 ==> if i == 8 || i == 13 || i == 18 || i == 23 {
            s[i] == '-'
        } else {
            is_lower_hex_digit(#[trigger] s[i])
        }
    &&& s[14] == '4'
    &&& (s[19] == '8' || s[19] == '9' || s[19] == 'a' || s[19] == 'b')
}

/// Relies on `uuid::Uuid::new_v4` (random bits with version 4 and the RFC variant set)
/// and its `Display`, the hyphenated lower-case form.
#[verifier::external_body]
pub(crate) fn new_uuid() -> (r: String)
    ensures
        is_uuid_v4_text(r@),
{
    uuid::Uuid::new_v4().to_string()
}

/// Relies on the `Debug` rendering of `str`.
#[verifier::external_body]
pub(crate) fn debug_text(s: &str) -> (r: String)
    ensures
        r@ == debug_text_of(s@),
{
    format!("{:?}", s)
}

/// Debug rendering of a list of texts: `[a, b]`, each element rendered by `debug_text_of`.
pub open spec fn debug_list(items: Seq<Seq<char>>) -> Seq<char> {
    "["@ + debug_items(items) + "]"@
}

pub open spec fn debug_items(items: Seq<Seq<char>>) -> Seq<char>
    decreases items.len(),
{
    if items.len() == 0 {
        Seq::empty()
    } else if items.len() == 1 {
        debug_text_of(items[0])
    } else {
        debug_items(items.drop_last()) + ", "@ + debug_text_of(items.last())
    }
}

/// The first two of `s`, or all of it when shorter.
pub open spec fn first_two(s: Seq<Seq<char>>) -> Seq<Seq<char>> {
    if s.len() <= 2 {
        s
    } else {
        s.subrange(0, 2)
    }
}

/// The proposed code for a failure: a header naming the first line of the trace (cut to
/// 200 characters) and a line listing up to two prior snippets.
pub open spec fn proposed_code(error_trace: Seq<char>, snippets: Seq<Seq<char>>) -> Seq<char> {
    "// Generic fix for: "@ + take_chars(first_line(error_trace), 200) + "\n// Based on prior hits: "@
        + debug_list(first_two(snippets))
}

/// Whether a component names the server itself.
pub open spec fn is_core(component: Seq<char>) -> bool {
    component == "rust_core"@
}

pub open spec fn texts_view(v: Seq<String>) -> Seq<Seq<char>> {
    v.map_values(|s: String| s@)
}

/// Composes the proposed code (see `proposed_code`).
pub fn compose_proposed_code(error_trace: &str, snippets: &Vec<String>) -> (r: String)
    ensures
        r@ == proposed_code(error_trace@, texts_view(snippets@)),
{
    let line = first_line_of(error_trace);
    let cs = chars_of(line.as_str());
    let end: usize = if cs.len() > 200 {
        200
    } else {
        cs.len()
    };
    let header = string_of(&cs, 0, end);
    let mut out = "// Generic fix for: ".to_string();
    push_str(&mut out, header.as_str());
    push_str(&mut out, "\n// Based on prior hits: ");
    push_str(&mut out, "[");
    let n: usize = if snippets.len() > 2 {
        2
    } else {
        snippets.len()
    };
    let ghost firsts = first_two(texts_view(snippets@));
    let ghost prefix = out@;
    let mut items = String::new();
    let mut i: usize = 0;
    while i < n
        invariant
            n <= snippets@.len(),
            n == firsts.len(),
            firsts == first_two(texts_view(snippets@)),
            i <= n,
            items@ == debug_items(firsts.subrange(0, i as int)),
        decreases n - i,
    {
        let d = debug_text(snippets[i].as_str());
        let ghost before = items@;
        if i > 0 {
            push_str(&mut items, ", ");
        }
        push_str(&mut items, d.as_str());
        proof {
            let p = firsts.subrange(0, i + 1);
            assert(p.drop_last() =~= firsts.subrange(0, i as int));
            assert(p.last() == snippets@[i as int]@);
            if i == 0 {
                assert(items@ =~= debug_text_of(p[0]));
            } else {
                assert(items@ =~= before + ", "@ + debug_text_of(p.last()));
            }
        }
        i = i + 1;
    }
    proof {
        assert(firsts.subrange(0, n as int) =~= firsts);
        if cs@.len() > 200 {
        } else {
            assert(cs@.subrange(0, end as int) =~= cs@);
        }
    }
    push_str(&mut out, items.as_str());
    push_str(&mut out, "]");
    proof {
        assert(out@ =~= proposed_code(error_trace@, texts_view(snippets@)));
    }
    out
}

/// The self-healing coordinator's state: where its trees live and the pending patches.
#[derive(Debug)]
pub struct Watchdog {
    /// The evolution registry's directory.
    registry_path: String,
    /// The server's source tree.
    core_dir: String,
    /// The reasoning worker's source tree.
    bridge_dir: String,
    /// Patches proposed and not yet applied, by id.
    pending_patches: DashMap<String, PendingPatch>,
}

impl Watchdog {
    /// The patches proposed and not yet applied, by id.
    pub closed spec fn pending(&self) -> Map<Seq<char>, (Seq<char>, bool, Seq<char>)> {
        pending_entries(self.pending_patches)
    }

    /// The registry, server and worker directories.
    pub closed spec fn paths(&self) -> (Seq<char>, Seq<char>, Seq<char>) {
        (self.registry_path@, self.core_dir@, self.bridge_dir@)
    }

    /// The evolution registry's directory.
    pub fn registry_path(&self) -> (r: &str)
        ensures
            r@ == self.paths().0,
    {
        self.registry_path.as_str()
    }

    /// The server's source tree.
    pub fn core_dir(&self) -> (r: &str)
        ensures
            r@ == self.paths().1,
    {
        self.core_dir.as_str()
    }

    /// The reasoning worker's source tree.
    pub fn bridge_dir(&self) -> (r: &str)
        ensures
            r@ == self.paths().2,
    {
        self.bridge_dir.as_str()
    }

    /// A coordinator over the given trees with no pending patch.
    pub fn new(registry_path: String, core_dir: String, bridge_dir: String) -> (r: Watchdog)
        ensures
            r.paths() == (registry_path@, core_dir@, bridge_dir@),
            r.pending() == Map::<Seq<char>, (Seq<char>, bool, Seq<char>)>::empty(),
    {
        let r = Watchdog {
            registry_path,
            core_dir,
            bridge_dir,
            pending_patches: pending_map_new(),
        };
        proof {
            assert(r.pending() =~= Map::<Seq<char>, (Seq<char>, bool, Seq<char>)>::empty());
        }
        r
    }

    /// The pending patch with this id, if any.
    pub fn pending_patch(&self, patch_id: &str) -> (r: Option<PendingPatch>)
        ensures
            r is Some <==> self.pending().contains_key(patch_id@),
            r matches Some(p) ==> p@ == self.pending()[patch_id@],
    {
        pending_map_get(&self.pending_patches, patch_id)
    }

    /// Drops the pending patch with this id.
    pub fn forget_patch(&mut self, patch_id: &str)
        ensures
            final(self).pending() == old(self).pending().remove(patch_id@),
            final(self).paths() == old(self).paths(),
    {
        pending_map_remove(&mut self.pending_patches, patch_id);
    }

    /// Proposes a patch for a failure, given the snippets of prior incidents that a search
    /// of the core knowledge base found. The patch waits under a freshly drawn version-4
    /// UUID (see `propose_patch_with_id`). It can fail only when the id drawn is already
    /// pending, so it always succeeds on a store with nothing pending.
    pub fn propose_patch(&mut self, req: PatchRequest, prior_snippets: &Vec<String>) -> (r: Result<
        PatchResponse,
        Status,
    >)
        ensures
            final(self).paths() == old(self).paths(),
            r matches Ok(resp) ==> {
                &&& resp.proposed_code@ == proposed_code(
                    req.error_trace@,
                    texts_view(prior_snippets@),
                )
                &&& resp.requires_hitl == is_core(req.component@)
                &&& is_uuid_v4_text(resp.patch_id@)
                &&& !old(self).pending().contains_key(resp.patch_id@)
                &&& final(self).pending() == old(self).pending().insert(
                    resp.patch_id@,
                    (resp.proposed_code@, resp.requires_hitl, req.component@),
                )
            },
            r matches Err(e) ==> e.code == Code::Internal && final(self).pending() == old(
                self,
            ).pending(),
            r is Err ==> exists|k: Seq<char>| old(self).pending().contains_key(k),
    {
        let patch_id = new_uuid();
        self.propose_patch_with_id(req, prior_snippets, patch_id)
    }

    /// Proposes a patch under the id `patch_id`. The patch needs human approval exactly
    /// when it targets the server itself. An id that is already pending is refused and
    /// nothing is stored.
    pub fn propose_patch_with_id(
        &mut self,
        req: PatchRequest,
        prior_snippets: &Vec<String>,
        patch_id: String,
    ) -> (r: Result<PatchResponse, Status>)
        ensures
            final(self).paths() == old(self).paths(),
            old(self).pending().contains_key(patch_id@) ==> (r matches Err(e) && e.code
                == Code::Internal && final(self).pending() == old(self).pending()),
            !old(self).pending().contains_key(patch_id@) ==> (r matches Ok(resp) && {
                &&& resp.patch_id@ == patch_id@
                &&& resp.proposed_code@ == proposed_code(
                    req.error_trace@,
                    texts_view(prior_snippets@),
                )
                &&& resp.requires_hitl == is_core(req.component@)
                &&& final(self).pending() == old(self).pending().insert(
                    patch_id@,
                    (resp.proposed_code@, resp.requires_hitl, req.component@),
                )
            }),
    {
        if pending_map_contains(&self.pending_patches, patch_id.as_str()) {
            return Err(Status::new(Code::Internal, "patch_id collision".to_string()));
        }
        let proposed_code = compose_proposed_code(req.error_trace.as_str(), prior_snippets);
        let requires_hitl = same_text(req.component.as_str(), "rust_core");
        pending_map_insert(
            &mut self.pending_patches,
            patch_id.clone(),
            PendingPatch {
                proposed_code: proposed_code.clone(),
                requires_hitl,
                component: req.component,
            },
        );
        Ok(PatchResponse { patch_id, proposed_code, requires_hitl })
    }

    /// The legacy self-heal call: it proposes nothing and never applies.
    pub fn propose_heal(&self, error_trace: &str) -> (r: (String, bool))
        ensures
            r.0@.len() == 0,
            !r.1,
    {
        (String::new(), false)
    }
}

/// Ids handed out by successful proposals are never pending already, so a second
/// proposal cannot hand out the id of a first one that is still pending.
pub proof fn lemma_patch_ids_unique(
    s0: Map<Seq<char>, (Seq<char>, bool, Seq<char>)>,
    id1: Seq<char>,
    p1: (Seq<char>, bool, Seq<char>),
    id2: Seq<char>,
)
    requires
        !s0.contains_key(id1),
        !s0.insert(id1, p1).contains_key(id2),
    ensures
        id1 != id2,
{
}

} // verus!
