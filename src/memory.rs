//! The tiered memory's own logic: the key/value layers and the decisions around
//! semantic search and vector upserts.
use vstd::prelude::*;
use dashmap::DashMap;
use crate::status::{Code, Status};
use crate::text::{push_decimal, decimal};

verus! {

/// Results a semantic search returns at most.
pub const MAX_SEARCH_LIMIT: i32 = 100;

/// Names what a text map holds: key to value.
pub uninterp spec fn text_entries(m: DashMap<String, String>) -> Map<Seq<char>, Seq<char>>;

/// Relies on `DashMap::new`: a map with no entries.
#[verifier::external_body]
fn text_map_new() -> (m: DashMap<String, String>)
    ensures
        text_entries(m).dom() == Set::<Seq<char>>::empty(),
{
    DashMap::new()
}

/// Relies on `DashMap::insert`: the key now maps to the value, other keys unchanged.
#[verifier::external_body]
fn text_map_insert(m: &mut DashMap<String, String>, k: String, v: String)
    ensures
        text_entries(*final(m)) == text_entries(*old(m)).insert(k@, v@),
{
    m.insert(k, v);
}

/// Relies on `DashMap::get`: the value under the key, if any.
#[verifier::external_body]
fn text_map_get(m: &DashMap<String, String>, k: &str) -> (r: Option<String>)
    ensures
        r is Some <==> text_entries(*m).contains_key(k@),
        r matches Some(v) ==> v@ == text_entries(*m)[k@],
{
    m.get(k).map(|g| g.value().clone())
}

pub open spec fn opt_text(v: Option<&str>) -> Option<Seq<char>> {
    match v {
        Some(t) => Some(t@),
        None => None,
    }
}

/// The value stored under `key`, or the empty text.
pub open spec fn stored(m: Map<Seq<char>, Seq<char>>, key: Seq<char>) -> Seq<char> {
    if m.contains_key(key) {
        m[key]
    } else {
        Seq::empty()
    }
}

/// A layer after a set-or-get: the value written, if one was given.
pub open spec fn after_access(
    m: Map<Seq<char>, Seq<char>>,
    key: Seq<char>,
    value: Option<Seq<char>>,
) -> Map<Seq<char>, Seq<char>> {
    match value {
        Some(v) => m.insert(key, v),
        None => m,
    }
}

/// The key/value layers of the memory: layer 1 (sensory) and layer 2 (working). Other
/// layers hold nothing.
#[derive(Debug)]
pub struct MemoryLayers {
    sensory: DashMap<String, String>,
    working: DashMap<String, String>,
}

impl MemoryLayers {
    pub closed spec fn sensory_view(&self) -> Map<Seq<char>, Seq<char>> {
        text_entries(self.sensory)
    }

    pub closed spec fn working_view(&self) -> Map<Seq<char>, Seq<char>> {
        text_entries(self.working)
    }

    /// Both layers empty.
    pub fn new() -> (r: MemoryLayers)
        ensures
            r.sensory_view() == Map::<Seq<char>, Seq<char>>::empty(),
            r.working_view() == Map::<Seq<char>, Seq<char>>::empty(),
    {
        let r = MemoryLayers { sensory: text_map_new(), working: text_map_new() };
        proof {
            assert(r.sensory_view() =~= Map::<Seq<char>, Seq<char>>::empty());
            assert(r.working_view() =~= Map::<Seq<char>, Seq<char>>::empty());
        }
        r
    }

    /// Set-or-get on a layer: on layer 1 or 2, stores `value` under `key` when one is
    /// given and answers what the key then holds; other layers answer the empty text.
    /// Every access reports success.
    pub fn access(&mut self, layer: i32, key: &str, value: Option<&str>) -> (r: (String, bool))
        ensures
            r.1,
            layer == 1 ==> final(self).sensory_view() == after_access(
                old(self).sensory_view(),
                key@,
                opt_text(value),
            ) && final(self).working_view() == old(self).working_view() && r.0@ == stored(
                final(self).sensory_view(),
                key@,
            ),
            layer == 2 ==> final(self).working_view() == after_access(
                old(self).working_view(),
                key@,
                opt_text(value),
            ) && final(self).sensory_view() == old(self).sensory_view() && r.0@ == stored(
                final(self).working_view(),
                key@,
            ),
            layer != 1 && layer != 2 ==> final(self).sensory_view() == old(self).sensory_view()
                && final(self).working_view() == old(self).working_view() && r.0@.len() == 0,
    {
        if layer != 1 && layer != 2 {
            return (String::new(), true);
        }
        let map = if layer == 1 {
            &mut self.sensory
        } else {
            &mut self.working
        };
        match value {
            Some(v) => text_map_insert(map, key.to_string(), v.to_string()),
            None => {},
        }
        let data = match text_map_get(map, key) {
            Some(d) => d,
            None => String::new(),
        };
        (data, true)
    }

    /// An access as the remote call states it: an empty value asks to read only.
    pub fn access_request(&mut self, layer: i32, key: &str, value: &str) -> (r: (String, bool))
        ensures
            r.1,
            layer == 1 ==> final(self).sensory_view() == after_access(
                old(self).sensory_view(),
                key@,
                if value@.len() == 0 { None } else { Some(value@) },
            ) && final(self).working_view() == old(self).working_view() && r.0@ == stored(
                final(self).sensory_view(),
                key@,
            ),
            layer == 2 ==> final(self).working_view() == after_access(
                old(self).working_view(),
                key@,
                if value@.len() == 0 { None } else { Some(value@) },
            ) && final(self).sensory_view() == old(self).sensory_view() && r.0@ == stored(
                final(self).working_view(),
                key@,
            ),
            layer != 1 && layer != 2 ==> final(self).sensory_view() == old(self).sensory_view()
                && final(self).working_view() == old(self).working_view() && r.0@.len() == 0,
    {
        if value.is_empty() {
            self.access(layer, key, None)
        } else {
            self.access(layer, key, Some(value))
        }
    }
}

/// The knowledge bases of the vector backend.
pub fn knowledge_base_names() -> (r: Vec<String>)
    ensures
        crate::allow_list::names_view(r@) == seq![
            "kb_core"@,
            "kb_skills"@,
            "kb_1"@,
            "kb_2"@,
            "kb_3"@,
            "kb_4"@,
            "kb_5"@,
            "kb_6"@,
        ],
{
    let mut r: Vec<String> = Vec::new();
    r.push("kb_core".to_string());
    r.push("kb_skills".to_string());
    r.push("kb_1".to_string());
    r.push("kb_2".to_string());
    r.push("kb_3".to_string());
    r.push("kb_4".to_string());
    r.push("kb_5".to_string());
    r.push("kb_6".to_string());
    proof {
        assert(crate::allow_list::names_view(r@) =~= seq![
            "kb_core"@,
            "kb_skills"@,
            "kb_1"@,
            "kb_2"@,
            "kb_3"@,
            "kb_4"@,
            "kb_5"@,
            "kb_6"@,
        ]);
    }
    r
}

/// The identifier of a stored point, as the vector backend reports it.
#[derive(Clone, Debug)]
pub enum PointKey {
    Missing,
    Num(u64),
    Uuid(String),
}

/// A payload field, as the vector backend reports it.
#[derive(Clone, Debug)]
pub enum PayloadField {
    Absent,
    Text(String),
    /// Present, but not text.
    Other,
}

/// How a search is run against the vector backend.
#[derive(Clone, Copy, Debug)]
pub struct SearchPlan {
    /// Results asked for, between 1 and `MAX_SEARCH_LIMIT`.
    pub limit: u64,
    /// Whether the client's vector is used; else the zero vector of the configured width.
    pub use_query_vector: bool,
}

pub open spec fn clamp_limit(limit: i32) -> int {
    if limit < 1 {
        1
    } else if limit > 100 {
        100
    } else {
        limit as int
    }
}

/// The search to run: none when the vector backend is off (the caller then answers with
/// no hits); else the limit clamped to `[1, MAX_SEARCH_LIMIT]`, and the client's vector
/// when it has the configured width.
pub fn plan_search(backend_enabled: bool, limit: i32, vector_len: usize, dim: usize) -> (r: Option<
    SearchPlan,
>)
    ensures
        !backend_enabled ==> r is None,
        backend_enabled ==> (r matches Some(p) && p.limit == clamp_limit(limit)
            && p.use_query_vector == (vector_len == dim)),
{
    if !backend_enabled {
        return None;
    }
    let clamped: i32 = if limit < 1 {
        1
    } else if limit > MAX_SEARCH_LIMIT {
        MAX_SEARCH_LIMIT
    } else {
        limit
    };
    Some(SearchPlan { limit: clamped as u64, use_query_vector: vector_len == dim })
}

/// The document id of a hit: the number in decimal, the UUID as it is, or empty.
pub fn document_id(key: &PointKey) -> (r: String)
    ensures
        key is Missing ==> r@.len() == 0,
        key matches PointKey::Num(n) ==> r@ == decimal(*n as nat),
        key matches PointKey::Uuid(s) ==> r@ == s@,
{
    match key {
        PointKey::Missing => String::new(),
        PointKey::Num(n) => {
            let mut s = String::new();
            push_decimal(&mut s, *n);
            s
        },
        PointKey::Uuid(s) => s.clone(),
    }
}

/// The snippet of a hit: the `content` field when present, else the `snippet` field,
/// provided the one chosen is text; otherwise a fixed stand-in.
pub fn hit_snippet(content: &PayloadField, snippet: &PayloadField) -> (r: String)
    ensures
        content matches PayloadField::Text(t) ==> r@ == t@,
        content is Other ==> r@ == "Snippet stub"@,
        content is Absent ==> (snippet matches PayloadField::Text(t) ==> r@ == t@),
        content is Absent && !(snippet is Text) ==> r@ == "Snippet stub"@,
{
    let chosen = match content {
        PayloadField::Absent => snippet,
        _ => content,
    };
    match chosen {
        PayloadField::Text(t) => t.clone(),
        _ => "Snippet stub".to_string(),
    }
}

/// Upserts need the vector backend: without it they fail their precondition.
pub fn check_upsert(backend_enabled: bool) -> (r: Result<(), Status>)
    ensures
        backend_enabled <==> r is Ok,
        r matches Err(e) ==> e.code == Code::FailedPrecondition,
{
    if backend_enabled {
        Ok(())
    } else {
        Err(
            Status::new(
                Code::FailedPrecondition,
                "Qdrant disabled (PAGI_DISABLE_QDRANT=true)".to_string(),
            ),
        )
    }
}

} // verus!
