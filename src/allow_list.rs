//! The allow-list of recognised skills: its canonical form and its integrity hash.
use vstd::prelude::*;
use vstd::utf8::encode_utf8;
use sha2::Digest;
use crate::text::{chars_of, ends_with, ends_with_chars, push_char, same_text, string_of};

verus! {

broadcast use vstd::seq_lib::group_to_multiset_ensures;

/// Names a digest of SHA-256.
pub uninterp spec fn sha256_of(data: Seq<u8>) -> Seq<u8>;

/// Relies on `sha2::Sha256::digest`: the 32-byte SHA-256 digest of `data`.
#[verifier::external_body]
fn sha256(data: &Vec<u8>) -> (r: Vec<u8>)
    ensures
        r@ == sha256_of(data@),
        r@.len() == 32,
{
    sha2::Sha256::digest(data.as_slice()).to_vec()
}

/// `a` comes no later than `b` in the ordering of strings by code point.
pub open spec fn lex_le(a: Seq<char>, b: Seq<char>) -> bool
    decreases a.len(),
{
    if a.len() == 0 {
        true
    } else if b.len() == 0 {
        false
    } else if a[0] != b[0] {
        (a[0] as u32) < (b[0] as u32)
    } else {
        lex_le(a.drop_first(), b.drop_first())
    }
}

/// Names in ascending order.
pub open spec fn sorted_names(s: Seq<Seq<char>>) -> bool {
    forall|i: int, j: int| 0 <= i < j < s.len() ==> lex_le(s[i], s[j])
}

/// The views of a list of strings.
pub open spec fn names_view(v: Seq<String>) -> Seq<Seq<char>> {
    v.map_values(|s: String| s@)
}

/// The skill that a directory entry provides: the stem of a `.py` file other than the
/// package initialiser.
pub open spec fn skill_stem(entry: Seq<char>) -> Option<Seq<char>> {
    if ends_with(entry, ".py"@) && entry != "__init__.py"@ {
        Some(entry.subrange(0, entry.len() - 3))
    } else {
        None
    }
}

/// The skills that a list of directory entries provides, in listing order.
pub open spec fn skill_stems(entries: Seq<Seq<char>>) -> Seq<Seq<char>>
    decreases entries.len(),
{
    if entries.len() == 0 {
        Seq::empty()
    } else {
        let rest = skill_stems(entries.drop_last());
        match skill_stem(entries.last()) {
            Some(n) => rest.push(n),
            None => rest,
        }
    }
}

/// The bytes that the allow-list hash covers: each name in UTF-8, ended by a line feed.
pub open spec fn hash_input(names: Seq<Seq<char>>) -> Seq<u8>
    decreases names.len(),
{
    if names.len() == 0 {
        Seq::empty()
    } else {
        hash_input(names.drop_last()) + encode_utf8(names.last()).push(10u8)
    }
}

pub open spec fn hex_digit(d: nat) -> char {
    if d < 10 {
        ((48 + d) as u8) as char
    } else {
        ((87 + d) as u8) as char
    }
}

/// Lower-case hexadecimal, two digits per byte.
pub open spec fn lower_hex(b: Seq<u8>) -> Seq<char>
    decreases b.len(),
{
    if b.len() == 0 {
        Seq::empty()
    } else {
        lower_hex(b.drop_last()).push(hex_digit((b.last() / 16) as nat)).push(
            hex_digit((b.last() % 16) as nat),
        )
    }
}

/// The allow-list hash of a list of names.
pub open spec fn allow_list_digest(names: Seq<Seq<char>>) -> Seq<char> {
    lower_hex(sha256_of(hash_input(names)))
}

proof fn lemma_lower_hex_len(b: Seq<u8>)
    ensures
        lower_hex(b).len() == 2 * b.len(),
    decreases b.len(),
{
    if b.len() > 0 {
        lemma_lower_hex_len(b.drop_last());
    }
}

fn hex_digit_of(d: u8) -> (r: char)
    requires
        d < 16,
    ensures
        r == hex_digit(d as nat),
{
    if d < 10 {
        (48 + d) as char
    } else {
        (87 + d) as char
    }
}

/// Lower-case hexadecimal of `b`.
pub fn to_lower_hex(b: &Vec<u8>) -> (r: String)
    ensures
        r@ == lower_hex(b@),
{
    let mut out = String::new();
    let mut i: usize = 0;
    while i < b.len()
        invariant
            i <= b@.len(),
            out@ == lower_hex(b@.subrange(0, i as int)),
        decreases b@.len() - i,
    {
        let x = b[i];
        push_char(&mut out, hex_digit_of(x / 16));
        push_char(&mut out, hex_digit_of(x % 16));
        proof {
            assert(b@.subrange(0, i + 1).drop_last() =~= b@.subrange(0, i as int));
        }
        i = i + 1;
    }
    proof {
        assert(b@.subrange(0, b@.len() as int) =~= b@);
    }
    out
}

proof fn lemma_lex_total(a: Seq<char>, b: Seq<char>)
    ensures
        lex_le(a, b) || lex_le(b, a),
    decreases a.len(),
{
    if a.len() > 0 && b.len() > 0 && a[0] == b[0] {
        lemma_lex_total(a.drop_first(), b.drop_first());
    } else if a.len() > 0 && b.len() > 0 {
        vstd::utf8::char_u32_cast(a[0], a[0] as u32);
        vstd::utf8::char_u32_cast(b[0], b[0] as u32);
    }
}

proof fn lemma_lex_antisymmetric(a: Seq<char>, b: Seq<char>)
    requires
        lex_le(a, b),
        lex_le(b, a),
    ensures
        a == b,
    decreases a.len(),
{
    if a.len() > 0 && b.len() > 0 {
        lemma_lex_antisymmetric(a.drop_first(), b.drop_first());
        assert(a =~= seq![a[0]] + a.drop_first());
        assert(b =~= seq![b[0]] + b.drop_first());
    } else {
        assert(a =~= b);
    }
}

proof fn lemma_lex_transitive(a: Seq<char>, b: Seq<char>, c: Seq<char>)
    requires
        lex_le(a, b),
        lex_le(b, c),
    ensures
        lex_le(a, c),
    decreases a.len(),
{
    if a.len() > 0 && b.len() > 0 && c.len() > 0 && a[0] == b[0] && b[0] == c[0] {
        lemma_lex_transitive(a.drop_first(), b.drop_first(), c.drop_first());
    }
}

proof fn lemma_insert_sorted(s: Seq<Seq<char>>, p: int, x: Seq<char>)
    requires
        sorted_names(s),
        0 <= p <= s.len(),
        forall|k: int| 0 <= k < p ==> lex_le(#[trigger] s[k], x),
        p < s.len() ==> lex_le(x, s[p]),
    ensures
        sorted_names(s.insert(p, x)),
{
    let t = s.insert(p, x);
    assert forall|j: int| p <= j < s.len() implies lex_le(x, #[trigger] s[j]) by {
        if p < j {
            lemma_lex_transitive(x, s[p], s[j]);
        }
    }
    assert forall|i: int, j: int| 0 <= i < j < t.len() implies lex_le(t[i], t[j]) by {
        if j < p {
        } else if j == p {
            assert(t[i] == s[i]);
        } else if i < p {
            assert(t[j] == s[j - 1]);
            lemma_lex_transitive(s[i], x, s[j - 1]);
        } else if i == p {
            assert(t[j] == s[j - 1]);
        } else {
            assert(t[i] == s[i - 1] && t[j] == s[j - 1]);
        }
    }
}

/// Whether `a` comes no later than `b` (see `lex_le`).
pub fn lex_le_of(a: &Vec<char>, b: &Vec<char>) -> (r: bool)
    ensures
        r == lex_le(a@, b@),
{
    let na = a.len();
    let nb = b.len();
    let mut i: usize = 0;
    proof {
        assert(a@.subrange(0, na as int) =~= a@);
        assert(b@.subrange(0, nb as int) =~= b@);
    }
    while i < na && i < nb && a[i] == b[i]
        invariant
            i <= na == a@.len(),
            i <= nb == b@.len(),
            lex_le(a@, b@) == lex_le(a@.subrange(i as int, na as int), b@.subrange(i as int, nb as int)),
        decreases na - i,
    {
        proof {
            assert(a@.subrange(i as int, na as int).drop_first() =~= a@.subrange(i + 1, na as int));
            assert(b@.subrange(i as int, nb as int).drop_first() =~= b@.subrange(i + 1, nb as int));
        }
        i = i + 1;
    }
    if i == na {
        true
    } else if i == nb {
        false
    } else {
        (a[i] as u32) < (b[i] as u32)
    }
}

/// `v` in ascending order.
pub fn sort_names(v: &Vec<String>) -> (r: Vec<String>)
    ensures
        sorted_names(names_view(r@)),
        names_view(r@).to_multiset() == names_view(v@).to_multiset(),
{
    let mut out: Vec<String> = Vec::new();
    let mut i: usize = 0;
    proof {
        assert(names_view(v@.subrange(0, 0)) =~= Seq::<Seq<char>>::empty());
        assert(names_view(out@) =~= Seq::<Seq<char>>::empty());
    }
    while i < v.len()
        invariant
            i <= v@.len(),
            sorted_names(names_view(out@)),
            names_view(out@).to_multiset() == names_view(v@.subrange(0, i as int)).to_multiset(),
        decreases v@.len() - i,
    {
        let x = v[i].clone();
        let xc = chars_of(x.as_str());
        let mut p: usize = 0;
        while p < out.len() && lex_le_of(&chars_of(out[p].as_str()), &xc)
            invariant
                p <= out@.len(),
                xc@ == x@,
                forall|k: int| 0 <= k < p ==> lex_le(#[trigger] names_view(out@)[k], x@),
            decreases out@.len() - p,
        {
            p = p + 1;
        }
        proof {
            if p < out@.len() {
                lemma_lex_total(names_view(out@)[p as int], x@);
            }
            lemma_insert_sorted(names_view(out@), p as int, x@);
            assert(names_view(out@.insert(p as int, x)) =~= names_view(out@).insert(p as int, x@));
            assert(names_view(v@.subrange(0, i + 1)) =~= names_view(v@.subrange(0, i as int)).push(
                x@,
            ));
        }
        out.insert(p, x);
        i = i + 1;
    }
    proof {
        assert(v@.subrange(0, v@.len() as int) =~= v@);
    }
    out
}

proof fn lemma_lex_reflexive(a: Seq<char>)
    ensures
        lex_le(a, a),
    decreases a.len(),
{
    if a.len() > 0 {
        lemma_lex_reflexive(a.drop_first());
    }
}

proof fn lemma_sorted_unique(a: Seq<Seq<char>>, b: Seq<Seq<char>>)
    requires
        sorted_names(a),
        sorted_names(b),
        a.to_multiset() == b.to_multiset(),
    ensures
        a == b,
    decreases a.len(),
{
    assert(a.len() == a.to_multiset().len());
    assert(b.len() == b.to_multiset().len());
    if a.len() == 0 {
        assert(a =~= b);
    } else {
        let x = a[0];
        let y = b[0];
        assert(b.contains(y));
        assert(b.to_multiset().count(y) > 0);
        assert(a.contains(y));
        let k = choose|k: int| 0 <= k < a.len() && a[k] == y;
        if k == 0 {
            lemma_lex_reflexive(x);
        }
        assert(lex_le(x, y));
        assert(a.contains(x));
        assert(a.to_multiset().count(x) > 0);
        assert(b.contains(x));
        let m = choose|m: int| 0 <= m < b.len() && b[m] == x;
        if m == 0 {
            lemma_lex_reflexive(y);
        }
        assert(lex_le(y, x));
        lemma_lex_antisymmetric(x, y);
        assert(a.remove(0) =~= a.drop_first());
        assert(b.remove(0) =~= b.drop_first());
        assert(a.drop_first().to_multiset() == a.to_multiset().remove(x));
        assert(b.drop_first().to_multiset() == b.to_multiset().remove(y));
        assert(sorted_names(a.drop_first())) by {
            assert forall|i: int, j: int| 0 <= i < j < a.drop_first().len() implies lex_le(
                a.drop_first()[i],
                a.drop_first()[j],
            ) by {
                assert(a.drop_first()[i] == a[i + 1] && a.drop_first()[j] == a[j + 1]);
            }
        }
        assert(sorted_names(b.drop_first())) by {
            assert forall|i: int, j: int| 0 <= i < j < b.drop_first().len() implies lex_le(
                b.drop_first()[i],
                b.drop_first()[j],
            ) by {
                assert(b.drop_first()[i] == b[i + 1] && b.drop_first()[j] == b[j + 1]);
            }
        }
        lemma_sorted_unique(a.drop_first(), b.drop_first());
        assert(a =~= seq![x] + a.drop_first());
        assert(b =~= seq![y] + b.drop_first());
    }
}

/// The allow-list hash does not depend on listing order: two lists of the same names,
/// each put in ascending order, are the same list and give bit-identical hashes.
pub proof fn lemma_hash_independent_of_order(
    n1: Seq<Seq<char>>,
    n2: Seq<Seq<char>>,
    s1: Seq<Seq<char>>,
    s2: Seq<Seq<char>>,
)
    requires
        n1.to_multiset() == n2.to_multiset(),
        sorted_names(s1),
        s1.to_multiset() == n1.to_multiset(),
        sorted_names(s2),
        s2.to_multiset() == n2.to_multiset(),
    ensures
        s1 == s2,
        allow_list_digest(s1) == allow_list_digest(s2),
{
    lemma_sorted_unique(s1, s2);
}

/// The skill that a directory entry provides (see `skill_stem`).
pub fn skill_name_of(entry: &str) -> (r: Option<String>)
    ensures
        r matches Some(n) ==> skill_stem(entry@) == Some(n@),
        r is None ==> skill_stem(entry@) is None,
{
    let cs = chars_of(entry);
    proof {
        reveal_strlit(".py");
    }
    if ends_with_chars(&cs, &chars_of(".py")) && !same_text(entry, "__init__.py") {
        Some(string_of(&cs, 0, cs.len() - 3))
    } else {
        None
    }
}

/// The canonical allow-list of a directory listing: the skills that its entries provide,
/// in ascending order.
pub fn skill_names(entries: &Vec<String>) -> (r: Vec<String>)
    ensures
        sorted_names(names_view(r@)),
        names_view(r@).to_multiset() == skill_stems(names_view(entries@)).to_multiset(),
{
    let mut found: Vec<String> = Vec::new();
    let mut i: usize = 0;
    proof {
        assert(names_view(entries@.subrange(0, 0)) =~= Seq::<Seq<char>>::empty());
        assert(names_view(found@) =~= Seq::<Seq<char>>::empty());
    }
    while i < entries.len()
        invariant
            i <= entries@.len(),
            names_view(found@) == skill_stems(names_view(entries@.subrange(0, i as int))),
        decreases entries@.len() - i,
    {
        proof {
            assert(names_view(entries@.subrange(0, i + 1)).drop_last() =~= names_view(
                entries@.subrange(0, i as int),
            ));
        }
        match skill_name_of(entries[i].as_str()) {
            Some(n) => {
                proof {
                    assert(names_view(found@.push(n)) =~= names_view(found@).push(n@));
                }
                found.push(n);
            },
            None => {},
        }
        i = i + 1;
    }
    proof {
        assert(entries@.subrange(0, entries@.len() as int) =~= entries@);
    }
    sort_names(&found)
}

/// The allow-list hash: lower-case hexadecimal SHA-256 over the names, each ended by a
/// line feed.
pub fn allow_list_hash(skills: &Vec<String>) -> (r: String)
    ensures
        r@ == allow_list_digest(names_view(skills@)),
        r@.len() == 64,
{
    let mut data: Vec<u8> = Vec::new();
    let mut i: usize = 0;
    proof {
        assert(names_view(skills@.subrange(0, 0)) =~= Seq::<Seq<char>>::empty());
    }
    while i < skills.len()
        invariant
            i <= skills@.len(),
            data@ == hash_input(names_view(skills@.subrange(0, i as int))),
        decreases skills@.len() - i,
    {
        let bytes = skills[i].as_str().as_bytes();
        let ghost before = data@;
        let mut j: usize = 0;
        while j < bytes.len()
            invariant
                j <= bytes@.len(),
                data@ == before + bytes@.subrange(0, j as int),
            decreases bytes@.len() - j,
        {
            data.push(bytes[j]);
            proof {
                assert(before + bytes@.subrange(0, j + 1) =~= (before + bytes@.subrange(
                    0,
                    j as int,
                )).push(bytes@[j as int]));
            }
            j = j + 1;
        }
        data.push(10u8);
        proof {
            assert(bytes@.subrange(0, bytes@.len() as int) =~= bytes@);
            assert(names_view(skills@.subrange(0, i + 1)).drop_last() =~= names_view(
                skills@.subrange(0, i as int),
            ));
            assert(data@ =~= before + encode_utf8(skills@[i as int]@).push(10u8));
        }
        i = i + 1;
    }
    proof {
        assert(skills@.subrange(0, skills@.len() as int) =~= skills@);
    }
    let digest = sha256(&data);
    proof {
        lemma_lower_hex_len(digest@);
    }
    to_lower_hex(&digest)
}

/// The allow-list: the skills among the entries recorded at the version-control head
/// when there are any, else those among the entries on disk.
pub fn resolve_allow_list(at_head: &Vec<String>, on_disk: &Vec<String>) -> (r: Vec<String>)
    ensures
        sorted_names(names_view(r@)),
        skill_stems(names_view(at_head@)).len() > 0 ==> names_view(r@).to_multiset()
            == skill_stems(names_view(at_head@)).to_multiset(),
        skill_stems(names_view(at_head@)).len() == 0 ==> names_view(r@).to_multiset()
            == skill_stems(names_view(on_disk@)).to_multiset(),
{
    let from_head = skill_names(at_head);
    proof {
        let v = names_view(from_head@);
        let st = skill_stems(names_view(at_head@));
        assert(v.len() == from_head@.len());
        assert(v.to_multiset().len() == v.len());
        assert(st.to_multiset().len() == st.len());
    }
    if from_head.len() > 0 {
        from_head
    } else {
        proof {
            assert(names_view(from_head@).to_multiset().len() == 0);
        }
        skill_names(on_disk)
    }
}

} // verus!
