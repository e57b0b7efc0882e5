//! Finding directories from what was typed: fuzzy matching, the order of
//! names, the candidates offered while a path is typed, and tab completion.
use vstd::prelude::*;
use vstd::view::View as ViewTrait;

use super::app::{Action, ActionView, AppState, AppView};
use super::workspaces::{lowercase_of, to_lowercase};
use crate::config::{trim_end_char, trim_trailing_slashes};
use crate::path::{
    expand_tilde, file_name_of, join_path, joined, parent_of, path_file_name, path_parent,
    tilde_expansion_of,
};
use crate::text::{chars_of, decimal_text, starts_with, starts_with_at, str_eq, string_from_chars, strs, sub_chars, u64_to_text};

verus! {

broadcast use vstd::seq_lib::group_to_multiset_ensures;

// ---------------------------------------------------------------------------
// Fuzzy matching
// ---------------------------------------------------------------------------
/// The characters of `needle` appear in `haystack` in order (each matched to
/// the first fitting character after the previous match).
pub open spec fn subseq_of(needle: Seq<char>, haystack: Seq<char>) -> bool
    decreases haystack.len(),
{
    if needle.len() == 0 {
        true
    } else if haystack.len() == 0 {
        false
    } else if haystack[0] == needle[0] {
        subseq_of(needle.drop_first(), haystack.drop_first())
    } else {
        subseq_of(needle, haystack.drop_first())
    }
}

/// Simple fuzzy matching: all characters of `needle` appear in `haystack` in order.
pub fn fuzzy_match(haystack: &str, needle: &str) -> (r: bool)
    ensures
        r == subseq_of(needle@, haystack@),
{
    let h = chars_of(haystack);
    let n = chars_of(needle);
    let mut i: usize = 0;
    let mut j: usize = 0;
    assert(h@.subrange(0, h@.len() as int) =~= h@);
    assert(n@.subrange(0, n@.len() as int) =~= n@);
    while j < n.len()
        invariant
            i <= h@.len(),
            j <= n@.len(),
            subseq_of(needle@, haystack@) == subseq_of(
                n@.subrange(j as int, n@.len() as int),
                h@.subrange(i as int, h@.len() as int),
            ),
            h@ == haystack@,
            n@ == needle@,
        decreases h@.len() - i, n@.len() - j,
    {
        if i == h.len() {
            return false;
        }
        let ghost hs = h@.subrange(i as int, h@.len() as int);
        let ghost ns = n@.subrange(j as int, n@.len() as int);
        assert(hs.drop_first() =~= h@.subrange(i + 1, h@.len() as int));
        assert(ns.drop_first() =~= n@.subrange(j + 1, n@.len() as int));
        if h[i] == n[j] {
            j = j + 1;
        }
        i = i + 1;
    }
    true
}

/// Every text matches itself.
pub proof fn law_fuzzy_reflexive(s: Seq<char>)
    ensures
        subseq_of(s, s),
    decreases s.len(),
{
    if s.len() > 0 {
        law_fuzzy_reflexive(s.drop_first());
    }
}

/// The empty needle matches every haystack.
pub proof fn law_fuzzy_empty_needle(h: Seq<char>)
    ensures
        subseq_of(seq![], h),
{
}

/// A needle longer than the haystack never matches.
pub proof fn law_fuzzy_longer_needle(n: Seq<char>, h: Seq<char>)
    requires
        n.len() > h.len(),
    ensures
        !subseq_of(n, h),
    decreases h.len(),
{
    if h.len() > 0 {
        if h[0] == n[0] {
            law_fuzzy_longer_needle(n.drop_first(), h.drop_first());
        } else {
            law_fuzzy_longer_needle(n, h.drop_first());
        }
    }
}

/// A match survives text added after the haystack.
pub proof fn law_fuzzy_extend(n: Seq<char>, h: Seq<char>, more: Seq<char>)
    requires
        subseq_of(n, h),
    ensures
        subseq_of(n, h + more),
    decreases h.len(),
{
    if n.len() > 0 && h.len() > 0 {
        assert((h + more).drop_first() =~= h.drop_first() + more);
        if h[0] == n[0] {
            law_fuzzy_extend(n.drop_first(), h.drop_first(), more);
        } else {
            law_fuzzy_extend(n, h.drop_first(), more);
        }
    }
}

// ---------------------------------------------------------------------------
// The order of names
// ---------------------------------------------------------------------------
/// `a` comes before `b` as `String`s are ordered (character by character, by
/// code point; a proper prefix first).
pub open spec fn lex_lt(a: Seq<char>, b: Seq<char>) -> bool
    decreases a.len(),
{
    if a.len() == 0 {
        b.len() > 0
    } else if b.len() == 0 {
        false
    } else if a[0] != b[0] {
        a[0] < b[0]
    } else {
        lex_lt(a.drop_first(), b.drop_first())
    }
}

pub open spec fn lex_le(a: Seq<char>, b: Seq<char>) -> bool {
    a == b || lex_lt(a, b)
}

pub open spec fn sorted(s: Seq<Seq<char>>) -> bool {
    forall|i: int, j: int| 0 <= i < j < s.len() ==> lex_le(#[trigger] s[i], #[trigger] s[j])
}

pub proof fn lemma_lex_total(a: Seq<char>, b: Seq<char>)
    ensures
        lex_lt(a, b) || a == b || lex_lt(b, a),
        !(lex_lt(a, b) && lex_lt(b, a)),
        !lex_lt(a, a),
    decreases a.len(),
{
    if a.len() > 0 && b.len() > 0 {
        if a[0] == b[0] {
            lemma_lex_total(a.drop_first(), b.drop_first());
            if a.drop_first() == b.drop_first() {
                assert(a =~= seq![a[0]] + a.drop_first());
                assert(b =~= seq![b[0]] + b.drop_first());
            }
        }
    } else if a.len() == 0 && b.len() == 0 {
        assert(a =~= b);
    }
    if a.len() > 0 {
        lemma_lex_total(a.drop_first(), a.drop_first());
    }
}

pub proof fn lemma_lex_trans(a: Seq<char>, b: Seq<char>, c: Seq<char>)
    requires
        lex_lt(a, b),
        lex_lt(b, c),
    ensures
        lex_lt(a, c),
    decreases a.len(),
{
    if a.len() > 0 && b.len() > 0 && c.len() > 0 {
        if a[0] == b[0] && b[0] == c[0] {
            lemma_lex_trans(a.drop_first(), b.drop_first(), c.drop_first());
        }
    }
}

/// `a` comes before `b`.
fn str_lt(a: &Vec<char>, b: &Vec<char>) -> (r: bool)
    ensures
        r == lex_lt(a@, b@),
{
    let mut i: usize = 0;
    assert(a@.subrange(0, a@.len() as int) =~= a@);
    assert(b@.subrange(0, b@.len() as int) =~= b@);
    loop
        invariant
            i <= a@.len(),
            i <= b@.len(),
            lex_lt(a@, b@) == lex_lt(
                a@.subrange(i as int, a@.len() as int),
                b@.subrange(i as int, b@.len() as int),
            ),
        decreases a@.len() - i,
    {
        if i == a.len() {
            return i < b.len();
        }
        if i == b.len() {
            return false;
        }
        let ghost x = a@.subrange(i as int, a@.len() as int);
        let ghost y = b@.subrange(i as int, b@.len() as int);
        assert(x.drop_first() =~= a@.subrange(i + 1, a@.len() as int));
        assert(y.drop_first() =~= b@.subrange(i + 1, b@.len() as int));
        if a[i] != b[i] {
            return a[i] < b[i];
        }
        i = i + 1;
    }
}

/// The names in `String` order.
pub fn sort_names(v: Vec<String>) -> (r: Vec<String>)
    ensures
        sorted(strs(r@)),
        strs(r@).to_multiset() == strs(v@).to_multiset(),
{
    let mut out: Vec<String> = Vec::new();
    let mut keys: Vec<Vec<char>> = Vec::new();
    let mut i: usize = 0;
    while i < v.len()
        invariant
            i <= v@.len(),
            keys@.len() == out@.len(),
            forall|k: int| 0 <= k < out@.len() ==> #[trigger] keys@[k]@ == out@[k]@,
            sorted(strs(out@)),
            strs(out@).to_multiset() == strs(v@.subrange(0, i as int)).to_multiset(),
        decreases v@.len() - i,
    {
        let x = v[i].clone();
        let xc = chars_of(x.as_str());
        let mut k: usize = 0;
        while k < out.len() && !str_lt(&xc, &keys[k])
            invariant
                k <= out@.len(),
                keys@.len() == out@.len(),
                forall|m: int| 0 <= m < out@.len() ==> #[trigger] keys@[m]@ == out@[m]@,
                xc@ == x@,
                forall|m: int| 0 <= m < k ==> !lex_lt(x@, #[trigger] strs(out@)[m]),
            decreases out@.len() - k,
        {
            k = k + 1;
        }
        let ghost old_s = strs(out@);
        proof {
            assert forall|m: int| 0 <= m < k implies lex_le(#[trigger] old_s[m], x@) by {
                lemma_lex_total(old_s[m], x@);
            }
            assert forall|m: int| k <= m < old_s.len() implies lex_lt(x@, #[trigger] old_s[m]) by {
                assert(lex_lt(x@, old_s[k as int]));
                if m > k {
                    assert(lex_le(old_s[k as int], old_s[m]));
                    if old_s[k as int] != old_s[m] {
                        lemma_lex_trans(x@, old_s[k as int], old_s[m]);
                    }
                }
            }
        }
        out.insert(k, x);
        keys.insert(k, xc);
        proof {
            let new_s = strs(out@);
            assert(new_s =~= old_s.insert(k as int, x@));
            assert forall|a: int, b: int| 0 <= a < b < new_s.len() implies lex_le(
                #[trigger] new_s[a],
                #[trigger] new_s[b],
            ) by {
                if a < k && b < k {
                    assert(new_s[a] == old_s[a] && new_s[b] == old_s[b]);
                } else if a < k && b == k {
                } else if a < k && b > k {
                    assert(new_s[b] == old_s[b - 1]);
                    assert(lex_le(old_s[a], old_s[b - 1]));
                } else if a == k {
                    assert(new_s[b] == old_s[b - 1]);
                } else {
                    assert(new_s[a] == old_s[a - 1] && new_s[b] == old_s[b - 1]);
                }
            }
            assert forall|m: int| 0 <= m < out@.len() implies #[trigger] keys@[m]@ == out@[m]@ by {
                if m < k {
                } else if m == k {
                } else {
                }
            }
            vstd::seq_lib::to_multiset_insert(old_s, k as int, x@);
            assert(strs(v@.subrange(0, i + 1)) =~= strs(v@.subrange(0, i as int)).push(x@));
            vstd::seq_lib::to_multiset_build(strs(v@.subrange(0, i as int)), x@);
        }
        i = i + 1;
    }
    assert(v@.subrange(0, v@.len() as int) =~= v@);
    out
}

// ---------------------------------------------------------------------------
// Paths
// ---------------------------------------------------------------------------
/// Where to look and what to look for, for an expanded path: the directory
/// itself and no prefix where it ends with `/`; else its parent (`.` where it
/// has none) and its last component (empty where it has none).
pub open spec fn query_of(expanded: Seq<char>) -> (Seq<char>, Seq<char>) {
    if expanded.len() > 0 && expanded.last() == '/' {
        (expanded, seq![])
    } else {
        (
            match parent_of(expanded) {
                Some(p) => p,
                None => "."@,
            },
            match file_name_of(expanded) {
                Some(f) => f,
                None => seq![],
            },
        )
    }
}

/// The directory to read and the prefix to look for, for a typed path (its
/// `~` expanded first).
pub fn search_query(typed: &str) -> (r: (String, String))
    ensures
        exists|e: Seq<char>| tilde_expansion_of(typed@, e) && (r.0@, r.1@) == query_of(e),
{
    let expanded = expand_tilde(typed);
    let ec = chars_of(expanded.as_str());
    assert(tilde_expansion_of(typed@, expanded@));
    if ec.len() > 0 && ec[ec.len() - 1] == '/' {
        let p = expanded.clone();
        let r = (p, String::new());
        assert((r.0@, r.1@) == query_of(expanded@));
        r
    } else {
        let dir = match path_parent(expanded.as_str()) {
            Some(p) => p,
            None => String::from_str("."),
        };
        let prefix = match path_file_name(expanded.as_str()) {
            Some(f) => f,
            None => String::new(),
        };
        assert(!(expanded@.len() > 0 && expanded@.last() == '/'));
        let r = (dir, prefix);
        assert((r.0@, r.1@) == query_of(expanded@));
        r
    }
}

/// A path under the home directory written with `~` in its place.
pub open spec fn with_tilde(full: Seq<char>, home: Option<Seq<char>>) -> Seq<char> {
    match home {
        Some(h) => if starts_with(full, h) {
            seq!['~'] + full.subrange(h.len() as int, full.len() as int)
        } else {
            full
        },
        None => full,
    }
}

pub open spec fn opt_view(o: Option<&str>) -> Option<Seq<char>> {
    match o {
        Some(s) => Some(s@),
        None => None,
    }
}

fn tilde_form(full: &str, home: Option<&str>) -> (r: String)
    ensures
        r@ == with_tilde(full@, opt_view(home)),
{
    match home {
        Some(h) => {
            let fc = chars_of(full);
            let hc = chars_of(h);
            if starts_with_at(&fc, 0, &hc) {
                assert(fc@.subrange(0, fc@.len() as int) =~= fc@);
                let rest = sub_chars(&fc, hc.len(), fc.len());
                let mut out = String::from_str("~");
                let r = string_from_chars(&rest);
                out.append(r.as_str());
                proof {
                    reveal_strlit("~");
                }
                out
            } else {
                assert(fc@.subrange(0, fc@.len() as int) =~= fc@);
                String::from_str(full)
            }
        },
        None => String::from_str(full),
    }
}

// ---------------------------------------------------------------------------
// Candidates while a path is typed
// ---------------------------------------------------------------------------
/// The directories under the home directory offered when nothing is typed yet.
pub open spec fn common_directory_names() -> Seq<Seq<char>> {
    seq!["Desktop"@, "Documents"@, "Downloads"@, "Music"@, "Pictures"@, "Videos"@, "projects"@]
}

pub fn common_directories() -> (r: Vec<&'static str>)
    ensures
        r@.len() == common_directory_names().len(),
        forall|i: int| 0 <= i < r@.len() ==> #[trigger] r@[i]@ == common_directory_names()[i],
{
    let r = vec!["Desktop", "Documents", "Downloads", "Music", "Pictures", "Videos", "projects"];
    assert(r@.len() == 7);
    r
}

/// What is offered when nothing is typed: `~`, then `~/<name>` for each common
/// directory that exists under the home directory.
pub fn home_suggestions(present: &Vec<String>) -> (r: Vec<String>)
    ensures
        strs(r@) == seq!["~"@] + strs(present@).map_values(|p: Seq<char>| "~/"@ + p),
{
    let mut out: Vec<String> = Vec::new();
    out.push(String::from_str("~"));
    let mut i: usize = 0;
    while i < present.len()
        invariant
            i <= present@.len(),
            strs(out@) == seq!["~"@] + strs(present@.subrange(0, i as int)).map_values(
                |p: Seq<char>| "~/"@ + p,
            ),
        decreases present.len() - i,
    {
        let mut s = String::from_str("~/");
        s.append(present[i].as_str());
        let ghost before = strs(out@);
        out.push(s);
        assert(strs(out@) =~= before.push("~/"@ + present@[i as int]@));
        assert(strs(present@.subrange(0, i + 1)).map_values(|p: Seq<char>| "~/"@ + p) =~= strs(
            present@.subrange(0, i as int),
        ).map_values(|p: Seq<char>| "~/"@ + p).push("~/"@ + present@[i as int]@));
        i = i + 1;
    }
    assert(present@.subrange(0, present@.len() as int) =~= present@);
    out
}

/// Every name of `v`, once each, in `String` order, where `v` is in that
/// order already.
pub fn dedup_sorted(v: Vec<String>) -> (r: Vec<String>)
    requires
        sorted(strs(v@)),
    ensures
        forall|i: int, j: int|
            0 <= i < j < r@.len() ==> lex_lt(#[trigger] strs(r@)[i], #[trigger] strs(r@)[j]),
        forall|y: Seq<char>| strs(r@).contains(y) <==> strs(v@).contains(y),
{
    let mut out: Vec<String> = Vec::new();
    let mut i: usize = 0;
    while i < v.len()
        invariant
            i <= v@.len(),
            sorted(strs(v@)),
            forall|a: int, b: int|
                0 <= a < b < out@.len() ==> lex_lt(#[trigger] strs(out@)[a], #[trigger] strs(out@)[b]),
            i > 0 ==> out@.len() > 0 && strs(out@).last() == strs(v@)[i - 1],
            i == 0 ==> out@.len() == 0,
            forall|y: Seq<char>|
                strs(out@).contains(y) <==> strs(v@).subrange(0, i as int).contains(y),
        decreases v.len() - i,
    {
        let ghost before = strs(out@);
        let ghost prefix = strs(v@).subrange(0, i as int);
        let fresh = out.len() == 0 || !str_eq(out[out.len() - 1].as_str(), v[i].as_str());
        if fresh {
            proof {
                if i > 0 {
                    let last = strs(v@)[i - 1];
                    let x = strs(v@)[i as int];
                    assert(lex_le(last, x));
                    assert(lex_lt(last, x));
                    assert forall|a: int| 0 <= a < before.len() implies lex_lt(#[trigger] before[a], x) by {
                        if a < before.len() - 1 {
                            assert(lex_lt(before[a], before[before.len() - 1]));
                            lemma_lex_trans(before[a], last, x);
                        }
                    }
                }
            }
            out.push(v[i].clone());
            proof {
                let x = strs(v@)[i as int];
                assert(strs(out@) =~= before.push(x));
            }
        }
        proof {
            let x = strs(v@)[i as int];
            assert(strs(v@).subrange(0, i + 1) =~= prefix.push(x));
            let w = strs(v@).subrange(0, i + 1);
            let now = strs(out@);
            if fresh {
                assert(now =~= before.push(x));
            } else {
                assert(now == before);
                assert(before[before.len() - 1] == out@[out@.len() - 1]@);
                assert(before[before.len() - 1] == x);
            }
            assert forall|y: Seq<char>| now.contains(y) <==> w.contains(y) by {
                if w.contains(y) {
                    let k = choose|k: int| 0 <= k < w.len() && #[trigger] w[k] == y;
                    if k < i {
                        assert(prefix[k] == y);
                        assert(prefix.contains(y));
                        assert(before.contains(y));
                        let j = choose|j: int| 0 <= j < before.len() && #[trigger] before[j] == y;
                        assert(now[j] == y);
                    } else {
                        assert(now[now.len() - 1] == y);
                    }
                }
                if now.contains(y) {
                    let k = choose|k: int| 0 <= k < now.len() && #[trigger] now[k] == y;
                    if k < before.len() {
                        assert(before[k] == y);
                        assert(before.contains(y));
                        let m = choose|m: int| 0 <= m < prefix.len() && #[trigger] prefix[m] == y;
                        assert(w[m] == y);
                    } else {
                        assert(w[i as int] == y);
                    }
                }
            }
        }
        i = i + 1;
    }
    assert(strs(v@).subrange(0, v@.len() as int) =~= strs(v@));
    out
}

/// What the fuzzy picker offers, before ordering: `~` and the common
/// directories present under the home directory, the configured workspaces,
/// and, when something is typed, each subdirectory of it.
pub open spec fn picker_entries(
    present: Seq<Seq<char>>,
    workspaces: Seq<Seq<char>>,
    input: Seq<char>,
    names: Seq<Seq<char>>,
) -> Seq<Seq<char>> {
    seq!["~"@] + present.map_values(|p: Seq<char>| "~/"@ + p) + workspaces + if input.len() == 0 {
        seq![]
    } else {
        names.map_values(|n: Seq<char>| trim_end_char(input, '/') + "/"@ + n)
    }
}

/// The fuzzy picker's list: its entries once each, in `String` order.
pub fn picker_candidates(
    present: &Vec<String>,
    workspaces: &Vec<String>,
    input: &str,
    names: &Vec<String>,
) -> (r: Vec<String>)
    ensures
        forall|i: int, j: int|
            0 <= i < j < r@.len() ==> lex_lt(#[trigger] strs(r@)[i], #[trigger] strs(r@)[j]),
        forall|y: Seq<char>|
            strs(r@).contains(y) <==> picker_entries(
                strs(present@),
                strs(workspaces@),
                input@,
                strs(names@),
            ).contains(y),
{
    let mut all = home_suggestions(present);
    let mut i: usize = 0;
    while i < workspaces.len()
        invariant
            i <= workspaces@.len(),
            strs(all@) == seq!["~"@] + strs(present@).map_values(|p: Seq<char>| "~/"@ + p) + strs(
                workspaces@,
            ).subrange(0, i as int),
        decreases workspaces.len() - i,
    {
        let ghost before = strs(all@);
        all.push(workspaces[i].clone());
        assert(strs(all@) =~= before.push(workspaces@[i as int]@));
        assert(strs(workspaces@).subrange(0, i + 1) =~= strs(workspaces@).subrange(0, i as int).push(
            workspaces@[i as int]@,
        ));
        i = i + 1;
    }
    assert(strs(workspaces@).subrange(0, workspaces@.len() as int) =~= strs(workspaces@));
    let ghost base = strs(all@);
    if chars_of(input).len() > 0 {
        let stem = trim_trailing_slashes(input);
        let mut k: usize = 0;
        while k < names.len()
            invariant
                k <= names@.len(),
                stem@ == trim_end_char(input@, '/'),
                strs(all@) == base + strs(names@).subrange(0, k as int).map_values(
                    |n: Seq<char>| trim_end_char(input@, '/') + "/"@ + n,
                ),
            decreases names.len() - k,
        {
            let mut full = stem.clone();
            full.append("/");
            full.append(names[k].as_str());
            let ghost before = strs(all@);
            all.push(full);
            assert(strs(all@) =~= before.push(trim_end_char(input@, '/') + "/"@ + names@[k as int]@));
            assert(strs(names@).subrange(0, k + 1).map_values(
                |n: Seq<char>| trim_end_char(input@, '/') + "/"@ + n,
            ) =~= strs(names@).subrange(0, k as int).map_values(
                |n: Seq<char>| trim_end_char(input@, '/') + "/"@ + n,
            ).push(trim_end_char(input@, '/') + "/"@ + names@[k as int]@));
            k = k + 1;
        }
        assert(strs(names@).subrange(0, names@.len() as int) =~= strs(names@));
    } else {
        assert(base =~= base + Seq::<Seq<char>>::empty());
    }
    let ghost entries = strs(all@);
    assert(entries =~= picker_entries(strs(present@), strs(workspaces@), input@, strs(names@)));
    let ordered = sort_names(all);
    proof {
        assert forall|y: Seq<char>| strs(ordered@).contains(y) <==> entries.contains(y) by {
            assert(strs(ordered@).to_multiset().count(y) == entries.to_multiset().count(y));
        }
    }
    dedup_sorted(ordered)
}

/// A directory name is offered when nothing follows the directory, or when
/// the typed prefix matches it fuzzily, case ignored.
pub open spec fn offered(name: Seq<char>, prefix: Seq<char>) -> bool {
    prefix.len() == 0 || subseq_of(lowercase_of(prefix), lowercase_of(name))
}

/// How an offered directory is written: its name alone when searching `.`;
/// else its full path, with `~` for the home directory.
pub open spec fn candidate_path(dir: Seq<char>, name: Seq<char>, home: Option<Seq<char>>) -> Seq<char> {
    if dir == "."@ {
        name
    } else {
        with_tilde(joined(dir, name), home)
    }
}

/// The candidates, in the order of the names.
pub open spec fn candidates_of(dir: Seq<char>, prefix: Seq<char>, names: Seq<Seq<char>>, home: Option<
    Seq<char>,
>) -> Seq<Seq<char>>
    decreases names.len(),
{
    if names.len() == 0 {
        seq![]
    } else {
        let rest = candidates_of(dir, prefix, names.drop_last(), home);
        if offered(names.last(), prefix) {
            rest.push(candidate_path(dir, names.last(), home))
        } else {
            rest
        }
    }
}

/// The directories offered while a path is typed, sorted: of the
/// subdirectories `names` of `dir`, those that `prefix` matches.
pub fn fuzzy_candidates(dir: &str, prefix: &str, names: &Vec<String>, home: Option<&str>) -> (r: Vec<
    String,
>)
    ensures
        sorted(strs(r@)),
        strs(r@).to_multiset() == candidates_of(dir@, prefix@, strs(names@), opt_view(home)).to_multiset(),
{
    let lp = to_lowercase(prefix);
    let here = str_eq(dir, ".");
    let mut out: Vec<String> = Vec::new();
    let mut i: usize = 0;
    while i < names.len()
        invariant
            i <= names@.len(),
            lp@ == lowercase_of(prefix@),
            here == (dir@ == "."@),
            strs(out@) == candidates_of(dir@, prefix@, strs(names@.subrange(0, i as int)), opt_view(home)),
        decreases names.len() - i,
    {
        assert(strs(names@.subrange(0, i + 1)).drop_last() =~= strs(names@.subrange(0, i as int)));
        assert(strs(names@.subrange(0, i + 1)).last() == names@[i as int]@);
        let name = names[i].as_str();
        let take = if prefix.is_empty() {
            true
        } else {
            let ln = to_lowercase(name);
            fuzzy_match(ln.as_str(), lp.as_str())
        };
        if take {
            let full = if here {
                String::from_str(name)
            } else {
                let j = join_path(dir, name);
                tilde_form(j.as_str(), home)
            };
            let ghost before = strs(out@);
            out.push(full);
            assert(strs(out@) =~= before.push(full@));
        }
        i = i + 1;
    }
    assert(names@.subrange(0, names@.len() as int) =~= names@);
    sort_names(out)
}

impl AppState {
    /// Take in newly read candidates: the browsed match goes back to the
    /// first where it no longer exists.
    pub fn set_fuzzy_matches(&mut self, matches: Vec<String>)
        ensures
            final(self).wf(),
            final(self)@ == (AppView {
                fuzzy: strs(matches@),
                fuzzy_selected: if old(self).fuzzy_selected >= matches@.len() {
                    0
                } else {
                    old(self).fuzzy_selected
                },
                ..old(self)@
            }),
    {
        let n = matches.len();
        self.fuzzy_matches = matches;
        if self.fuzzy_selected >= n {
            self.fuzzy_selected = 0;
        }
    }
}

// ---------------------------------------------------------------------------
// Tab completion
// ---------------------------------------------------------------------------
/// The names that start with the prefix, in their order.
pub open spec fn starting_with(names: Seq<Seq<char>>, prefix: Seq<char>) -> Seq<Seq<char>>
    decreases names.len(),
{
    if names.len() == 0 {
        seq![]
    } else {
        let rest = starting_with(names.drop_last(), prefix);
        if starts_with(names.last(), prefix) {
            rest.push(names.last())
        } else {
            rest
        }
    }
}

/// Names joined with `, `.
pub open spec fn comma_list(names: Seq<Seq<char>>) -> Seq<char>
    decreases names.len(),
{
    if names.len() == 0 {
        seq![]
    } else if names.len() == 1 {
        names[0]
    } else {
        comma_list(names.drop_last()) + ", "@ + names.last()
    }
}

/// How several matches are listed: all of them up to five; else the first
/// three and how many more there are.
pub open spec fn matches_display(m: Seq<Seq<char>>) -> Seq<char> {
    if m.len() <= 5 {
        comma_list(m)
    } else {
        comma_list(m.subrange(0, 3)) + " and "@ + decimal_text(m.len() - 3) + " more"@
    }
}

/// What completing gives, given the sorted matching names (`None` where the
/// directory could not be read): the completed path (ending with `/`) where
/// exactly one name matches, and the status to show.
pub open spec fn completion_of(dir: Seq<char>, matches: Option<Seq<Seq<char>>>, home: Option<Seq<char>>) -> (
    Option<Seq<char>>,
    Seq<char>,
) {
    match matches {
        None => (None, "Cannot read directory: "@ + dir),
        Some(m) => if m.len() == 0 {
            (None, "No matching directories"@)
        } else if m.len() == 1 {
            let c = with_tilde(joined(dir, m[0]), home);
            (Some(c.push('/')), "Completed: "@ + c)
        } else {
            (None, decimal_text(m.len() as int) + " matches: "@ + matches_display(m))
        },
    }
}

fn comma_join(v: &Vec<String>, n: usize) -> (r: String)
    requires
        n <= v@.len(),
    ensures
        r@ == comma_list(strs(v@).subrange(0, n as int)),
{
    let mut out = String::new();
    let mut i: usize = 0;
    while i < n
        invariant
            i <= n <= v@.len(),
            out@ == comma_list(strs(v@).subrange(0, i as int)),
        decreases n - i,
    {
        let ghost before = strs(v@).subrange(0, i as int);
        assert(strs(v@).subrange(0, i + 1).drop_last() =~= before);
        if i > 0 {
            out.append(", ");
        }
        out.append(v[i].as_str());
        proof {
            if i == 0 {
                assert(out@ =~= strs(v@).subrange(0, 1)[0]);
            }
        }
        i = i + 1;
    }
    out
}

impl AppState {
    /// Finish completing the typed path, given the directory searched, the
    /// prefix looked for, the names of its subdirectories (`None` where it could
    /// not be read) and the home directory: exactly one match completes the
    /// path (and the candidates are then read again); the status says what
    /// happened.
    pub fn finish_completion(
        &mut self,
        dir: &str,
        prefix: &str,
        listing: Option<Vec<String>>,
        home: Option<&str>,
    ) -> (r: Action)
        ensures
            final(self).wf() == old(self).wf(),
            listing is None ==> final(self)@ == (AppView {
                status: "Cannot read directory: "@ + dir@,
                ..old(self)@
            }) && r@ == ActionView::Nothing,
            listing matches Some(l) ==> exists|sm: Seq<Seq<char>>|
                {
                    &&& sorted(sm)
                    &&& sm.to_multiset() == starting_with(strs(l@), prefix@).to_multiset()
                    &&& final(self)@ == (AppView {
                        status: completion_of(dir@, Some(sm), opt_view(home)).1,
                        input: match completion_of(dir@, Some(sm), opt_view(home)).0 {
                            Some(c) => c,
                            None => old(self)@.input,
                        },
                        ..old(self)@
                    })
                    &&& r@ == (if completion_of(dir@, Some(sm), opt_view(home)).0 is Some {
                        ActionView::UpdateFuzzyMatches
                    } else {
                        ActionView::Nothing
                    })
                },
    {
        if listing.is_none() {
            let mut msg = String::from_str("Cannot read directory: ");
            msg.append(dir);
            self.status_message = msg;
            Action::Nothing
        } else {
            let names = listing.unwrap();
            {
                let pc = chars_of(prefix);
                let mut found: Vec<String> = Vec::new();
                let mut i: usize = 0;
                while i < names.len()
                    invariant
                        i <= names@.len(),
                        pc@ == prefix@,
                        strs(found@) == starting_with(strs(names@.subrange(0, i as int)), prefix@),
                    decreases names.len() - i,
                {
                    assert(strs(names@.subrange(0, i + 1)).drop_last() =~= strs(
                        names@.subrange(0, i as int),
                    ));
                    assert(strs(names@.subrange(0, i + 1)).last() == names@[i as int]@);
                    let nc = chars_of(names[i].as_str());
                    let hit = starts_with_at(&nc, 0, &pc);
                    assert(nc@.subrange(0, nc@.len() as int) =~= nc@);
                    if hit {
                        let ghost before = strs(found@);
                        found.push(names[i].clone());
                        assert(strs(found@) =~= before.push(names@[i as int]@));
                    }
                    i = i + 1;
                }
                assert(names@.subrange(0, names@.len() as int) =~= names@);
                let m = sort_names(found);
                let ghost sm = strs(m@);
                let ghost old_view = self@;
                let n = m.len();
                if n == 0 {
                    self.status_message = String::from_str("No matching directories");
                    assert(self@ == (AppView {
                        status: completion_of(dir@, Some(sm), opt_view(home)).1,
                        input: old_view.input,
                        ..old_view
                    }));
                    assert(sorted(sm));
                    Action::Nothing
                } else if n == 1 {
                    assert(sm[0] == m@[0]@);
                    let j = join_path(dir, m[0].as_str());
                    let c = tilde_form(j.as_str(), home);
                    let mut msg = String::from_str("Completed: ");
                    msg.append(c.as_str());
                    let mut input = c;
                    push_slash(&mut input);
                    self.status_message = msg;
                    self.input_buffer = input;
                    assert(completion_of(dir@, Some(sm), opt_view(home)).0 == Some(c@.push('/')));
                    assert(self@ == (AppView {
                        status: completion_of(dir@, Some(sm), opt_view(home)).1,
                        input: c@.push('/'),
                        ..old_view
                    }));
                    assert(sorted(sm));
                    Action::UpdateFuzzyMatches
                } else {
                    let mut msg = u64_to_text(n as u64);
                    msg.append(" matches: ");
                    if n <= 5 {
                        let l = comma_join(&m, n);
                        assert(sm.subrange(0, n as int) =~= sm);
                        msg.append(l.as_str());
                        assert(msg@ =~= completion_of(dir@, Some(sm), opt_view(home)).1);
                    } else {
                        let l = comma_join(&m, 3);
                        msg.append(l.as_str());
                        msg.append(" and ");
                        let k = u64_to_text((n - 3) as u64);
                        msg.append(k.as_str());
                        msg.append(" more");
                        assert(msg@ =~= completion_of(dir@, Some(sm), opt_view(home)).1);
                    }
                    self.status_message = msg;
                    assert(self@ == (AppView {
                        status: completion_of(dir@, Some(sm), opt_view(home)).1,
                        input: old_view.input,
                        ..old_view
                    }));
                    assert(sorted(sm));
                    Action::Nothing
                }
            }
        }
    }
}

fn push_slash(s: &mut String)
    ensures
        final(s)@ == old(s)@.push('/'),
{
    crate::text::push_char(s, '/');
}

} // verus!
