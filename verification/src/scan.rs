//! Choosing which advertising device to connect to: among the local names
//! seen in a scan, the one that names an IQOS device, matches the optional
//! name filter, and comes first in name order.

use vstd::prelude::*;

use crate::protocol::types::{contains_ignoring_ascii_case, contains_upper};
use crate::text::lower_code;

verus! {

/// `pat` occurs in `hay` at position `i` once both are lower-cased on ASCII
/// letters.
pub open spec fn lower_matches_at(hay: Seq<char>, pat: Seq<char>, i: int) -> bool {
    &&& 0 <= i
    &&& i + pat.len() <= hay.len()
    &&& forall|j: int| 0 <= j < pat.len() ==> #[trigger] lower_code(hay[i + j]) == lower_code(pat[j])
}

/// `pat` occurs somewhere in `hay` once both are lower-cased on ASCII letters.
pub open spec fn contains_lower(hay: Seq<char>, pat: Seq<char>) -> bool {
    exists|i: int| lower_matches_at(hay, pat, i)
}

/// A local name that the scan accepts: it holds "IQOS" in any ASCII case,
/// and, when a filter is given, the filter in any ASCII case.
pub open spec fn accepts(name: Seq<char>, filter: Option<Seq<char>>) -> bool {
    &&& contains_upper(name, "IQOS"@)
    &&& match filter {
        Some(f) => contains_lower(name, f),
        None => true,
    }
}

/// `a` comes before `b` in name order: character by character by code
/// point, a proper prefix first. This is the order in which `String`
/// compares, since UTF-8 preserves code-point order byte by byte.
pub open spec fn precedes(a: Seq<char>, b: Seq<char>) -> bool
    decreases a.len(),
{
    if a.len() == 0 {
        b.len() > 0
    } else if b.len() == 0 {
        false
    } else if a[0] != b[0] {
        (a[0] as int) < (b[0] as int)
    } else {
        precedes(a.drop_first(), b.drop_first())
    }
}

/// The text of an optional filter.
pub open spec fn filter_text(filter: Option<&str>) -> Option<Seq<char>> {
    match filter {
        Some(f) => Some(f@),
        None => None,
    }
}

/// The text of each name.
pub open spec fn name_texts(names: Seq<String>) -> Seq<Seq<char>> {
    names.map_values(|n: String| n@)
}

/// Position `i` holds the device that the scan picks among `names`: an
/// accepted name that no accepted name precedes, and the first such one.
pub open spec fn picks(names: Seq<Seq<char>>, filter: Option<Seq<char>>, i: int) -> bool {
    &&& 0 <= i < names.len()
    &&& accepts(names[i], filter)
    &&& forall|j: int|
        0 <= j < names.len() && accepts(#[trigger] names[j], filter) ==> (j < i ==> precedes(
            names[i],
            names[j],
        )) && (i < j ==> !precedes(names[j], names[i]))
}

proof fn lemma_precedes_irreflexive(a: Seq<char>)
    ensures
        !precedes(a, a),
    decreases a.len(),
{
    if a.len() > 0 {
        lemma_precedes_irreflexive(a.drop_first());
    }
}

proof fn lemma_precedes_transitive(a: Seq<char>, b: Seq<char>, c: Seq<char>)
    requires
        precedes(a, b),
        precedes(b, c),
    ensures
        precedes(a, c),
    decreases a.len(),
{
    if a.len() > 0 && b.len() > 0 && c.len() > 0 && a[0] == b[0] && b[0] == c[0] {
        lemma_precedes_transitive(a.drop_first(), b.drop_first(), c.drop_first());
    }
}

proof fn lemma_precedes_total(a: Seq<char>, b: Seq<char>)
    ensures
        precedes(a, b) || precedes(b, a) || a == b,
    decreases a.len(),
{
    if a.len() == 0 && b.len() == 0 {
        assert(a =~= b);
    } else if a.len() > 0 && b.len() > 0 && a[0] == b[0] {
        lemma_precedes_total(a.drop_first(), b.drop_first());
        if a.drop_first() == b.drop_first() {
            assert(a =~= seq![a[0]] + a.drop_first());
            assert(b =~= seq![b[0]] + b.drop_first());
        }
    } else if a.len() > 0 && b.len() > 0 {
        assert((a[0] as int) != (b[0] as int));
    }
}

fn ascii_lower(c: char) -> (r: u32)
    ensures
        r == lower_code(c),
{
    let code = c as u32;
    if 65 <= code && code <= 90 {
        code + 32
    } else {
        code
    }
}

/// Whether `pat` occurs in `hay` once both are lower-cased on ASCII letters.
fn contains_ignoring_case(hay: &str, pat: &str) -> (r: bool)
    ensures
        r == contains_lower(hay@, pat@),
{
    let n = hay.unicode_len();
    let m = pat.unicode_len();
    if m > n {
        assert forall|i: int| !lower_matches_at(hay@, pat@, i) by {}
        return false;
    }
    let mut i: usize = 0;
    while i <= n - m
        invariant
            n == hay@.len(),
            m == pat@.len(),
            m <= n,
            forall|k: int| 0 <= k < i ==> !lower_matches_at(hay@, pat@, k),
        decreases n - m + 1 - i,
    {
        let mut j: usize = 0;
        let mut ok = true;
        while j < m && ok
            invariant
                n == hay@.len(),
                m == pat@.len(),
                i + m <= n,
                j <= m,
                ok <==> forall|jj: int|
                    0 <= jj < j ==> lower_code(hay@[i + jj]) == lower_code(pat@[jj]),
            decreases m - j,
        {
            if ascii_lower(hay.get_char(i + j)) != ascii_lower(pat.get_char(j)) {
                ok = false;
            }
            j = j + 1;
        }
        if ok {
            assert(lower_matches_at(hay@, pat@, i as int));
            return true;
        }
        assert(!lower_matches_at(hay@, pat@, i as int)) by {
            let jj = choose|jj: int|
                0 <= jj < j && lower_code(hay@[i + jj]) != lower_code(pat@[jj]);
            assert(lower_code(hay@[i + jj]) != lower_code(pat@[jj]));
        }
        i = i + 1;
    }
    assert forall|k: int| !lower_matches_at(hay@, pat@, k) by {
        if 0 <= k && k + m <= n {
            assert(k < i);
        }
    }
    false
}

/// Whether the scan accepts the local name `name` under `filter`.
pub fn accepts_name(name: &str, filter: Option<&str>) -> (r: bool)
    ensures
        r == accepts(name@, filter_text(filter)),
{
    let iqos = "IQOS";
    if !contains_ignoring_ascii_case(name, iqos) {
        return false;
    }
    match filter {
        Some(f) => contains_ignoring_case(name, f),
        None => true,
    }
}

/// Whether `a` comes before `b` in name order.
pub fn name_precedes(a: &str, b: &str) -> (r: bool)
    ensures
        r == precedes(a@, b@),
{
    let n = a.unicode_len();
    let m = b.unicode_len();
    let mut i: usize = 0;
    assert(a@.subrange(0, n as int) =~= a@);
    assert(b@.subrange(0, m as int) =~= b@);
    while i < n && i < m && a.get_char(i) == b.get_char(i)
        invariant
            n == a@.len(),
            m == b@.len(),
            i <= n,
            i <= m,
            precedes(a@, b@) == precedes(
                a@.subrange(i as int, n as int),
                b@.subrange(i as int, m as int),
            ),
        decreases n - i,
    {
        assert(a@.subrange(i as int, n as int).drop_first() =~= a@.subrange(i + 1, n as int));
        assert(b@.subrange(i as int, m as int).drop_first() =~= b@.subrange(i + 1, m as int));
        i = i + 1;
    }
    if i == n {
        i < m
    } else if i == m {
        false
    } else {
        (a.get_char(i) as u32) < (b.get_char(i) as u32)
    }
}

/// Pick the device to connect to among the local names seen in a scan: the
/// first, in name order, of those that hold "IQOS" and, when `filter` is
/// given, the filter, both in any ASCII case. `None` when no name qualifies.
pub fn select_device(names: &Vec<String>, filter: Option<&str>) -> (r: Option<usize>)
    ensures
        r matches Some(i) ==> picks(name_texts(names@), filter_text(filter), i as int),
        r is None ==> forall|j: int|
            0 <= j < names@.len() ==> !accepts(#[trigger] name_texts(names@)[j], filter_text(filter)),
{
    let ghost texts = name_texts(names@);
    let ghost fv = filter_text(filter);
    let mut best: Option<usize> = None;
    let mut i: usize = 0;
    while i < names.len()
        invariant
            texts == name_texts(names@),
            fv == filter_text(filter),
            i <= names@.len(),
            texts.len() == names@.len(),
            best matches Some(b) ==> b < i && picks(texts.subrange(0, i as int), fv, b as int),
            best is None ==> forall|j: int| 0 <= j < i ==> !accepts(#[trigger] texts[j], fv),
        decreases names@.len() - i,
    {
        let name = names[i].as_str();
        assert(name@ == texts[i as int]);
        if accepts_name(name, filter) {
            match best {
                None => {
                    best = Some(i);
                },
                Some(b) => {
                    if name_precedes(name, names[b].as_str()) {
                        proof {
                            let prefix = texts.subrange(0, i as int);
                            assert forall|j: int|
                                0 <= j < i && accepts(#[trigger] texts[j], fv) implies precedes(
                                texts[i as int],
                                texts[j],
                            ) by {
                                assert(prefix[j] == texts[j]);
                                if j < b {
                                    lemma_precedes_transitive(
                                        texts[i as int],
                                        texts[b as int],
                                        texts[j],
                                    );
                                } else if j > b {
                                    lemma_precedes_total(texts[j], texts[b as int]);
                                    if texts[j] != texts[b as int] {
                                        lemma_precedes_transitive(
                                            texts[i as int],
                                            texts[b as int],
                                            texts[j],
                                        );
                                    }
                                }
                            }
                        }
                        best = Some(i);
                    }
                },
            }
        }
        proof {
            let prefix = texts.subrange(0, i + 1);
            if let Some(b) = best {
                assert forall|j: int|
                    0 <= j < prefix.len() && accepts(#[trigger] prefix[j], fv) implies (j < b
                    ==> precedes(prefix[b as int], prefix[j])) && (b < j ==> !precedes(
                    prefix[j],
                    prefix[b as int],
                )) by {
                    assert(prefix[j] == texts[j]);
                    assert(prefix[b as int] == texts[b as int]);
                    if j < i && b < i {
                        assert(texts.subrange(0, i as int)[j] == texts[j]);
                        assert(texts.subrange(0, i as int)[b as int] == texts[b as int]);
                    }
                    if j == b {
                        lemma_precedes_irreflexive(texts[j]);
                    }
                }
            }
        }
        i = i + 1;
    }
    proof {
        assert(texts.subrange(0, i as int) =~= texts);
    }
    best
}

/// At most one position is the pick of a scan: the choice does not depend on
/// anything but the names and the filter.
pub proof fn law_pick_unique(names: Seq<Seq<char>>, filter: Option<Seq<char>>, i: int, j: int)
    requires
        picks(names, filter, i),
        picks(names, filter, j),
    ensures
        i == j,
{
    if i < j {
        assert(accepts(names[i], filter));
        assert(accepts(names[j], filter));
    } else if j < i {
        assert(accepts(names[i], filter));
        assert(accepts(names[j], filter));
    }
}

} // verus!
