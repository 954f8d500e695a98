use vstd::prelude::*;

verus! {

/// A header as the model sees it: its name and its value.
pub type HeaderModel = (Seq<char>, Seq<char>);

/// A character with ASCII upper-case letters folded to lower case, as a code.
pub open spec fn fold_char(c: char) -> int {
    if 65 <= (c as u32) && (c as u32) <= 90 {
        (c as u32) + 32
    } else {
        c as int
    }
}

/// Two header names denote the same header: they agree up to ASCII case.
pub open spec fn same_name(a: Seq<char>, b: Seq<char>) -> bool {
    &&& a.len() == b.len()
    &&& forall|i: int| 0 <= i < a.len() ==> #[trigger] fold_char(a[i]) == fold_char(b[i])
}

/// Some header of `hs` carries the name `k`.
pub open spec fn has_name(hs: Seq<HeaderModel>, k: Seq<char>) -> bool {
    exists|i: int| 0 <= i < hs.len() && same_name(#[trigger] hs[i].0, k)
}

/// The position of the header named `k` in `hs`, where there is one.
pub open spec fn name_index(hs: Seq<HeaderModel>, k: Seq<char>) -> int {
    choose|i: int| 0 <= i < hs.len() && same_name(#[trigger] hs[i].0, k)
}

/// No two headers of `hs` carry the same name.
pub open spec fn names_unique(hs: Seq<HeaderModel>) -> bool {
    forall|i: int, j: int|
        0 <= i < hs.len() && 0 <= j < hs.len() && i != j ==> !same_name(
            #[trigger] hs[i].0,
            #[trigger] hs[j].0,
        )
}

/// Setting header `k` to `v`: an existing header of that name keeps its place
/// and takes the new value; otherwise the header is added at the end.
pub open spec fn set_header(hs: Seq<HeaderModel>, k: Seq<char>, v: Seq<char>) -> Seq<HeaderModel> {
    if has_name(hs, k) {
        let i = name_index(hs, k);
        hs.update(i, (hs[i].0, v))
    } else {
        hs.push((k, v))
    }
}

/// The value of header `k` in `hs`, if any.
pub open spec fn header_value(hs: Seq<HeaderModel>, k: Seq<char>) -> Option<Seq<char>> {
    if has_name(hs, k) {
        Some(hs[name_index(hs, k)].1)
    } else {
        None
    }
}

/// Setting every pair of `pairs` in turn, starting from `hs`.
pub open spec fn set_all(hs: Seq<HeaderModel>, pairs: Seq<HeaderModel>) -> Seq<HeaderModel>
    decreases pairs.len(),
{
    if pairs.len() == 0 {
        hs
    } else {
        let last = pairs.last();
        set_header(set_all(hs, pairs.drop_last()), last.0, last.1)
    }
}

proof fn lemma_same_name_symmetric(a: Seq<char>, b: Seq<char>)
    requires
        same_name(a, b),
    ensures
        same_name(b, a),
{
}

proof fn lemma_same_name_transitive(a: Seq<char>, b: Seq<char>, c: Seq<char>)
    requires
        same_name(a, b),
        same_name(b, c),
    ensures
        same_name(a, c),
{
    assert forall|i: int| 0 <= i < a.len() implies #[trigger] fold_char(a[i]) == fold_char(c[i]) by {
        assert(fold_char(a[i]) == fold_char(b[i]));
        assert(fold_char(b[i]) == fold_char(c[i]));
    }
}

/// In a set of headers with unique names, at most one header carries a name.
proof fn lemma_unique_index(hs: Seq<HeaderModel>, k: Seq<char>, i: int)
    requires
        names_unique(hs),
        0 <= i < hs.len(),
        same_name(hs[i].0, k),
    ensures
        has_name(hs, k),
        name_index(hs, k) == i,
{
    let j = name_index(hs, k);
    if j != i {
        lemma_same_name_symmetric(hs[j].0, k);
        lemma_same_name_transitive(hs[i].0, k, hs[j].0);
    }
}

/// Setting a header keeps the names unique.
pub proof fn lemma_set_keeps_unique(hs: Seq<HeaderModel>, k: Seq<char>, v: Seq<char>)
    requires
        names_unique(hs),
    ensures
        names_unique(set_header(hs, k, v)),
{
    let r = set_header(hs, k, v);
    if has_name(hs, k) {
        assert forall|i: int, j: int|
            0 <= i < r.len() && 0 <= j < r.len() && i != j implies !same_name(
            #[trigger] r[i].0,
            #[trigger] r[j].0,
        ) by {
            assert(r[i].0 == hs[i].0);
            assert(r[j].0 == hs[j].0);
        }
    } else {
        assert forall|i: int, j: int|
            0 <= i < r.len() && 0 <= j < r.len() && i != j implies !same_name(
            #[trigger] r[i].0,
            #[trigger] r[j].0,
        ) by {
            if i == hs.len() as int {
                if same_name(r[i].0, r[j].0) {
                    lemma_same_name_symmetric(r[i].0, r[j].0);
                    assert(same_name(hs[j].0, k));
                }
            } else if j == hs.len() as int {
                if same_name(r[i].0, r[j].0) {
                    assert(same_name(hs[i].0, k));
                }
            } else {
                assert(r[i].0 == hs[i].0);
                assert(r[j].0 == hs[j].0);
            }
        }
    }
}

/// After header `k` is set to `v`, its value is `v`: the last value set wins.
pub proof fn lemma_set_then_value(hs: Seq<HeaderModel>, k: Seq<char>, v: Seq<char>)
    requires
        names_unique(hs),
    ensures
        header_value(set_header(hs, k, v), k) == Some(v),
{
    let r = set_header(hs, k, v);
    lemma_set_keeps_unique(hs, k, v);
    if has_name(hs, k) {
        let i = name_index(hs, k);
        lemma_unique_index(r, k, i);
    } else {
        let n = hs.len() as int;
        assert forall|j: int| 0 <= j < k.len() implies #[trigger] fold_char(k[j]) == fold_char(
            k[j],
        ) by {}
        assert(same_name(r[n].0, k));
        lemma_unique_index(r, k, n);
    }
}

/// Setting header `k` leaves the value of every other header as it was.
pub proof fn lemma_set_keeps_others(
    hs: Seq<HeaderModel>,
    k: Seq<char>,
    v: Seq<char>,
    other: Seq<char>,
)
    requires
        names_unique(hs),
        !same_name(k, other),
    ensures
        header_value(set_header(hs, k, v), other) == header_value(hs, other),
{
    let r = set_header(hs, k, v);
    lemma_set_keeps_unique(hs, k, v);
    if has_name(hs, other) {
        let i = name_index(hs, other);
        lemma_unique_index(hs, other, i);
        if has_name(hs, k) {
            let j = name_index(hs, k);
            if j == i {
                lemma_same_name_symmetric(hs[i].0, k);
                lemma_same_name_transitive(k, hs[i].0, other);
            }
        }
        assert(r[i] == hs[i]);
        lemma_unique_index(r, other, i);
    } else if has_name(r, other) {
        let i = name_index(r, other);
        if i < hs.len() {
            assert(r[i].0 == hs[i].0);
        } else {
            assert(r[i].0 == k);
        }
    }
}

/// Setting headers with pairwise distinct names one after another, starting
/// from no headers, yields exactly those headers, in the order they were set.
pub proof fn lemma_set_all_distinct(pairs: Seq<HeaderModel>)
    requires
        names_unique(pairs),
    ensures
        set_all(Seq::empty(), pairs) == pairs,
    decreases pairs.len(),
{
    if pairs.len() > 0 {
        let front = pairs.drop_last();
        let last = pairs.last();
        assert(names_unique(front)) by {
            assert forall|i: int, j: int|
                0 <= i < front.len() && 0 <= j < front.len() && i != j implies !same_name(
                #[trigger] front[i].0,
                #[trigger] front[j].0,
            ) by {
                assert(front[i] == pairs[i] && front[j] == pairs[j]);
            }
        }
        lemma_set_all_distinct(front);
        if has_name(front, last.0) {
            let i = name_index(front, last.0);
            assert(front[i] == pairs[i]);
            assert(i != pairs.len() - 1);
        }
        assert(set_all(Seq::empty(), pairs) =~= pairs);
    }
}

} // verus!
