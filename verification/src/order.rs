//! Stable ordering of selected records by a (text, number) key, the order
//! used for FIFO lot consumption and for replaying events by timestamp.
use vstd::prelude::*;
use crate::text::{chars_le, lemma_chars_le_total_order, text_le, text_eq};

verus! {

/// `a` comes strictly before `b` in lexicographic order.
pub open spec fn text_before(a: Seq<char>, b: Seq<char>) -> bool {
    chars_le(a, b) && a != b
}

/// Record `a` sorts before record `b` by (text, number), with ties kept in
/// index order, as a stable sort does.
pub open spec fn key_before(text: Seq<Seq<char>>, num: Seq<i64>, a: int, b: int) -> bool {
    ||| text_before(text[a], text[b])
    ||| (text[a] == text[b] && (num[a] < num[b] || (num[a] == num[b] && a < b)))
}

/// On distinct records `key_before` is a strict total order.
pub proof fn lemma_key_before_order(text: Seq<Seq<char>>, num: Seq<i64>, a: int, b: int, c: int)
    ensures
        !key_before(text, num, a, a),
        a != b ==> key_before(text, num, a, b) || key_before(text, num, b, a),
        !(key_before(text, num, a, b) && key_before(text, num, b, a)),
        key_before(text, num, a, b) && key_before(text, num, b, c) ==> key_before(text, num, a, c),
{
    lemma_chars_le_total_order(text[a], text[b], text[c]);
    lemma_chars_le_total_order(text[b], text[c], text[a]);
    lemma_chars_le_total_order(text[c], text[a], text[b]);
}

/// `out` lists exactly the selected indices below `n`, each once, in
/// `key_before` order.
pub open spec fn sorted_selection(
    text: Seq<Seq<char>>,
    num: Seq<i64>,
    pick: Seq<bool>,
    n: int,
    out: Seq<usize>,
) -> bool {
    &&& forall|p: int| 0 <= p < out.len() ==> 0 <= #[trigger] out[p] < n && pick[out[p] as int]
    &&& forall|i: int| 0 <= i < n && pick[i] ==> #[trigger] out.contains(i as usize)
    &&& forall|p: int, q: int|
        0 <= p < q < out.len() ==> key_before(text, num, #[trigger] out[p] as int, #[trigger] out[q] as int)
}

/// Whether record `a` sorts before record `b`.
fn before_exec(text: &Vec<String>, num: &Vec<i64>, a: usize, b: usize) -> (r: bool)
    requires
        a < text@.len(),
        b < text@.len(),
        num@.len() == text@.len(),
    ensures
        r == key_before(text@.map_values(|s: String| s@), num@, a as int, b as int),
{
    let ghost tv = text@.map_values(|s: String| s@);
    let ta = text[a].as_str();
    let tb = text[b].as_str();
    assert(tv[a as int] == ta@);
    assert(tv[b as int] == tb@);
    if text_eq(ta, tb) {
        num[a] < num[b] || (num[a] == num[b] && a < b)
    } else {
        text_le(ta, tb)
    }
}

/// The indices `i` with `pick[i]`, sorted stably by (`text[i]`, `num[i]`).
pub fn sort_selected(text: &Vec<String>, num: &Vec<i64>, pick: &Vec<bool>) -> (out: Vec<usize>)
    requires
        num@.len() == text@.len(),
        pick@.len() == text@.len(),
    ensures
        sorted_selection(text@.map_values(|s: String| s@), num@, pick@, text@.len() as int, out@),
{
    let ghost tv = text@.map_values(|s: String| s@);
    let n = text.len();
    let mut out: Vec<usize> = Vec::new();
    let mut i: usize = 0;
    while i < n
        invariant
            n == text@.len(),
            num@.len() == n,
            pick@.len() == n,
            tv == text@.map_values(|s: String| s@),
            i <= n,
            sorted_selection(tv, num@, pick@, i as int, out@),
        decreases n - i,
    {
        if pick[i] {
            let mut pos: usize = 0;
            while pos < out.len() && !before_exec(text, num, i, out[pos])
                invariant
                    n == text@.len(),
                    num@.len() == n,
                    tv == text@.map_values(|s: String| s@),
                    i < n,
                    pos <= out@.len(),
                    sorted_selection(tv, num@, pick@, i as int, out@),
                    forall|p: int| 0 <= p < pos ==> key_before(tv, num@, #[trigger] out@[p] as int, i as int),
                decreases out@.len() - pos,
            {
                proof {
                    lemma_key_before_order(tv, num@, out@[pos as int] as int, i as int, 0);
                }
                pos = pos + 1;
            }
            let ghost old_out = out@;
            proof {
                if pos < old_out.len() {
                    assert(key_before(tv, num@, i as int, old_out[pos as int] as int));
                }
                assert forall|q: int| pos <= q < old_out.len() implies key_before(tv, num@, i as int, #[trigger] old_out[q] as int) by {
                    if q > pos {
                        lemma_key_before_order(tv, num@, i as int, old_out[pos as int] as int, old_out[q] as int);
                    }
                }
            }
            out.insert(pos, i);
            proof {
                let new_out = out@;
                assert(new_out =~= old_out.insert(pos as int, i));
                assert forall|p: int, q: int| 0 <= p < q < new_out.len() implies key_before(tv, num@, #[trigger] new_out[p] as int, #[trigger] new_out[q] as int) by {
                    if p < pos && q < pos {
                        assert(new_out[p] == old_out[p] && new_out[q] == old_out[q]);
                    } else if p < pos && q == pos {
                        assert(new_out[p] == old_out[p]);
                    } else if p < pos {
                        assert(new_out[p] == old_out[p] && new_out[q] == old_out[q - 1]);
                        lemma_key_before_order(tv, num@, old_out[p] as int, i as int, old_out[q - 1] as int);
                    } else if p == pos {
                        assert(new_out[q] == old_out[q - 1]);
                    } else {
                        assert(new_out[p] == old_out[p - 1] && new_out[q] == old_out[q - 1]);
                    }
                }
                assert forall|j: int| 0 <= j < i + 1 && pick@[j] implies #[trigger] new_out.contains(j as usize) by {
                    if j == i {
                        assert(new_out[pos as int] == i);
                    } else {
                        assert(old_out.contains(j as usize));
                        let p = choose|p: int| 0 <= p < old_out.len() && old_out[p] == j as usize;
                        if p < pos {
                            assert(new_out[p] == j as usize);
                        } else {
                            assert(new_out[p + 1] == j as usize);
                        }
                    }
                }
                assert forall|p: int| 0 <= p < new_out.len() implies 0 <= #[trigger] new_out[p] < i + 1 && pick@[new_out[p] as int] by {
                    if p < pos {
                        assert(new_out[p] == old_out[p]);
                    } else if p > pos {
                        assert(new_out[p] == old_out[p - 1]);
                    }
                }
            }
        }
        i = i + 1;
    }
    out
}

} // verus!
