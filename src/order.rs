//! Byte-wise lexicographic order on text, the order of Rust's `str`, and the
//! sorts that the dashboard's lists are shown in.

use vstd::prelude::*;
use vstd::string::*;
use vstd::utf8::*;
use vstd::seq_lib::*;
use vstd::multiset::Multiset;
use crate::model::Connection;
use crate::snapshot::distinct_texts;

verus! {

/// `a` sorts before `b` or equals it, comparing bytes from the left; a proper
/// prefix sorts first.
pub open spec fn lex_le(a: Seq<u8>, b: Seq<u8>) -> bool
    decreases a.len(),
{
    if a.len() == 0 {
        true
    } else if b.len() == 0 {
        false
    } else if a[0] < b[0] {
        true
    } else if a[0] > b[0] {
        false
    } else {
        lex_le(a.drop_first(), b.drop_first())
    }
}

pub proof fn lemma_lex_total(a: Seq<u8>, b: Seq<u8>)
    ensures
        lex_le(a, b) || lex_le(b, a),
    decreases a.len(),
{
    if a.len() > 0 && b.len() > 0 && a[0] == b[0] {
        lemma_lex_total(a.drop_first(), b.drop_first());
    }
}

pub proof fn lemma_lex_trans(a: Seq<u8>, b: Seq<u8>, c: Seq<u8>)
    requires
        lex_le(a, b),
        lex_le(b, c),
    ensures
        lex_le(a, c),
    decreases a.len(),
{
    if a.len() > 0 && b.len() > 0 && c.len() > 0 && a[0] == b[0] && b[0] == c[0] {
        lemma_lex_trans(a.drop_first(), b.drop_first(), c.drop_first());
    }
}

pub proof fn lemma_lex_refl(a: Seq<u8>)
    ensures
        lex_le(a, a),
    decreases a.len(),
{
    if a.len() > 0 {
        lemma_lex_refl(a.drop_first());
    }
}

/// Compares two byte strings in lexicographic order.
pub fn bytes_le(a: &[u8], b: &[u8]) -> (r: bool)
    ensures
        r == lex_le(a@, b@),
{
    let mut i: usize = 0;
    assert(a@.subrange(0, a@.len() as int) =~= a@);
    assert(b@.subrange(0, b@.len() as int) =~= b@);
    while i < a.len() && i < b.len() && a[i] == b[i]
        invariant
            i <= a@.len(),
            i <= b@.len(),
            lex_le(a@, b@) == lex_le(a@.subrange(i as int, a@.len() as int), b@.subrange(i as int, b@.len() as int)),
        decreases a@.len() - i,
    {
        proof {
            let sa = a@.subrange(i as int, a@.len() as int);
            let sb = b@.subrange(i as int, b@.len() as int);
            assert(sa.drop_first() =~= a@.subrange(i + 1, a@.len() as int));
            assert(sb.drop_first() =~= b@.subrange(i + 1, b@.len() as int));
        }
        i = i + 1;
    }
    let sa = Ghost(a@.subrange(i as int, a@.len() as int));
    let sb = Ghost(b@.subrange(i as int, b@.len() as int));
    if i == a.len() {
        assert(sa@.len() == 0);
        true
    } else if i == b.len() {
        assert(sb@.len() == 0);
        false
    } else {
        assert(sa@[0] == a@[i as int] && sb@[0] == b@[i as int]);
        a[i] < b[i]
    }
}

/// The bytes of a text in UTF-8.
pub open spec fn text_bytes(s: Seq<char>) -> Seq<u8> {
    encode_utf8(s)
}

fn text_le(a: &String, b: &String) -> (r: bool)
    ensures
        r == lex_le(text_bytes(a@), text_bytes(b@)),
{
    bytes_le(a.as_str().as_bytes(), b.as_str().as_bytes())
}

/// Whether the names are in strictly ascending byte order: each sorts before
/// every later one and differs from it.
pub open spec fn strictly_ascending(s: Seq<String>) -> bool {
    forall|i: int, j: int|
        0 <= i < j < s.len() ==> lex_le(text_bytes(#[trigger] s[i]@), text_bytes(#[trigger] s[j]@))
            && s[i]@ != s[j]@
}

/// Whether the connections are in descending order of their start texts,
/// the most recent first.
pub open spec fn newest_first(s: Seq<Connection>) -> bool {
    forall|i: int, j: int|
        0 <= i < j < s.len() ==> lex_le(
            text_bytes(#[trigger] s[j].start@),
            text_bytes(#[trigger] s[i].start@),
        )
}

/// `t` is the text of one of the first `bound` names.
pub open spec fn text_among(v: Seq<String>, bound: int, t: Seq<char>) -> bool {
    exists|m: int| 0 <= m < bound && #[trigger] v[m]@ == t
}

/// Sorts distinct names into ascending byte order.
pub fn sort_names(v: Vec<String>) -> (r: Vec<String>)
    requires
        distinct_texts(v@),
    ensures
        strictly_ascending(r@),
        r@.to_multiset() == v@.to_multiset(),
{
    let ghost orig = v@;
    let mut rest = v;
    let mut out: Vec<String> = Vec::new();
    proof {
        broadcast use group_to_multiset_ensures;
        assert(out@.to_multiset().add(rest@.to_multiset()) =~= orig.to_multiset());
        assert(orig.subrange(0, orig.len() as int) =~= orig);
    }
    while rest.len() > 0
        invariant
            strictly_ascending(out@),
            out@.to_multiset().add(rest@.to_multiset()) == orig.to_multiset(),
            distinct_texts(orig),
            rest@.len() <= orig.len(),
            rest@ == orig.subrange(orig.len() - rest@.len(), orig.len() as int),
            forall|j: int| 0 <= j < out@.len() ==> text_among(orig, orig.len() - rest@.len(), #[trigger] out@[j]@),
        decreases rest@.len(),
    {
        let ghost before = rest@;
        let ghost n = orig.len() - before.len();
        let x = rest.remove(0);
        proof {
            assert(before[0] == orig[n]);
            assert(rest@ =~= orig.subrange(n + 1, orig.len() as int));
            assert forall|j: int| 0 <= j < out@.len() implies #[trigger] out@[j]@ != x@ by {
                let m = choose|m: int| 0 <= m < n && #[trigger] orig[m]@ == out@[j]@;
                assert(orig[m]@ != orig[n]@);
            }
            assert(before =~= seq![x] + rest@);
            lemma_multiset_commutative(seq![x], rest@);
            assert(seq![x].to_multiset() =~= Multiset::empty().insert(x)) by {
                broadcast use group_to_multiset_ensures;
                assert(seq![x] =~= Seq::<String>::empty().push(x));
            }
        }
        let mut p: usize = 0;
        while p < out.len() && text_le(&out[p], &x)
            invariant
                p <= out@.len(),
                forall|k: int| 0 <= k < p ==> lex_le(text_bytes(#[trigger] out@[k]@), text_bytes(x@)),
            decreases out@.len() - p,
        {
            p = p + 1;
        }
        proof {
            if p < out@.len() {
                lemma_lex_total(text_bytes(out@[p as int]@), text_bytes(x@));
                assert forall|k: int| p <= k < out@.len() implies lex_le(
                    text_bytes(x@),
                    text_bytes(#[trigger] out@[k]@),
                ) by {
                    if k > p {
                        lemma_lex_trans(text_bytes(x@), text_bytes(out@[p as int]@), text_bytes(out@[k]@));
                    }
                }
            }
            to_multiset_insert(out@, p as int, x);
        }
        let ghost prev = out@;
        out.insert(p, x);
        assert(out@.to_multiset().add(rest@.to_multiset()) =~= orig.to_multiset());
        proof {
            assert forall|j: int| 0 <= j < out@.len() implies text_among(orig, orig.len() - rest@.len(), #[trigger] out@[j]@) by {
                if j < p {
                    assert(out@[j] == prev[j]);
                } else if j == p {
                    assert(orig[n]@ == out@[j]@);
                } else {
                    assert(out@[j] == prev[j - 1]);
                }
            }
            assert forall|a: int, b: int| 0 <= a < b < out@.len() implies lex_le(
                text_bytes(#[trigger] out@[a]@),
                text_bytes(#[trigger] out@[b]@),
            ) && out@[a]@ != out@[b]@ by {
                if b < p {
                    assert(out@[a] == prev[a] && out@[b] == prev[b]);
                } else if b == p {
                    assert(out@[a] == prev[a]);
                } else if a == p {
                    assert(out@[b] == prev[b - 1]);
                } else if a < p {
                    assert(out@[a] == prev[a] && out@[b] == prev[b - 1]);
                } else {
                    assert(out@[a] == prev[a - 1] && out@[b] == prev[b - 1]);
                }
            }
        }
    }
    proof {
        broadcast use group_to_multiset_ensures;
        assert(out@.to_multiset() =~= orig.to_multiset());
    }
    out
}


/// The connections of `s` that started at text `k`, in their order.
pub open spec fn with_start(s: Seq<Connection>, k: Seq<char>) -> Seq<Connection>
    decreases s.len(),
{
    if s.len() == 0 {
        Seq::empty()
    } else {
        let r = with_start(s.drop_last(), k);
        if s.last().start@ == k {
            r.push(s.last())
        } else {
            r
        }
    }
}

proof fn lemma_with_start_add(a: Seq<Connection>, b: Seq<Connection>, k: Seq<char>)
    ensures
        with_start(a + b, k) == with_start(a, k) + with_start(b, k),
    decreases b.len(),
{
    if b.len() == 0 {
        assert(a + b =~= a);
        assert(with_start(a, k) + with_start(b, k) =~= with_start(a, k));
    } else {
        assert((a + b).drop_last() =~= a + b.drop_last());
        lemma_with_start_add(a, b.drop_last(), k);
        if b.last().start@ == k {
            assert(with_start(a, k) + with_start(b, k) =~= (with_start(a, k) + with_start(b.drop_last(), k)).push(b.last()));
        }
    }
}

proof fn lemma_with_start_none(s: Seq<Connection>, k: Seq<char>)
    requires
        forall|q: int| 0 <= q < s.len() ==> #[trigger] s[q].start@ != k,
    ensures
        with_start(s, k) == Seq::<Connection>::empty(),
    decreases s.len(),
{
    if s.len() > 0 {
        lemma_with_start_none(s.drop_last(), k);
    }
}

/// Sorts connections by start text, the most recent first, keeping
/// connections that started at the same text in their order.
pub fn sort_newest_first(v: Vec<Connection>) -> (r: Vec<Connection>)
    ensures
        newest_first(r@),
        r@.to_multiset() == v@.to_multiset(),
        forall|k: Seq<char>| #[trigger] with_start(r@, k) == with_start(v@, k),
{
    let ghost orig = v@;
    let mut rest = v;
    let mut out: Vec<Connection> = Vec::new();
    proof {
        broadcast use group_to_multiset_ensures;
        assert(out@.to_multiset().add(rest@.to_multiset()) =~= orig.to_multiset());
        assert(orig.subrange(0, orig.len() as int) =~= orig);
        assert forall|k: Seq<char>| #[trigger] with_start(out@, k) == with_start(orig.subrange(0, 0), k) by {
            assert(orig.subrange(0, 0) =~= Seq::<Connection>::empty());
        }
    }
    while rest.len() > 0
        invariant
            newest_first(out@),
            out@.to_multiset().add(rest@.to_multiset()) == orig.to_multiset(),
            rest@.len() <= orig.len(),
            rest@ == orig.subrange(orig.len() - rest@.len(), orig.len() as int),
            forall|k: Seq<char>|
                #[trigger] with_start(out@, k) == with_start(orig.subrange(0, orig.len() - rest@.len()), k),
        decreases rest@.len(),
    {
        let ghost before = rest@;
        let ghost n = orig.len() - before.len();
        let x = rest.remove(0);
        proof {
            assert(before[0] == orig[n]);
            assert(rest@ =~= orig.subrange(n + 1, orig.len() as int));
            assert(before =~= seq![x] + rest@);
            lemma_multiset_commutative(seq![x], rest@);
            assert(seq![x].to_multiset() =~= Multiset::empty().insert(x)) by {
                broadcast use group_to_multiset_ensures;
                assert(seq![x] =~= Seq::<Connection>::empty().push(x));
            }
        }
        let mut p: usize = 0;
        while p < out.len() && text_le(&x.start, &out[p].start)
            invariant
                p <= out@.len(),
                forall|k: int|
                    0 <= k < p ==> lex_le(text_bytes(x.start@), text_bytes(#[trigger] out@[k].start@)),
            decreases out@.len() - p,
        {
            p = p + 1;
        }
        proof {
            if p < out@.len() {
                lemma_lex_total(text_bytes(out@[p as int].start@), text_bytes(x.start@));
                assert forall|k: int| p <= k < out@.len() implies lex_le(
                    text_bytes(#[trigger] out@[k].start@),
                    text_bytes(x.start@),
                ) by {
                    if k > p {
                        lemma_lex_trans(
                            text_bytes(out@[k].start@),
                            text_bytes(out@[p as int].start@),
                            text_bytes(x.start@),
                        );
                    }
                }
            }
            to_multiset_insert(out@, p as int, x);
            lemma_lex_refl(text_bytes(x.start@));
            assert forall|q: int| p <= q < out@.len() implies #[trigger] out@[q].start@ != x.start@ by {
                if out@[q].start@ == x.start@ && q > p {
                    assert(lex_le(text_bytes(out@[q].start@), text_bytes(out@[p as int].start@)));
                }
            }
        }
        let ghost prev = out@;
        out.insert(p, x);
        assert(out@.to_multiset().add(rest@.to_multiset()) =~= orig.to_multiset());
        proof {
            let head = prev.subrange(0, p as int);
            let tail = prev.subrange(p as int, prev.len() as int);
            assert(prev =~= head + tail);
            assert(out@ =~= head + seq![x] + tail);
            assert(orig.subrange(0, n + 1) =~= orig.subrange(0, n).push(x));
            assert(orig.subrange(0, n + 1).drop_last() =~= orig.subrange(0, n));
            assert(seq![x].drop_last() =~= Seq::<Connection>::empty());
            assert(seq![x].last() == x);
            assert(seq![x].len() == 1);
            assert forall|k: Seq<char>| #[trigger] with_start(out@, k) == with_start(orig.subrange(0, n + 1), k) by {
                lemma_with_start_add(head, tail, k);
                lemma_with_start_add(head + seq![x], tail, k);
                lemma_with_start_add(head, seq![x], k);
                assert(with_start(orig.subrange(0, n), k) == with_start(prev, k));
                assert(with_start(Seq::<Connection>::empty(), k) == Seq::<Connection>::empty());
                assert(with_start(seq![x], k) == (if x.start@ == k {
                    with_start(seq![x].drop_last(), k).push(x)
                } else {
                    with_start(seq![x].drop_last(), k)
                }));
                if k == x.start@ {
                    lemma_with_start_none(tail, k);
                    assert(with_start(seq![x], k) =~= seq![x]);
                    assert(with_start(out@, k) =~= with_start(prev, k).push(x));
                } else {
                    assert(with_start(seq![x], k) =~= Seq::<Connection>::empty());
                    assert(with_start(out@, k) =~= with_start(prev, k));
                }
            }
        }
    }
    proof {
        broadcast use group_to_multiset_ensures;
        assert(out@.to_multiset() =~= orig.to_multiset());
        assert(orig.subrange(0, orig.len() as int) =~= orig);
    }
    out
}

} // verus!
