//! The order of strings (by code point, which is also the order of their UTF-8
//! bytes), and sorting by it.

use vstd::prelude::*;
use vstd::relations::{sorted_by, total_ordering};
use vstd::seq_lib::{lemma_multiset_commutative, lemma_sorted_unique};

verus! {

/// `a` comes before or equals `b` in lexicographic order of code points.
pub open spec fn str_le(a: Seq<char>, b: Seq<char>) -> bool
    decreases a.len(),
{
    if a.len() == 0 {
        true
    } else if b.len() == 0 {
        false
    } else if (a[0] as u32) < (b[0] as u32) {
        true
    } else if a[0] == b[0] {
        str_le(a.drop_first(), b.drop_first())
    } else {
        false
    }
}

/// The order as a relation.
pub open spec fn str_order() -> spec_fn(Seq<char>, Seq<char>) -> bool {
    |a: Seq<char>, b: Seq<char>| str_le(a, b)
}

proof fn lemma_char_order(x: char, y: char)
    ensures
        (x as u32) < (y as u32) || x == y || (y as u32) < (x as u32),
{
}

proof fn lemma_le_reflexive(a: Seq<char>)
    ensures
        str_le(a, a),
    decreases a.len(),
{
    if a.len() > 0 {
        lemma_le_reflexive(a.drop_first());
    }
}

proof fn lemma_le_antisymmetric(a: Seq<char>, b: Seq<char>)
    requires
        str_le(a, b),
        str_le(b, a),
    ensures
        a == b,
    decreases a.len(),
{
    if a.len() > 0 && b.len() > 0 {
        lemma_char_order(a[0], b[0]);
        lemma_le_antisymmetric(a.drop_first(), b.drop_first());
        assert(a =~= seq![a[0]] + a.drop_first());
        assert(b =~= seq![b[0]] + b.drop_first());
    }
}

proof fn lemma_le_transitive(a: Seq<char>, b: Seq<char>, c: Seq<char>)
    requires
        str_le(a, b),
        str_le(b, c),
    ensures
        str_le(a, c),
    decreases a.len(),
{
    if a.len() > 0 && b.len() > 0 && c.len() > 0 {
        if a[0] == b[0] && b[0] == c[0] {
            lemma_le_transitive(a.drop_first(), b.drop_first(), c.drop_first());
        }
    }
}

proof fn lemma_le_total(a: Seq<char>, b: Seq<char>)
    ensures
        str_le(a, b) || str_le(b, a),
    decreases a.len(),
{
    if a.len() > 0 && b.len() > 0 {
        lemma_char_order(a[0], b[0]);
        if a[0] == b[0] {
            lemma_le_total(a.drop_first(), b.drop_first());
        }
    }
}

/// The order of strings is a total order.
pub proof fn law_str_order_total()
    ensures
        total_ordering(str_order()),
{
    assert forall|a: Seq<char>| #[trigger] str_order()(a, a) by {
        lemma_le_reflexive(a);
    }
    assert forall|a: Seq<char>, b: Seq<char>|
        #[trigger] str_order()(a, b) && #[trigger] str_order()(b, a) implies a == b by {
        lemma_le_antisymmetric(a, b);
    }
    assert forall|a: Seq<char>, b: Seq<char>, c: Seq<char>|
        #[trigger] str_order()(a, b) && #[trigger] str_order()(b, c) implies str_order()(a, c) by {
        lemma_le_transitive(a, b, c);
    }
    assert forall|a: Seq<char>, b: Seq<char>|
        #[trigger] str_order()(a, b) || #[trigger] str_order()(b, a) by {
        lemma_le_total(a, b);
    }
}

/// Tests `a <= b` in the order of strings.
pub fn chars_le(a: &Vec<char>, b: &Vec<char>) -> (r: bool)
    ensures
        r == str_le(a@, b@),
{
    let mut i: usize = 0;
    assert(a@.subrange(0, a@.len() as int) =~= a@);
    assert(b@.subrange(0, b@.len() as int) =~= b@);
    loop
        invariant
            i <= a@.len(),
            i <= b@.len(),
            str_le(a@, b@) == str_le(
                a@.subrange(i as int, a@.len() as int),
                b@.subrange(i as int, b@.len() as int),
            ),
        decreases a@.len() - i,
    {
        let ghost sa = a@.subrange(i as int, a@.len() as int);
        let ghost sb = b@.subrange(i as int, b@.len() as int);
        if i == a.len() {
            return true;
        }
        if i == b.len() {
            return false;
        }
        let x = a[i];
        let y = b[i];
        assert(sa[0] == x && sb[0] == y);
        if (x as u32) < (y as u32) {
            return true;
        }
        if x != y {
            return false;
        }
        assert(sa.drop_first() =~= a@.subrange(i + 1, a@.len() as int));
        assert(sb.drop_first() =~= b@.subrange(i + 1, b@.len() as int));
        i = i + 1;
    }
}

/// Inserting `x` at position `k` adds it to the multiset.
proof fn lemma_insert_multiset(s: Seq<Seq<char>>, k: int, x: Seq<char>)
    requires
        0 <= k <= s.len(),
    ensures
        s.insert(k, x).to_multiset() =~= s.to_multiset().insert(x),
{
    broadcast use vstd::seq_lib::group_to_multiset_ensures;
    let l = s.subrange(0, k);
    let r = s.subrange(k, s.len() as int);
    assert(s.insert(k, x) =~= l.push(x) + r);
    assert(s =~= l + r);
    lemma_multiset_commutative(l.push(x), r);
    lemma_multiset_commutative(l, r);
}

/// Sorts strings (given as characters) in the order of strings.
pub fn sort_chars(items: Vec<Vec<char>>) -> (r: Vec<Vec<char>>)
    ensures
        r@.map_values(|v: Vec<char>| v@) == items@.map_values(|v: Vec<char>| v@).sort_by(
            str_order(),
        ),
{
    let ghost all = items@.map_values(|v: Vec<char>| v@);
    let mut r: Vec<Vec<char>> = Vec::new();
    let mut i: usize = 0;
    proof {
        law_str_order_total();
        assert(r@.map_values(|v: Vec<char>| v@) =~= Seq::<Seq<char>>::empty());
        assert(all.subrange(0, 0) =~= Seq::<Seq<char>>::empty());
    }
    while i < items.len()
        invariant
            i <= items@.len(),
            all == items@.map_values(|v: Vec<char>| v@),
            total_ordering(str_order()),
            sorted_by(r@.map_values(|v: Vec<char>| v@), str_order()),
            r@.map_values(|v: Vec<char>| v@).to_multiset() == all.subrange(0, i as int).to_multiset(),
        decreases items@.len() - i,
    {
        let x = items[i].clone();
        let ghost rs = r@.map_values(|v: Vec<char>| v@);
        let mut k: usize = 0;
        while k < r.len() && chars_le(&r[k], &x)
            invariant
                k <= r@.len(),
                rs == r@.map_values(|v: Vec<char>| v@),
                forall|m: int| 0 <= m < k ==> str_le(#[trigger] rs[m], x@),
            decreases r@.len() - k,
        {
            k = k + 1;
        }
        proof {
            let ns = rs.insert(k as int, x@);
            assert forall|p: int, q: int| 0 <= p < q < ns.len() implies #[trigger] str_order()(
                ns[p],
                ns[q],
            ) by {
                if q < k {
                    assert(ns[p] == rs[p] && ns[q] == rs[q]);
                } else if q == k {
                    assert(ns[p] == rs[p] && ns[q] == x@);
                } else if p == k {
                    assert(ns[p] == x@ && ns[q] == rs[q - 1]);
                    lemma_le_total(rs[k as int], x@);
                    if q - 1 > k {
                        assert(str_order()(rs[k as int], rs[q - 1]));
                        lemma_le_transitive(x@, rs[k as int], rs[q - 1]);
                    }
                } else if p < k {
                    assert(ns[p] == rs[p] && ns[q] == rs[q - 1]);
                    assert(str_order()(rs[p], rs[q - 1]));
                } else {
                    assert(ns[p] == rs[p - 1] && ns[q] == rs[q - 1]);
                    assert(str_order()(rs[p - 1], rs[q - 1]));
                }
            }
            lemma_insert_multiset(rs, k as int, x@);
            let p = all.subrange(0, i + 1);
            assert(p =~= all.subrange(0, i as int).push(all[i as int]));
            vstd::seq_lib::to_multiset_build(all.subrange(0, i as int), all[i as int]);
        }
        let ghost xv = x@;
        r.insert(k, x);
        assert(r@.map_values(|v: Vec<char>| v@) =~= rs.insert(k as int, xv));
        i = i + 1;
    }
    proof {
        assert(all.subrange(0, all.len() as int) =~= all);
        all.lemma_sort_by_ensures(str_order());
        lemma_sorted_unique(r@.map_values(|v: Vec<char>| v@), all.sort_by(str_order()), str_order());
    }
    r
}

} // verus!
