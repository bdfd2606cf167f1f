//! Order-preserving selection lists: toggling, appending missing items.

use vstd::prelude::*;

verus! {

/// `sel` extended by each of `items` not already present, in order.
pub open spec fn append_missing<A>(sel: Seq<A>, items: Seq<A>) -> Seq<A>
    decreases items.len(),
{
    if items.len() == 0 {
        sel
    } else {
        let next = if sel.contains(items[0]) { sel } else { sel.push(items[0]) };
        append_missing(next, items.drop_first())
    }
}

/// Position of the first occurrence of `x` in `s` (`s.len()` when absent).
pub open spec fn first_pos<A>(s: Seq<A>, x: A) -> int
    decreases s.len(),
{
    if s.len() == 0 {
        0
    } else if s[0] == x {
        0
    } else {
        1 + first_pos(s.drop_first(), x)
    }
}

/// A plain click: remove the first occurrence of `ch` if present, else
/// append it.
pub open spec fn toggled<A>(sel: Seq<A>, ch: A) -> Seq<A> {
    if sel.contains(ch) {
        sel.remove(first_pos(sel, ch))
    } else {
        sel.push(ch)
    }
}

pub open spec fn no_dups<A>(s: Seq<A>) -> bool {
    forall|i: int, j: int| 0 <= i < j < s.len() ==> s[i] != s[j]
}

pub proof fn lemma_first_pos<A>(s: Seq<A>, x: A)
    requires
        s.contains(x),
    ensures
        0 <= first_pos(s, x) < s.len(),
        s[first_pos(s, x)] == x,
        forall|k: int| 0 <= k < first_pos(s, x) ==> s[k] != x,
    decreases s.len(),
{
    if s[0] != x {
        let j = choose|j: int| 0 <= j < s.len() && s[j] == x;
        assert(s.drop_first()[j - 1] == x);
        lemma_first_pos(s.drop_first(), x);
        assert forall|k: int| 0 <= k < first_pos(s, x) implies s[k] != x by {
            if k > 0 {
                assert(s[k] == s.drop_first()[k - 1]);
            }
        }
    }
}

pub proof fn lemma_toggle<A>(sel: Seq<A>, ch: A)
    requires
        no_dups(sel),
    ensures
        no_dups(toggled(sel, ch)),
        toggled(sel, ch).contains(ch) == !sel.contains(ch),
        forall|c: A| c != ch ==> (#[trigger] toggled(sel, ch).contains(c) == sel.contains(c)),
{
    let t = toggled(sel, ch);
    if sel.contains(ch) {
        lemma_first_pos(sel, ch);
        let p = first_pos(sel, ch);
        assert(t =~= sel.subrange(0, p) + sel.subrange(p + 1, sel.len() as int));
        assert forall|i: int| 0 <= i < t.len() implies #[trigger] t[i] == (if i < p { sel[i] } else { sel[i + 1] }) by {}
        if t.contains(ch) {
            let i = choose|i: int| 0 <= i < t.len() && t[i] == ch;
            if i < p {
                assert(sel[i] == ch);
            } else {
                assert(sel[i + 1] == sel[p]);
            }
        }
        assert forall|c: A| c != ch implies #[trigger] t.contains(c) == sel.contains(c) by {
            if sel.contains(c) {
                let i = choose|i: int| 0 <= i < sel.len() && sel[i] == c;
                if i < p {
                    assert(t[i] == c);
                } else {
                    assert(i != p);
                    assert(t[i - 1] == c);
                }
            }
            if t.contains(c) {
                let i = choose|i: int| 0 <= i < t.len() && t[i] == c;
                if i < p {
                    assert(sel[i] == c);
                } else {
                    assert(sel[i + 1] == c);
                }
            }
        }
    } else {
        assert(t[sel.len() as int] == ch);
        assert forall|c: A| c != ch implies #[trigger] t.contains(c) == sel.contains(c) by {
            if sel.contains(c) {
                let i = choose|i: int| 0 <= i < sel.len() && sel[i] == c;
                assert(t[i] == c);
            }
            if t.contains(c) {
                let i = choose|i: int| 0 <= i < t.len() && t[i] == c;
                if i < sel.len() {
                    assert(sel[i] == c);
                }
            }
        }
    }
}

pub proof fn lemma_append_missing<A>(sel: Seq<A>, items: Seq<A>)
    requires
        no_dups(sel),
    ensures
        no_dups(append_missing(sel, items)),
        forall|c: A| #[trigger] append_missing(sel, items).contains(c) == (sel.contains(c) || items.contains(c)),
    decreases items.len(),
{
    if items.len() > 0 {
        let next = if sel.contains(items[0]) { sel } else { sel.push(items[0]) };
        if !sel.contains(items[0]) {
            assert forall|c: A| #[trigger] next.contains(c) == (sel.contains(c) || c == items[0]) by {
                if next.contains(c) {
                    let i = choose|i: int| 0 <= i < next.len() && next[i] == c;
                    if i < sel.len() {
                        assert(sel[i] == c);
                    }
                }
                if sel.contains(c) {
                    let i = choose|i: int| 0 <= i < sel.len() && sel[i] == c;
                    assert(next[i] == c);
                }
                if c == items[0] {
                    assert(next[sel.len() as int] == c);
                }
            }
        }
        lemma_append_missing(next, items.drop_first());
        assert forall|c: A| items.contains(c) == (c == items[0] || items.drop_first().contains(c)) by {
            if items.contains(c) {
                let i = choose|i: int| 0 <= i < items.len() && items[i] == c;
                if i > 0 {
                    assert(items.drop_first()[i - 1] == c);
                }
            }
            if items.drop_first().contains(c) {
                let i = choose|i: int| 0 <= i < items.drop_first().len() && items.drop_first()[i] == c;
                assert(items[i + 1] == c);
            }
            if c == items[0] {
                assert(items[0] == c);
            }
        }
    }
}



/// The elements of `s` satisfying `p`, in order.
pub open spec fn keep_if<A>(s: Seq<A>, p: spec_fn(A) -> bool) -> Seq<A>
    decreases s.len(),
{
    if s.len() == 0 {
        Seq::empty()
    } else {
        let rest = keep_if(s.drop_last(), p);
        if p(s.last()) { rest.push(s.last()) } else { rest }
    }
}

pub proof fn lemma_keep_if_all<A>(s: Seq<A>, p: spec_fn(A) -> bool)
    requires
        forall|i: int| 0 <= i < s.len() ==> p(#[trigger] s[i]),
    ensures
        keep_if(s, p) == s,
    decreases s.len(),
{
    if s.len() > 0 {
        lemma_keep_if_all(s.drop_last(), p);
        assert(s.drop_last().push(s.last()) =~= s);
    }
}

pub proof fn lemma_keep_if_sound<A>(s: Seq<A>, p: spec_fn(A) -> bool)
    ensures
        forall|i: int| 0 <= i < keep_if(s, p).len() ==> p(#[trigger] keep_if(s, p)[i]),
    decreases s.len(),
{
    if s.len() > 0 {
        lemma_keep_if_sound(s.drop_last(), p);
        let rest = keep_if(s.drop_last(), p);
        if p(s.last()) {
            assert forall|i: int| 0 <= i < rest.push(s.last()).len() implies p(#[trigger] rest.push(s.last())[i]) by {
                if i < rest.len() {
                    assert(rest.push(s.last())[i] == rest[i]);
                }
            }
        }
    }
}

/// Remove, in place, every element for which `keep` answers `false`,
/// keeping the order of the rest.
pub fn retain_where<T, F: Fn(&T) -> bool>(v: &mut Vec<T>, keep: F, Ghost(p): Ghost<spec_fn(T) -> bool>)
    requires
        forall|t: &T| #[trigger] keep.requires((t,)),
        forall|t: &T, r: bool| keep.ensures((t,), r) ==> r == p(*t),
    ensures
        final(v)@ == keep_if(old(v)@, p),
{
    let ghost orig = v@;
    let ghost mut j: int = 0;
    let mut i: usize = 0;
    proof {
        assert(orig.subrange(0, 0) =~= Seq::<T>::empty());
        assert(v@.subrange(0, 0) =~= Seq::<T>::empty());
        assert(v@.subrange(0, v@.len() as int) =~= orig);
        assert(orig.subrange(0, orig.len() as int) =~= orig);
    }
    while i < v.len()
        invariant
            forall|t: &T| #[trigger] keep.requires((t,)),
            forall|t: &T, r: bool| keep.ensures((t,), r) ==> r == p(*t),
            0 <= j <= orig.len(),
            i <= v@.len(),
            v@.len() - i == orig.len() - j,
            v@.subrange(0, i as int) == keep_if(orig.subrange(0, j), p),
            v@.subrange(i as int, v@.len() as int) == orig.subrange(j, orig.len() as int),
        decreases v@.len() - i,
    {
        proof {
            assert(v@.subrange(i as int, v@.len() as int)[0] == orig[j]);
            assert(orig.subrange(0, j + 1).drop_last() =~= orig.subrange(0, j));
            assert(orig.subrange(0, j + 1).last() == orig[j]);
        }
        let keep_it = keep(&v[i]);
        if keep_it {
            proof {
                assert(v@.subrange(0, i + 1) =~= v@.subrange(0, i as int).push(v@[i as int]));
                let tail = v@.subrange(i as int, v@.len() as int);
                let otail = orig.subrange(j, orig.len() as int);
                assert(tail == otail);
                assert(tail.len() == v@.len() - i);
                let a = v@.subrange(i + 1, v@.len() as int);
                let b = orig.subrange(j + 1, orig.len() as int);
                assert forall|k: int| 0 <= k < a.len() implies #[trigger] a[k] == b[k] by {
                    assert(tail[k + 1] == a[k]);
                    assert(otail[k + 1] == b[k]);
                }
                assert(v@.subrange(i + 1, v@.len() as int) =~= orig.subrange(j + 1, orig.len() as int));
                j = j + 1;
            }
            i = i + 1;
        } else {
            let ghost before = v@;
            proof {
                let tail = before.subrange(i as int, before.len() as int);
                let otail = orig.subrange(j, orig.len() as int);
                assert(tail == otail);
                assert(tail.len() == before.len() - i);
                let a = before.subrange(i + 1, before.len() as int);
                let b = orig.subrange(j + 1, orig.len() as int);
                assert forall|k: int| 0 <= k < a.len() implies #[trigger] a[k] == b[k] by {
                    assert(tail[k + 1] == a[k]);
                    assert(otail[k + 1] == b[k]);
                }
                assert(a =~= b);
            }
            v.remove(i);
            proof {
                assert(v@.subrange(0, i as int) =~= before.subrange(0, i as int));
                assert(v@.subrange(i as int, v@.len() as int) =~= before.subrange(i + 1, before.len() as int));
                j = j + 1;
            }
        }
    }
    proof {
        assert(v@.subrange(0, v@.len() as int) =~= v@);
        assert(orig.subrange(j, orig.len() as int).len() == 0);
        assert(orig.subrange(0, j) =~= orig);
    }
}


/// Exchange the elements at `i` and `i + 1`.
pub fn swap_adjacent<T>(v: &mut Vec<T>, i: usize)
    requires
        i + 1 < old(v)@.len(),
    ensures
        final(v)@ == old(v)@.update(i as int, old(v)@[i + 1]).update(i + 1, old(v)@[i as int]),
{
    let n = v.len();
    assert(i + 1 < n);
    let x = v.remove(i + 1);
    v.insert(i, x);
    proof {
        assert(v@ =~= old(v)@.update(i as int, old(v)@[i + 1]).update(i + 1, old(v)@[i as int]));
    }
}


/// Clicking the same item twice restores the selection's membership (the
/// item, removed or added by the first click, is back where it was in or
/// out), and a selection never holds an item twice.
pub proof fn law_toggle_twice_restores_membership<A>(sel: Seq<A>, ch: A)
    requires
        no_dups(sel),
    ensures
        no_dups(toggled(toggled(sel, ch), ch)),
        forall|c: A| #[trigger] toggled(toggled(sel, ch), ch).contains(c) == sel.contains(c),
{
    lemma_toggle(sel, ch);
    lemma_toggle(toggled(sel, ch), ch);
}


/// Two lists of the same items, each ordered by the same asymmetric
/// relation `before`, are equal.
pub proof fn lemma_ordered_unique(o1: Seq<usize>, o2: Seq<usize>, before: spec_fn(int, int) -> bool)
    requires
        forall|x: usize| #[trigger] o1.contains(x) <==> o2.contains(x),
        forall|a: int, b: int| 0 <= a < b < o1.len() ==> before(o1[a] as int, o1[b] as int),
        forall|a: int, b: int| 0 <= a < b < o2.len() ==> before(o2[a] as int, o2[b] as int),
        forall|x: int, y: int| !(#[trigger] before(x, y) && #[trigger] before(y, x)),
    ensures
        o1 == o2,
    decreases o1.len() + o2.len(),
{
    if o1.len() == 0 {
        if o2.len() > 0 {
            assert(o2.contains(o2[0]));
            assert(o1.contains(o2[0]));
        }
        assert(o1 =~= o2);
    } else {
        assert(o1.contains(o1[0]));
        assert(o2.contains(o1[0]));
        assert(o2.contains(o2[0]));
        assert(o1.contains(o2[0]));
        if o1[0] != o2[0] {
            let k1 = choose|k: int| 0 <= k < o2.len() && o2[k] == o1[0];
            let k2 = choose|k: int| 0 <= k < o1.len() && o1[k] == o2[0];
            assert(before(o2[0] as int, o1[0] as int));
            assert(before(o1[0] as int, o2[0] as int));
            assert(false);
        }
        assert(o1[0] == o2[0]);
        let d1 = o1.drop_first();
        let d2 = o2.drop_first();
        assert forall|x: usize| #[trigger] d1.contains(x) <==> d2.contains(x) by {
            if d1.contains(x) {
                let k = choose|k: int| 0 <= k < d1.len() && d1[k] == x;
                assert(o1[k + 1] == x);
                assert(before(o1[0] as int, o1[k + 1] as int));
                assert(o1.contains(x));
                assert(o2.contains(x));
                if x == o2[0] {
                    assert(before(x as int, x as int));
                    assert(false);
                }
                let j = choose|j: int| 0 <= j < o2.len() && o2[j] == x;
                assert(j != 0);
                assert(d2[j - 1] == x);
            }
            if d2.contains(x) {
                let k = choose|k: int| 0 <= k < d2.len() && d2[k] == x;
                assert(o2[k + 1] == x);
                assert(before(o2[0] as int, o2[k + 1] as int));
                assert(o2.contains(x));
                assert(o1.contains(x));
                if x == o1[0] {
                    assert(before(x as int, x as int));
                    assert(false);
                }
                let j = choose|j: int| 0 <= j < o1.len() && o1[j] == x;
                assert(j != 0);
                assert(d1[j - 1] == x);
            }
        }
        assert forall|a: int, b: int| 0 <= a < b < d1.len() implies before(d1[a] as int, d1[b] as int) by {
            assert(d1[a] == o1[a + 1]);
            assert(d1[b] == o1[b + 1]);
        }
        assert forall|a: int, b: int| 0 <= a < b < d2.len() implies before(d2[a] as int, d2[b] as int) by {
            assert(d2[a] == o2[a + 1]);
            assert(d2[b] == o2[b + 1]);
        }
        lemma_ordered_unique(d1, d2, before);
        assert(o1 =~= seq![o1[0]] + d1);
        assert(o2 =~= seq![o2[0]] + d2);
    }
}

} // verus!
