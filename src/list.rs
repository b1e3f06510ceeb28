//! A navigable list: items, the positions that are visible, and a cursor
//! that moves among the visible positions with wrap-around.

use vstd::prelude::*;

verus! {

/// The mathematical value of a navigable list.
pub ghost struct ListView<T> {
    pub items: Seq<T>,
    pub visible: Seq<usize>,
    pub cursor: Option<usize>,
}

/// A list with a cursor. `filtered_items` holds the indices into `items`
/// that are shown, in the order they are shown; `selected` is the cursor.
pub struct StatefulList<T> {
    pub items: Vec<T>,
    pub filtered_items: Vec<usize>,
    pub selected: Option<usize>,
}

/// Visible indices point into the items, each at most once, and the cursor,
/// when set, is one of them.
pub open spec fn list_wf<T>(v: ListView<T>) -> bool {
    &&& forall|i: int| 0 <= i < v.visible.len() ==> #[trigger] v.visible[i] < v.items.len()
    &&& forall|i: int, j: int|
        0 <= i < v.visible.len() && 0 <= j < v.visible.len() && i != j ==> v.visible[i]
            != v.visible[j]
    &&& v.cursor matches Some(c) ==> v.visible.contains(c)
}

/// Where `x` stands in `s`; 0 when it is absent.
pub open spec fn position_of(s: Seq<usize>, x: usize) -> int {
    if s.contains(x) {
        choose|i: int| 0 <= i < s.len() && s[i] == x
    } else {
        0
    }
}

/// The list after the cursor moves to the next visible item, wrapping at
/// the end; an unset cursor goes to the first visible item.
pub open spec fn next_spec<T>(v: ListView<T>) -> ListView<T> {
    if v.visible.len() == 0 {
        v
    } else {
        let c = match v.cursor {
            Some(i) => v.visible[(position_of(v.visible, i) + 1) % (v.visible.len() as int)],
            None => v.visible[0],
        };
        ListView { cursor: Some(c), ..v }
    }
}

/// The list after the cursor moves to the previous visible item, wrapping
/// at the start; an unset cursor goes to the first visible item.
pub open spec fn prev_spec<T>(v: ListView<T>) -> ListView<T> {
    if v.visible.len() == 0 {
        v
    } else {
        let c = match v.cursor {
            Some(i) => {
                let p = position_of(v.visible, i);
                if p == 0 {
                    v.visible[v.visible.len() - 1]
                } else {
                    v.visible[p - 1]
                }
            },
            None => v.visible[0],
        };
        ListView { cursor: Some(c), ..v }
    }
}

/// The list after `k` calls of `next`.
pub open spec fn iterate_next<T>(v: ListView<T>, k: nat) -> ListView<T>
    decreases k,
{
    if k == 0 {
        v
    } else {
        next_spec(iterate_next(v, (k - 1) as nat))
    }
}

/// The list after `k` calls of `prev`.
pub open spec fn iterate_prev<T>(v: ListView<T>, k: nat) -> ListView<T>
    decreases k,
{
    if k == 0 {
        v
    } else {
        prev_spec(iterate_prev(v, (k - 1) as nat))
    }
}

/// The sequence `0, 1, ..., n - 1`.
pub open spec fn identity_indices(n: nat) -> Seq<usize> {
    Seq::new(n, |i: int| i as usize)
}

impl<T> View for StatefulList<T> {
    type V = ListView<T>;

    open spec fn view(&self) -> ListView<T> {
        ListView { items: self.items@, visible: self.filtered_items@, cursor: self.selected }
    }
}

proof fn lemma_position_of<T>(v: ListView<T>, i: int)
    requires
        list_wf(v),
        0 <= i < v.visible.len(),
    ensures
        position_of(v.visible, v.visible[i]) == i,
{
    assert(v.visible.contains(v.visible[i]));
    let p = position_of(v.visible, v.visible[i]);
    assert(0 <= p < v.visible.len() && v.visible[p] == v.visible[i]);
}

proof fn lemma_next_step<T>(v: ListView<T>, k: nat)
    requires
        list_wf(v),
        v.cursor is Some,
        v.visible.len() > 0,
    ensures
        iterate_next(v, k).items == v.items,
        iterate_next(v, k).visible == v.visible,
        iterate_next(v, k).cursor == Some(
            v.visible[(position_of(v.visible, v.cursor->0) + k) % (v.visible.len() as int)],
        ),
    decreases k,
{
    let n = v.visible.len() as int;
    let p = position_of(v.visible, v.cursor->0);
    assert(v.visible.contains(v.cursor->0));
    assert(0 <= p < n && v.visible[p] == v.cursor->0);
    if k == 0 {
        assert(p % n == p) by (nonlinear_arith)
            requires
                0 <= p < n,
        ;
    } else {
        lemma_next_step(v, (k - 1) as nat);
        let q = (p + k - 1) % n;
        assert(0 <= q < n) by (nonlinear_arith)
            requires
                n > 0,
                q == (p + k - 1) % n,
        ;
        lemma_position_of(v, q);
        assert((q + 1) % n == (p + k) % n) by {
            vstd::arithmetic::div_mod::lemma_add_mod_noop(p + k - 1, 1, n);
            if n == 1 {
                assert((q + 1) % n == 0) by (nonlinear_arith)
                    requires
                        n == 1,
                ;
                assert((p + k) % n == 0) by (nonlinear_arith)
                    requires
                        n == 1,
                ;
            } else {
                vstd::arithmetic::div_mod::lemma_small_mod(1, n as nat);
                assert(((p + k - 1) % n + 1int % n) % n == ((p + k - 1) + 1) % n);
            }
        }
    }
}

proof fn lemma_prev_step<T>(v: ListView<T>, k: nat)
    requires
        list_wf(v),
        v.cursor is Some,
        v.visible.len() > 0,
        k <= v.visible.len(),
    ensures
        iterate_prev(v, k).items == v.items,
        iterate_prev(v, k).visible == v.visible,
        iterate_prev(v, k).cursor == Some(
            v.visible[(position_of(v.visible, v.cursor->0) + v.visible.len() - k) % (
            v.visible.len() as int)],
        ),
    decreases k,
{
    let n = v.visible.len() as int;
    let p = position_of(v.visible, v.cursor->0);
    assert(v.visible.contains(v.cursor->0));
    assert(0 <= p < n && v.visible[p] == v.cursor->0);
    if k == 0 {
        vstd::arithmetic::div_mod::lemma_mod_add_multiples_vanish(p, n);
        vstd::arithmetic::div_mod::lemma_small_mod(p as nat, n as nat);
    } else {
        lemma_prev_step(v, (k - 1) as nat);
        let q = (p + n - (k - 1)) % n;
        assert(0 <= q < n) by (nonlinear_arith)
            requires
                n > 0,
                q == (p + n - (k - 1)) % n,
        ;
        lemma_position_of(v, q);
        let t = p + n - k;
        assert(0 <= t);
        if q == 0 {
            // p + n - (k - 1) is a multiple of n, so t is one less than it
            assert(t % n == n - 1) by (nonlinear_arith)
                requires
                    q == (t + 1) % n,
                    q == 0,
                    0 <= t,
                    n > 0,
            ;
        } else {
            assert(t % n == q - 1) by (nonlinear_arith)
                requires
                    q == (t + 1) % n,
                    0 < q < n,
                    0 <= t,
                    n > 0,
            ;
        }
    }
}

/// Calling `next` as many times as there are visible items, from any cursor
/// position, puts the cursor on every visible item exactly once and brings
/// it back where it started.
pub proof fn lemma_next_visits_all_once<T>(v: ListView<T>)
    requires
        list_wf(v),
        v.cursor is Some,
    ensures
        iterate_next(v, v.visible.len()) == v,
        forall|j: int|
            #![trigger v.visible[j]]
            0 <= j < v.visible.len() ==> exists|k: nat|
                #![trigger iterate_next(v, k)]
                k < v.visible.len() && iterate_next(v, k).cursor == Some(v.visible[j]),
        forall|k1: nat, k2: nat|
            k1 < k2 < v.visible.len() ==> #[trigger] iterate_next(v, k1).cursor
                != #[trigger] iterate_next(v, k2).cursor,
{
    let n = v.visible.len() as int;
    assert(v.visible.contains(v.cursor->0));
    let p = position_of(v.visible, v.cursor->0);
    assert(0 <= p < n && v.visible[p] == v.cursor->0);
    lemma_next_step(v, n as nat);
    assert((p + n) % n == p) by {
        vstd::arithmetic::div_mod::lemma_mod_add_multiples_vanish(p, n);
        vstd::arithmetic::div_mod::lemma_small_mod(p as nat, n as nat);
    }
    assert(iterate_next(v, n as nat) == v);
    assert forall|j: int| #![trigger v.visible[j]] 0 <= j < v.visible.len() implies exists|k: nat|
        #![trigger iterate_next(v, k)]
        k < v.visible.len() && iterate_next(v, k).cursor == Some(v.visible[j]) by {
        let k: nat = ((j - p + n) % n) as nat;
        assert(0 <= (j - p + n) % n < n) by (nonlinear_arith)
            requires
                n > 0,
        ;
        lemma_next_step(v, k);
        assert((p + k) % n == j) by (nonlinear_arith)
            requires
                k == (j - p + n) % n,
                0 <= p < n,
                0 <= j < n,
        ;
    }
    assert forall|k1: nat, k2: nat| k1 < k2 < v.visible.len() implies #[trigger] iterate_next(
        v,
        k1,
    ).cursor != #[trigger] iterate_next(v, k2).cursor by {
        lemma_next_step(v, k1);
        lemma_next_step(v, k2);
        let a = (p + k1) % n;
        let b = (p + k2) % n;
        assert(0 <= a < n && 0 <= b < n && a != b) by (nonlinear_arith)
            requires
                a == (p + k1) % n,
                b == (p + k2) % n,
                0 <= p < n,
                k1 < k2 < n,
        ;
    }
}

/// Calling `prev` as many times as there are visible items, from any cursor
/// position, puts the cursor on every visible item exactly once and brings
/// it back where it started.
pub proof fn lemma_prev_visits_all_once<T>(v: ListView<T>)
    requires
        list_wf(v),
        v.cursor is Some,
    ensures
        iterate_prev(v, v.visible.len()) == v,
        forall|j: int|
            #![trigger v.visible[j]]
            0 <= j < v.visible.len() ==> exists|k: nat|
                #![trigger iterate_prev(v, k)]
                k < v.visible.len() && iterate_prev(v, k).cursor == Some(v.visible[j]),
        forall|k1: nat, k2: nat|
            k1 < k2 < v.visible.len() ==> #[trigger] iterate_prev(v, k1).cursor
                != #[trigger] iterate_prev(v, k2).cursor,
{
    let n = v.visible.len() as int;
    assert(v.visible.contains(v.cursor->0));
    let p = position_of(v.visible, v.cursor->0);
    assert(0 <= p < n && v.visible[p] == v.cursor->0);
    lemma_prev_step(v, n as nat);
    assert((p + n - n) % n == p) by {
        vstd::arithmetic::div_mod::lemma_small_mod(p as nat, n as nat);
    }
    assert(iterate_prev(v, n as nat) == v);
    assert forall|j: int| #![trigger v.visible[j]] 0 <= j < v.visible.len() implies exists|k: nat|
        #![trigger iterate_prev(v, k)]
        k < v.visible.len() && iterate_prev(v, k).cursor == Some(v.visible[j]) by {
        let k: nat = ((p - j + n) % n) as nat;
        assert(0 <= (p - j + n) % n < n) by (nonlinear_arith)
            requires
                n > 0,
        ;
        lemma_prev_step(v, k);
        assert((p + n - k) % n == j) by (nonlinear_arith)
            requires
                k == (p - j + n) % n,
                0 <= p < n,
                0 <= j < n,
        ;
    }
    assert forall|k1: nat, k2: nat| k1 < k2 < v.visible.len() implies #[trigger] iterate_prev(
        v,
        k1,
    ).cursor != #[trigger] iterate_prev(v, k2).cursor by {
        lemma_prev_step(v, k1);
        lemma_prev_step(v, k2);
        let a = (p + n - k1) % n;
        let b = (p + n - k2) % n;
        assert(0 <= a < n && 0 <= b < n && a != b) by (nonlinear_arith)
            requires
                a == (p + n - k1) % n,
                b == (p + n - k2) % n,
                0 <= p < n,
                k1 < k2 < n,
        ;
    }
}

proof fn lemma_next_shift<T>(v: ListView<T>, k: nat)
    ensures
        iterate_next(v, k + 1) == iterate_next(next_spec(v), k),
    decreases k,
{
    assert(iterate_next(v, k + 1) == next_spec(iterate_next(v, k)));
    if k > 0 {
        lemma_next_shift(v, (k - 1) as nat);
        assert(iterate_next(next_spec(v), k) == next_spec(iterate_next(next_spec(v), (k - 1) as nat)));
    } else {
        assert(iterate_next(v, 0) == v);
        assert(iterate_next(next_spec(v), 0) == next_spec(v));
    }
}

proof fn lemma_prev_shift<T>(v: ListView<T>, k: nat)
    ensures
        iterate_prev(v, k + 1) == iterate_prev(prev_spec(v), k),
    decreases k,
{
    assert(iterate_prev(v, k + 1) == prev_spec(iterate_prev(v, k)));
    if k > 0 {
        lemma_prev_shift(v, (k - 1) as nat);
        assert(iterate_prev(prev_spec(v), k) == prev_spec(iterate_prev(prev_spec(v), (k - 1) as nat)));
    } else {
        assert(iterate_prev(v, 0) == v);
        assert(iterate_prev(prev_spec(v), 0) == prev_spec(v));
    }
}

/// From an unset cursor, calling `next` as many times as there are visible
/// items puts the cursor on each visible item once, in their order.
pub proof fn lemma_next_from_unset<T>(v: ListView<T>)
    requires
        list_wf(v),
        v.cursor is None,
    ensures
        forall|k: nat| k < v.visible.len() ==> #[trigger] iterate_next(v, k + 1).cursor == Some(
            v.visible[k as int],
        ),
{
    assert forall|k: nat| k < v.visible.len() implies #[trigger] iterate_next(v, k + 1).cursor == Some(
        v.visible[k as int],
    ) by {
        let w = next_spec(v);
        assert(w.visible.contains(v.visible[0]));
        lemma_next_shift(v, k);
        lemma_position_of(v, 0);
        lemma_next_step(w, k);
        let n = v.visible.len() as int;
        assert(position_of(w.visible, w.cursor->0) == 0);
        assert((0 + k as int) % n == k) by {
            vstd::arithmetic::div_mod::lemma_small_mod(k, n as nat);
        }
    }
}

/// From an unset cursor, calling `prev` as many times as there are visible
/// items puts the cursor on the first visible item and then on the others
/// from the last one back, each once.
pub proof fn lemma_prev_from_unset<T>(v: ListView<T>)
    requires
        list_wf(v),
        v.cursor is None,
    ensures
        forall|k: nat| k < v.visible.len() ==> #[trigger] iterate_prev(v, k + 1).cursor == Some(
            v.visible[(v.visible.len() - k) % (v.visible.len() as int)],
        ),
{
    assert forall|k: nat| k < v.visible.len() implies #[trigger] iterate_prev(v, k + 1).cursor == Some(
        v.visible[(v.visible.len() - k) % (v.visible.len() as int)],
    ) by {
        let w = prev_spec(v);
        assert(w.visible.contains(v.visible[0]));
        lemma_prev_shift(v, k);
        lemma_position_of(v, 0);
        lemma_prev_step(w, k);
        assert(position_of(w.visible, w.cursor->0) == 0);
    }
}

impl<T> StatefulList<T> {
    /// An empty list with no cursor.
    pub fn new() -> (r: Self)
        ensures
            r@.items.len() == 0,
            r@.visible.len() == 0,
            r@.cursor is None,
            list_wf(r@),
    {
        StatefulList { items: Vec::new(), filtered_items: Vec::new(), selected: None }
    }

    /// A list of the given items, all visible in their order, with the
    /// cursor on the first one (none when there are none).
    pub fn new_with_items(items: Vec<T>) -> (r: Self)
        ensures
            r@.items == items@,
            r@.visible == identity_indices(items@.len()),
            r@.cursor == (if items@.len() > 0 { Some(0usize) } else { None::<usize> }),
            list_wf(r@),
    {
        let n = items.len();
        let mut shown: Vec<usize> = Vec::new();
        let mut i: usize = 0;
        while i < n
            invariant
                i <= n,
                shown@ == identity_indices(i as nat),
            decreases n - i,
        {
            shown.push(i);
            assert(shown@ =~= identity_indices((i + 1) as nat));
            i = i + 1;
        }
        let selected = if n > 0 {
            Some(0usize)
        } else {
            None
        };
        let r = StatefulList { items, filtered_items: shown, selected };
        proof {
            if n > 0 {
                assert(r@.visible[0] == 0);
            }
        }
        r
    }

    /// The visible items, in the order they are shown.
    pub fn filtered_items(&self) -> (r: Vec<&T>)
        requires
            list_wf(self@),
        ensures
            r@.len() == self@.visible.len(),
            forall|i: int| 0 <= i < r@.len() ==> *#[trigger] r@[i] == self@.items[self@.visible[i] as int],
    {
        let mut out: Vec<&T> = Vec::new();
        let mut i: usize = 0;
        while i < self.filtered_items.len()
            invariant
                list_wf(self@),
                i <= self@.visible.len(),
                out@.len() == i,
                forall|k: int| 0 <= k < i ==> *#[trigger] out@[k] == self@.items[self@.visible[k] as int],
            decreases self@.visible.len() - i,
        {
            let idx = self.filtered_items[i];
            out.push(&self.items[idx]);
            i = i + 1;
        }
        out
    }

    /// The item under the cursor.
    pub fn selected(&self) -> (r: Option<&T>)
        requires
            list_wf(self@),
        ensures
            match self@.cursor {
                Some(c) => r == Some(&self@.items[c as int]),
                None => r is None,
            },
    {
        match self.selected {
            Some(i) => {
                proof {
                    let k = choose|k: int| 0 <= k < self@.visible.len() && self@.visible[k] == i;
                }
                Some(&self.items[i])
            },
            None => None,
        }
    }

    fn position(&self, x: usize) -> (r: usize)
        requires
            list_wf(self@),
            self@.visible.contains(x),
        ensures
            r == position_of(self@.visible, x),
            r < self@.visible.len(),
    {
        let mut i: usize = 0;
        while i < self.filtered_items.len()
            invariant
                list_wf(self@),
                i <= self@.visible.len(),
                forall|k: int| 0 <= k < i ==> self@.visible[k] != x,
            decreases self@.visible.len() - i,
        {
            if self.filtered_items[i] == x {
                proof {
                    lemma_position_of(self@, i as int);
                }
                return i;
            }
            i = i + 1;
        }
        assert(false);
        0
    }

    /// Moves the cursor to the next visible item, wrapping around at the end.
    pub fn next(&mut self)
        requires
            list_wf(old(self)@),
        ensures
            final(self)@ == next_spec(old(self)@),
            list_wf(final(self)@),
    {
        let n = self.filtered_items.len();
        if n == 0 {
            return;
        }
        let i = match self.selected {
            Some(c) => {
                let p = self.position(c);
                self.filtered_items[(p + 1) % n]
            },
            None => self.filtered_items[0],
        };
        self.selected = Some(i);
        proof {
            let k = if old(self)@.cursor is Some {
                (position_of(old(self)@.visible, old(self)@.cursor->0) + 1) % (n as int)
            } else {
                0
            };
            assert(self@.visible[k] == i);
        }
    }

    /// Moves the cursor to the previous visible item, wrapping around at the
    /// start.
    pub fn prev(&mut self)
        requires
            list_wf(old(self)@),
        ensures
            final(self)@ == prev_spec(old(self)@),
            list_wf(final(self)@),
    {
        let n = self.filtered_items.len();
        if n == 0 {
            return;
        }
        let i = match self.selected {
            Some(c) => {
                let p = self.position(c);
                if p == 0 {
                    self.filtered_items[n - 1]
                } else {
                    self.filtered_items[p - 1]
                }
            },
            None => self.filtered_items[0],
        };
        self.selected = Some(i);
        proof {
            let k = if old(self)@.cursor is Some {
                let p = position_of(old(self)@.visible, old(self)@.cursor->0);
                if p == 0 { n - 1 } else { p - 1 }
            } else {
                0
            };
            assert(self@.visible[k] == i);
        }
    }
}

} // verus!
