//! Tab-order ring over widget ids. `next`/`prev` wrap and skip disabled ids;
//! the accent focus ring the renderer draws on `focused()` is doing real
//! accessibility work under neumorphism's low contrast, so this is not optional.

use vstd::prelude::*;
use vstd::std_specs::cmp::PartialEqSpec;

verus! {

/// The index `k` steps from `start` around a ring of `n`, forwards or backwards.
pub open spec fn ring_step(start: int, n: int, k: int, forward: bool) -> int {
    if forward {
        (start + k) % n
    } else {
        (start + n - k) % n
    }
}

/// Where focus moves from `start`: the first enabled entry found by stepping
/// 1, 2, ... n places around the ring.
pub open spec fn moves_to<T>(order: Seq<(T, bool)>, start: int, forward: bool, i: int) -> bool {
    exists|k: int|
        1 <= k <= order.len() && i == ring_step(start, order.len() as int, k, forward) && (
        #[trigger] order[ring_step(start, order.len() as int, k, forward)]).1 && forall|j: int|
            1 <= j < k ==> !(#[trigger] order[ring_step(start, order.len() as int, j, forward)]).1
}

pub open spec fn any_enabled<T>(order: Seq<(T, bool)>) -> bool {
    exists|i: int| 0 <= i < order.len() && (#[trigger] order[i]).1
}

/// One Tab step over `order` takes the cursor `from` to `to`: with nothing
/// enabled, focus is lost; otherwise it lands on the next enabled entry in the
/// direction of travel, starting as if from just outside the ring when
/// nothing was focused.
pub open spec fn steps_to<T>(order: Seq<(T, bool)>, from: Option<int>, to: Option<int>, forward: bool) -> bool {
    if any_enabled(order) {
        to matches Some(i) && moves_to(
            order,
            match from {
                Some(c) => c,
                None => if forward {
                    order.len() - 1
                } else {
                    0
                },
            },
            forward,
            i,
        )
    } else {
        to is None
    }
}

/// Focusing `id` over `order` takes the cursor `from` to `to`: onto the first
/// enabled entry for `id`, or nowhere new if there is none.
pub open spec fn focuses_on<T: PartialEq>(order: Seq<(T, bool)>, from: Option<int>, to: Option<int>, id: T) -> bool {
    if exists|i: int| 0 <= i < order.len() && (#[trigger] order[i]).1 && order[i].0.eq_spec(&id) {
        to matches Some(i) && 0 <= i < order.len() && order[i].1 && order[i].0.eq_spec(&id)
            && forall|j: int| 0 <= j < i ==> !((#[trigger] order[j]).1 && order[j].0.eq_spec(&id))
    } else {
        to == from
    }
}

pub struct FocusRing<T> {
    order: Vec<(T, bool)>,
    current: Option<usize>,
}

impl<T> FocusRing<T> {
    #[verifier::type_invariant]
    spec fn cursor_in_range(self) -> bool {
        self.current matches Some(i) ==> i < self.order@.len()
    }

    /// The ids in tab order, each with whether it is enabled.
    pub closed spec fn entries(&self) -> Seq<(T, bool)> {
        self.order@
    }

    /// Index of the focused entry, if any.
    pub closed spec fn cursor(&self) -> Option<int> {
        match self.current {
            Some(i) => Some(i as int),
            None => None,
        }
    }

}

impl<T: Copy + PartialEq> FocusRing<T> {
    /// Starts with nothing focused.
    pub fn new(order: Vec<(T, bool)>) -> (r: Self)
        ensures
            r.entries() == order@,
            r.cursor() is None,
    {
        FocusRing { order, current: None }
    }

    pub fn focused(&self) -> (r: Option<T>)
        ensures
            self.cursor() matches Some(i) ==> 0 <= i < self.entries().len() && r == Some(
                self.entries()[i].0,
            ),
            self.cursor() is None ==> r is None,
    {
        proof {
            use_type_invariant(self);
        }
        match self.current {
            Some(i) => Some(self.order[i].0),
            None => None,
        }
    }

    fn step(&mut self, forward: bool)
        ensures
            final(self).entries() == old(self).entries(),
            steps_to(old(self).entries(), old(self).cursor(), final(self).cursor(), forward),
    {
        proof {
            use_type_invariant(&*self);
        }
        let n = self.order.len();
        let ghost s = self.order@;
        assert(s == old(self).order@);
        let mut any = false;
        let mut j: usize = 0;
        while j < n
            invariant
                n == s.len(),
                s == self.order@,
                j <= n,
                any == exists|i: int| 0 <= i < j && (#[trigger] s[i]).1,
            decreases n - j,
        {
            if self.order[j].1 {
                any = true;
            }
            j = j + 1;
        }
        if n == 0 || !any {
            self.current = None;
            return;
        }
        let start: usize = match self.current {
            Some(c) => c,
            None => if forward {
                n - 1
            } else {
                0
            },
        };
        let mut m: usize = 0;
        while m < n
            invariant
                n == s.len(),
                n > 0,
                s == self.order@,
                s == old(self).order@,
                self.current == old(self).current,
                start < n,
                old(self).current matches Some(c) ==> start == c,
                old(self).current is None ==> start == (if forward {
                    n - 1
                } else {
                    0
                }),
                m <= n,
                forall|j: int| 1 <= j <= m ==> !(#[trigger] s[ring_step(start as int, n as int, j, forward)]).1,
            decreases n - m,
        {
            let k = m + 1;
            let i = if forward {
                if k < n - start {
                    start + k
                } else {
                    k - (n - start)
                }
            } else {
                if k <= start {
                    start - k
                } else {
                    n - (k - start)
                }
            };
            proof {
                lemma_ring_step_exec(start as int, n as int, k as int, forward, i as int);
            }
            if self.order[i].1 {
                proof {
                    assert(s[ring_step(start as int, n as int, k as int, forward)].1);
                    assert(moves_to(s, start as int, forward, i as int));
                }
                self.current = Some(i);
                return;
            }
            m = m + 1;
        }
        // Every index is some number of steps away, so an enabled one was found.
        proof {
            let w = choose|w: int| 0 <= w < n && (#[trigger] s[w]).1;
            lemma_ring_reaches(start as int, n as int, w, forward);
            let k = choose|k: int| 1 <= k <= n && ring_step(start as int, n as int, k, forward) == w;
            assert(!s[ring_step(start as int, n as int, k, forward)].1);
        }
    }

    /// Focus the next enabled entry, wrapping; from nothing, the first.
    pub fn next(&mut self)
        ensures
            final(self).entries() == old(self).entries(),
            steps_to(old(self).entries(), old(self).cursor(), final(self).cursor(), true),
    {
        self.step(true);
    }

    /// Focus the previous enabled entry, wrapping; from nothing, the last.
    pub fn prev(&mut self)
        ensures
            final(self).entries() == old(self).entries(),
            steps_to(old(self).entries(), old(self).cursor(), final(self).cursor(), false),
    {
        self.step(false);
    }

    /// Focus `id` if it is present and enabled; otherwise leave focus alone.
    pub fn focus(&mut self, id: T)
        ensures
            final(self).entries() == old(self).entries(),
            final(self).cursor() == old(self).cursor() || (final(self).cursor() matches Some(i)
                && 0 <= i < old(self).entries().len() && old(self).entries()[i].1),
            T::obeys_eq_spec() ==> focuses_on(old(self).entries(), old(self).cursor(), final(self).cursor(), id),
    {
        proof {
            use_type_invariant(&*self);
        }
        let n = self.order.len();
        let ghost s = self.order@;
        let mut i: usize = 0;
        while i < n
            invariant
                n == s.len(),
                s == self.order@,
                s == old(self).order@,
                self.current == old(self).current,
                i <= n,
                T::obeys_eq_spec() ==> forall|j: int|
                    0 <= j < i ==> !((#[trigger] s[j]).1 && s[j].0.eq_spec(&id)),
            decreases n - i,
        {
            let (t, en) = self.order[i];
            if t == id && en {
                self.current = Some(i);
                return;
            }
            i = i + 1;
        }
    }

    /// The same ring with entry `i` re-flagged.
    fn replace_flag(&mut self, i: usize, enabled: bool)
        requires
            i < old(self).entries().len(),
        ensures
            final(self).cursor() == old(self).cursor(),
            final(self).entries() == old(self).entries().update(i as int, (old(self).entries()[i as int].0, enabled)),
    {
        proof {
            use_type_invariant(&*self);
        }
        let n = self.order.len();
        let mut v: Vec<(T, bool)> = Vec::with_capacity(n);
        let mut j: usize = 0;
        while j < n
            invariant
                n == self.order@.len(),
                j <= n,
                i < n,
                v@.len() == j,
                forall|k: int| 0 <= k < j ==> #[trigger] v@[k] == (if k == i {
                    (self.order@[k].0, enabled)
                } else {
                    self.order@[k]
                }),
            decreases n - j,
        {
            let (t, en) = self.order[j];
            if j == i {
                v.push((t, enabled));
            } else {
                v.push((t, en));
            }
            j = j + 1;
        }
        assert(v@ =~= self.order@.update(i as int, (self.order@[i as int].0, enabled)));
        self.order = v;
    }

    /// Enable or disable `id` (its first occurrence). Focus does not move.
    pub fn set_enabled(&mut self, id: T, enabled: bool)
        ensures
            final(self).cursor() == old(self).cursor(),
            final(self).entries().len() == old(self).entries().len(),
            forall|j: int|
                0 <= j < old(self).entries().len() ==> (#[trigger] final(self).entries()[j]).0
                    == old(self).entries()[j].0,
            T::obeys_eq_spec() ==> (if exists|i: int|
                0 <= i < old(self).entries().len() && (#[trigger] old(self).entries()[i]).0.eq_spec(
                    &id,
                ) {
                exists|i: int|
                    0 <= i < old(self).entries().len() && (#[trigger] old(self).entries()[i]).0.eq_spec(
                        &id,
                    ) && (forall|j: int|
                        0 <= j < i ==> !(#[trigger] old(self).entries()[j]).0.eq_spec(&id))
                        && final(self).entries() == old(self).entries().update(
                        i,
                        (old(self).entries()[i].0, enabled),
                    )
            } else {
                final(self).entries() == old(self).entries()
            }),
    {
        proof {
            use_type_invariant(&*self);
        }
        let n = self.order.len();
        let ghost s = self.order@;
        let mut i: usize = 0;
        while i < n
            invariant
                n == s.len(),
                s == self.order@,
                s == old(self).order@,
                i <= n,
                self.current == old(self).current,
                T::obeys_eq_spec() ==> forall|j: int| 0 <= j < i ==> !(#[trigger] s[j]).0.eq_spec(&id),
            decreases n - i,
        {
            let (t, _) = self.order[i];
            if t == id {
                self.replace_flag(i, enabled);
                return;
            }
            i = i + 1;
        }
    }
}

proof fn lemma_ring_step_exec(start: int, n: int, k: int, forward: bool, i: int)
    requires
        0 <= start < n,
        1 <= k <= n,
        i == (if forward {
            if k < n - start {
                start + k
            } else {
                k - (n - start)
            }
        } else {
            if k <= start {
                start - k
            } else {
                n - (k - start)
            }
        }),
    ensures
        i == ring_step(start, n, k, forward),
        0 <= i < n,
{
    if forward {
        if k < n - start {
            vstd::arithmetic::div_mod::lemma_small_mod((start + k) as nat, n as nat);
        } else {
            vstd::arithmetic::div_mod::lemma_mod_add_multiples_vanish(i, n);
            vstd::arithmetic::div_mod::lemma_small_mod(i as nat, n as nat);
        }
    } else {
        if k <= start {
            vstd::arithmetic::div_mod::lemma_mod_add_multiples_vanish(i, n);
            vstd::arithmetic::div_mod::lemma_small_mod(i as nat, n as nat);
        } else {
            vstd::arithmetic::div_mod::lemma_small_mod(i as nat, n as nat);
        }
    }
}

/// Every index of a ring is reached within `n` steps from any start.
proof fn lemma_ring_reaches(start: int, n: int, w: int, forward: bool)
    requires
        0 <= start < n,
        0 <= w < n,
    ensures
        exists|k: int| 1 <= k <= n && ring_step(start, n, k, forward) == w,
{
    let k = if forward {
        if w > start {
            w - start
        } else {
            w - start + n
        }
    } else {
        if start > w {
            start - w
        } else {
            start - w + n
        }
    };
    let i = if forward {
        if k < n - start {
            start + k
        } else {
            k - (n - start)
        }
    } else {
        if k <= start {
            start - k
        } else {
            n - (k - start)
        }
    };
    lemma_ring_step_exec(start, n, k, forward, i);
    assert(ring_step(start, n, k, forward) == w);
}

/// With every entry enabled, a Tab step moves exactly one place around the
/// ring (forwards, or backwards with Shift), wrapping at the ends.
pub proof fn lemma_all_enabled_steps_by_one<T>(order: Seq<(T, bool)>, start: int, forward: bool, i: int)
    requires
        0 <= start < order.len(),
        forall|j: int| 0 <= j < order.len() ==> (#[trigger] order[j]).1,
        moves_to(order, start, forward, i),
    ensures
        i == ring_step(start, order.len() as int, 1, forward),
        0 <= i < order.len(),
{
    let n = order.len() as int;
    let k = choose|k: int|
        1 <= k <= n && i == ring_step(start, n, k, forward) && (#[trigger] order[ring_step(
            start,
            n,
            k,
            forward,
        )]).1 && forall|j: int| 1 <= j < k ==> !(#[trigger] order[ring_step(start, n, j, forward)]).1;
    let one = if forward {
        if 1 < n - start {
            start + 1
        } else {
            1 - (n - start)
        }
    } else {
        if 1 <= start {
            start - 1
        } else {
            n - (1 - start)
        }
    };
    lemma_ring_step_exec(start, n, 1, forward, one);
    if k > 1 {
        assert(order[ring_step(start, n, 1, forward)].1);
    }
}

} // verus!
