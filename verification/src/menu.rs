use vstd::prelude::*;
use vstd::arithmetic::div_mod::{
    lemma_add_mod_noop_right, lemma_mod_add_multiples_vanish, lemma_mod_equivalence,
    lemma_mod_sub_multiples_vanish, lemma_sub_mod_noop_right, lemma_small_mod, lemma_mod_pos_bound, lemma_mod_bound,
};

verus! {

/// One entry of a menu: the text shown and whether it can be selected.
pub struct Item {
    pub text: String,
    pub active: bool,
}

impl View for Item {
    type V = (Seq<char>, bool);

    open spec fn view(&self) -> (Seq<char>, bool) {
        (self.text@, self.active)
    }
}

/// The texts and flags of a list of items.
pub open spec fn views(items: Seq<Item>) -> Seq<(Seq<char>, bool)> {
    items.map_values(|item: Item| item@)
}

impl Clone for Item {
    fn clone(&self) -> (copy: Self)
        ensures
            copy == *self,
    {
        Item { text: self.text.clone(), active: self.active }
    }
}

impl Item {
    /// A selectable item.
    pub fn new(text: &'static str) -> (item: Self)
        ensures
            item.text@ == text@,
            item.active,
    {
        Item { text: String::from_str(text), active: true }
    }

    /// An item that is shown but can never be selected.
    pub fn unactive(text: &'static str) -> (item: Self)
        ensures
            item.text@ == text@,
            !item.active,
    {
        Item { text: String::from_str(text), active: false }
    }

    /// A selectable item whose text was built at run time.
    pub fn owned(text: String) -> (item: Self)
        ensures
            item.text@ == text@,
            item.active,
    {
        Item { text, active: true }
    }
}

/// Which items can be selected.
pub open spec fn actives(items: Seq<Item>) -> Seq<bool> {
    items.map_values(|item: Item| item.active)
}

/// Which items can be selected, read off their texts and flags.
pub proof fn lemma_actives_views(items: Seq<Item>)
    ensures
        actives(items) == views(items).map_values(|v: (Seq<char>, bool)| v.1),
{
    assert(actives(items) =~= views(items).map_values(|v: (Seq<char>, bool)| v.1));
}

/// Some item can be selected, given which items can be (`active`).
pub open spec fn has_active(active: Seq<bool>) -> bool {
    exists|i: int| 0 <= i < active.len() && #[trigger] active[i]
}

/// Walking down from `start`, `k` steps (wrapping round at the end) reach
/// the first selectable item.
pub open spec fn is_next_down(active: Seq<bool>, start: int, k: int) -> bool {
    &&& 1 <= k <= active.len()
    &&& active[(start + k) % (active.len() as int)]
    &&& forall|j: int| 1 <= j < k ==> !#[trigger] active[(start + j) % (active.len() as int)]
}

/// Walking up from `start`, `k` steps (wrapping round at the top) reach
/// the first selectable item.
pub open spec fn is_next_up(active: Seq<bool>, start: int, k: int) -> bool {
    &&& 1 <= k <= active.len()
    &&& active[(start - k) % (active.len() as int)]
    &&& forall|j: int| 1 <= j < k ==> !#[trigger] active[(start - j) % (active.len() as int)]
}

/// The index reached by moving the selection down from `start`.
pub open spec fn rotated_down(active: Seq<bool>, start: int) -> int {
    let k = choose|k: int| is_next_down(active, start, k);
    (start + k) % (active.len() as int)
}

/// The index reached by moving the selection up from `start`.
pub open spec fn rotated_up(active: Seq<bool>, start: int) -> int {
    let k = choose|k: int| is_next_up(active, start, k);
    (start - k) % (active.len() as int)
}

/// Every index of a list of `n` entries is reached from `s` by some number
/// of steps down between 1 and `n`.
proof fn lemma_down_covers(s: int, n: int, i: int)
    requires
        0 < n,
        0 <= i < n,
    ensures
        exists|j: int| 1 <= j <= n && #[trigger] ((s + j) % n) == i,
{
    let d = (i - s) % n;
    lemma_add_mod_noop_right(s, i - s, n);
    lemma_small_mod(i as nat, n as nat);
    if d == 0 {
        lemma_mod_equivalence(i, s, n);
        lemma_mod_add_multiples_vanish(s, n);
        assert((s + n) % n == i);
    } else {
        assert((s + d) % n == i);
    }
}

/// Every index of a list of `n` entries is reached from `s` by some number
/// of steps up between 1 and `n`.
proof fn lemma_up_covers(s: int, n: int, i: int)
    requires
        0 < n,
        0 <= i < n,
    ensures
        exists|j: int| 1 <= j <= n && #[trigger] ((s - j) % n) == i,
{
    let d = (s - i) % n;
    lemma_sub_mod_noop_right(s, s - i, n);
    lemma_small_mod(i as nat, n as nat);
    if d == 0 {
        lemma_mod_equivalence(s, i, n);
        lemma_mod_sub_multiples_vanish(s, n);
        assert((s - n) % n == i);
    } else {
        assert((s - d) % n == i);
    }
}

/// The walk that stops at the first selectable item is unique.
pub proof fn lemma_next_down_unique(active: Seq<bool>, start: int, k: int)
    requires
        is_next_down(active, start, k),
    ensures
        rotated_down(active, start) == (start + k) % (active.len() as int),
{
    let k2 = choose|k2: int| is_next_down(active, start, k2);
    assert(is_next_down(active, start, k2));
    if k2 < k {
        assert(!active[(start + k2) % (active.len() as int)]);
    } else if k < k2 {
        assert(!active[(start + k) % (active.len() as int)]);
    }
}

pub proof fn lemma_next_up_unique(active: Seq<bool>, start: int, k: int)
    requires
        is_next_up(active, start, k),
    ensures
        rotated_up(active, start) == (start - k) % (active.len() as int),
{
    let k2 = choose|k2: int| is_next_up(active, start, k2);
    assert(is_next_up(active, start, k2));
    if k2 < k {
        assert(!active[(start - k2) % (active.len() as int)]);
    } else if k < k2 {
        assert(!active[(start - k) % (active.len() as int)]);
    }
}

/// One step up from index `c` lands on `c - 1`, or on the last index from 0.
proof fn lemma_step_up(c: int, n: int)
    requires
        0 < n,
        0 <= c <= n,
    ensures
        (c - 1) % n == (if c > 0 { c - 1 } else { n - 1 }),
{
    if c > 0 {
        lemma_small_mod((c - 1) as nat, n as nat);
    } else {
        lemma_mod_sub_multiples_vanish(n - 1, n);
        lemma_small_mod((n - 1) as nat, n as nat);
    }
}

/// Walking down from `start` past `k - 1` unselectable items, some later
/// step up to the `n`-th reaches a selectable item: so a first one exists.
proof fn lemma_next_down_exists(active: Seq<bool>, start: int, k: int, target: int)
    requires
        1 <= k <= target <= active.len(),
        active[(start + target) % (active.len() as int)],
        forall|j: int| 1 <= j < k ==> !#[trigger] active[(start + j) % (active.len() as int)],
    ensures
        exists|k2: int| is_next_down(active, start, k2),
    decreases target - k,
{
    if active[(start + k) % (active.len() as int)] {
        assert(is_next_down(active, start, k));
    } else {
        lemma_next_down_exists(active, start, k + 1, target);
    }
}

proof fn lemma_next_up_exists(active: Seq<bool>, start: int, k: int, target: int)
    requires
        1 <= k <= target <= active.len(),
        active[(start - target) % (active.len() as int)],
        forall|j: int| 1 <= j < k ==> !#[trigger] active[(start - j) % (active.len() as int)],
    ensures
        exists|k2: int| is_next_up(active, start, k2),
    decreases target - k,
{
    if active[(start - k) % (active.len() as int)] {
        assert(is_next_up(active, start, k));
    } else {
        lemma_next_up_exists(active, start, k + 1, target);
    }
}

/// When some item can be selected, a first one is reached walking down.
pub proof fn lemma_next_down_exists_from_rotation(active: Seq<bool>, s: int)
    requires
        has_active(active),
    ensures
        exists|k: int| is_next_down(active, s, k),
{
    let n = active.len() as int;
    let i = choose|i: int| 0 <= i < active.len() && #[trigger] active[i];
    lemma_down_covers(s, n, i);
    let t = choose|j: int| 1 <= j <= n && #[trigger] ((s + j) % n) == i;
    lemma_next_down_exists(active, s, 1, t);
}

/// When some item can be selected, a first one is reached walking up.
pub proof fn lemma_next_up_exists_from_rotation(active: Seq<bool>, s: int)
    requires
        has_active(active),
    ensures
        exists|k: int| is_next_up(active, s, k),
{
    let n = active.len() as int;
    let i = choose|i: int| 0 <= i < active.len() && #[trigger] active[i];
    lemma_up_covers(s, n, i);
    let t = choose|j: int| 1 <= j <= n && #[trigger] ((s - j) % n) == i;
    lemma_next_up_exists(active, s, 1, t);
}

/// Moving the selection down, from anywhere, lands on a selectable item,
/// when there is one.
pub proof fn lemma_rotated_down_selectable(active: Seq<bool>, s: int)
    requires
        has_active(active),
    ensures
        0 <= rotated_down(active, s) < active.len(),
        active[rotated_down(active, s)],
{
    let n = active.len() as int;
    let i = choose|i: int| 0 <= i < active.len() && #[trigger] active[i];
    lemma_down_covers(s, n, i);
    let t = choose|j: int| 1 <= j <= n && #[trigger] ((s + j) % n) == i;
    lemma_next_down_exists(active, s, 1, t);
    let k = choose|k: int| is_next_down(active, s, k);
    lemma_next_down_unique(active, s, k);
    lemma_mod_bound(s + k, n);
}

/// Moving the selection up, from anywhere, lands on a selectable item,
/// when there is one.
pub proof fn lemma_rotated_up_selectable(active: Seq<bool>, s: int)
    requires
        has_active(active),
    ensures
        0 <= rotated_up(active, s) < active.len(),
        active[rotated_up(active, s)],
{
    let n = active.len() as int;
    let i = choose|i: int| 0 <= i < active.len() && #[trigger] active[i];
    lemma_up_covers(s, n, i);
    let t = choose|j: int| 1 <= j <= n && #[trigger] ((s - j) % n) == i;
    lemma_next_up_exists(active, s, 1, t);
    let k = choose|k: int| is_next_up(active, s, k);
    lemma_next_up_unique(active, s, k);
    lemma_mod_bound(s - k, n);
}

/// Moving the selection down and then up again comes back to where it was,
/// when it started on a selectable item.
pub proof fn lemma_rotate_down_then_up(active: Seq<bool>, s: int)
    requires
        0 <= s < active.len(),
        active[s],
    ensures
        rotated_up(active, rotated_down(active, s)) == s,
{
    let n = active.len() as int;
    lemma_down_covers(s, n, s);
    let t = choose|j: int| 1 <= j <= n && #[trigger] ((s + j) % n) == s;
    lemma_next_down_exists(active, s, 1, t);
    let k = choose|k: int| is_next_down(active, s, k);
    lemma_next_down_unique(active, s, k);
    let r = (s + k) % n;
    lemma_small_mod(s as nat, n as nat);
    assert forall|j: int| 1 <= j <= k implies #[trigger] ((r - j) % n) == (s + (k - j)) % n by {
        lemma_add_mod_noop_right(-j, s + k, n);
    }
    assert((r - k) % n == s);
    assert forall|j: int| 1 <= j < k implies !#[trigger] active[(r - j) % n] by {
        assert((r - j) % n == (s + (k - j)) % n);
    }
    assert(is_next_up(active, r, k));
    lemma_next_up_unique(active, r, k);
}

/// Moving the selection up and then down again comes back to where it was,
/// when it started on a selectable item.
pub proof fn lemma_rotate_up_then_down(active: Seq<bool>, s: int)
    requires
        0 <= s < active.len(),
        active[s],
    ensures
        rotated_down(active, rotated_up(active, s)) == s,
{
    let n = active.len() as int;
    lemma_up_covers(s, n, s);
    let t = choose|j: int| 1 <= j <= n && #[trigger] ((s - j) % n) == s;
    lemma_next_up_exists(active, s, 1, t);
    let k = choose|k: int| is_next_up(active, s, k);
    lemma_next_up_unique(active, s, k);
    let r = (s - k) % n;
    lemma_small_mod(s as nat, n as nat);
    assert forall|j: int| 1 <= j <= k implies #[trigger] ((r + j) % n) == (s - (k - j)) % n by {
        lemma_add_mod_noop_right(j, s - k, n);
    }
    assert((r + k) % n == s);
    assert forall|j: int| 1 <= j < k implies !#[trigger] active[(r + j) % n] by {
        assert((r + j) % n == (s - (k - j)) % n);
    }
    assert(is_next_down(active, r, k));
    lemma_next_down_unique(active, r, k);
}

/// A menu as shown on screen: its title, its items, and the selection,
/// which lives in the game mode that the menu belongs to.
pub struct Menu<'a> {
    pub title: &'static str,
    pub items: Vec<Item>,
    pub selected: &'a mut usize,
}

impl<'a> Menu<'a> {
    /// Moves the selection to the next selectable item below it, wrapping
    /// round from the last item to the first.
    pub fn rotate_down(&mut self)
        requires
            old(self).items.len() > 0,
            has_active(actives(old(self).items@)),
            *old(self).selected < usize::MAX,
        ensures
            final(self).title == old(self).title,
            final(self).items@ == old(self).items@,
            *final(final(self).selected) == *final(old(self).selected),
            *final(self).selected == rotated_down(actives(old(self).items@), *old(self).selected as int),
            (*final(self).selected as int) < final(self).items.len(),
            final(self).items@[*final(self).selected as int].active,
    {
        let n = self.items.len();
        let ghost s = *self.selected as int;
        let ghost items = self.items@;
        let ghost active = actives(items);
        let ghost mut k: int = 0;
        let mut done = false;
        while !done
            invariant
                n == self.items.len(),
                n > 0,
                items == self.items@,
                items == old(self).items@,
                self.title == old(self).title,
                has_active(active),
                active == actives(self.items@),
                *final(self.selected) == *final(old(self).selected),
                s == *old(self).selected,
                0 <= s < usize::MAX,
                0 <= k <= n,
                k == 0 ==> *self.selected == s && !done,
                k > 0 ==> *self.selected == (s + k) % (n as int),
                forall|j: int| 1 <= j < k ==> !#[trigger] active[(s + j) % (n as int)],
                done <==> (k > 0 && active[(s + k) % (n as int)]),
                !done ==> k < n,
            decreases (if done { 0 } else { n - k + 1 }),
        {
            proof {
                if k > 0 {
                    lemma_mod_pos_bound(s + k, n as int);
                }
            }
            let next = (*self.selected + 1) % n;
            proof {
                if k > 0 {
                    lemma_add_mod_noop_right(1, s + k, n as int);
                }
                k = k + 1;
            }
            *self.selected = next;
            done = self.items[next].active;
            proof {
                if !done && k == n {
                    let i = choose|i: int| 0 <= i < active.len() && #[trigger] active[i];
                    lemma_down_covers(s, n as int, i);
                    let j = choose|j: int| 1 <= j <= n && #[trigger] ((s + j) % (n as int)) == i;
                    assert(!active[(s + j) % (n as int)]);
                }
            }
        }
        proof {
            lemma_next_down_unique(active, s, k);
        }
    }

    /// Moves the selection to the next selectable item above it, wrapping
    /// round from the first item to the last.
    pub fn rotate_up(&mut self)
        requires
            old(self).items.len() > 0,
            has_active(actives(old(self).items@)),
            *old(self).selected <= old(self).items.len(),
        ensures
            final(self).title == old(self).title,
            final(self).items@ == old(self).items@,
            *final(final(self).selected) == *final(old(self).selected),
            *final(self).selected == rotated_up(actives(old(self).items@), *old(self).selected as int),
            (*final(self).selected as int) < final(self).items.len(),
            final(self).items@[*final(self).selected as int].active,
    {
        let n = self.items.len();
        let ghost s = *self.selected as int;
        let ghost items = self.items@;
        let ghost active = actives(items);
        let ghost mut k: int = 0;
        let mut done = false;
        while !done
            invariant
                n == self.items.len(),
                n > 0,
                items == self.items@,
                items == old(self).items@,
                self.title == old(self).title,
                has_active(active),
                active == actives(self.items@),
                *final(self.selected) == *final(old(self).selected),
                s == *old(self).selected,
                0 <= s <= n,
                0 <= k <= n,
                k == 0 ==> *self.selected == s && !done,
                k > 0 ==> *self.selected == (s - k) % (n as int) && *self.selected < n,
                forall|j: int| 1 <= j < k ==> !#[trigger] active[(s - j) % (n as int)],
                done <==> (k > 0 && active[(s - k) % (n as int)]),
                !done ==> k < n,
            decreases (if done { 0 } else { n - k + 1 }),
        {
            proof {
                let c = *self.selected as int;
                lemma_step_up(c, n as int);
                if k > 0 {
                    lemma_add_mod_noop_right(-1, s - k, n as int);
                }
                assert((c - 1) % (n as int) == (s - k - 1) % (n as int));
                k = k + 1;
            }
            *self.selected = match self.selected.checked_sub(1) {
                None => n - 1,
                Some(selected) => selected,
            };
            done = self.items[*self.selected].active;
            proof {
                if !done && k == n {
                    let i = choose|i: int| 0 <= i < active.len() && #[trigger] active[i];
                    lemma_up_covers(s, n as int, i);
                    let j = choose|j: int| 1 <= j <= n && #[trigger] ((s - j) % (n as int)) == i;
                    assert(!active[(s - j) % (n as int)]);
                }
            }
        }
        proof {
            lemma_next_up_unique(active, s, k);
        }
    }
}

} // verus!
