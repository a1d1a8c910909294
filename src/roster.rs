//! Roster rules: who may be a candidate, and the filters that keep the
//! candidate roster apart from the active roster.
use vstd::prelude::*;
use crate::character::Character;

verus! {

/// Whether some character of `s` is owned by user `id`.
pub open spec fn owner_in(s: Seq<Character>, id: u64) -> bool {
    exists|k: int| 0 <= k < s.len() && #[trigger] s[k].id == id
}

/// No user owns two characters of `s`.
pub open spec fn distinct_owners(s: Seq<Character>) -> bool {
    forall|i: int, j: int| 0 <= i < j < s.len() ==> #[trigger] s[i].id != #[trigger] s[j].id
}

/// Every member of `s` may be offered next to `active`.
pub open spec fn all_eligible(s: Seq<Character>, min_level: i32, active: Seq<Character>) -> bool {
    forall|k: int| 0 <= k < s.len() ==> is_eligible(#[trigger] s[k], min_level, active)
}

/// Whether `c` may be offered as a candidate next to the active roster `active`.
pub open spec fn is_eligible(c: Character, min_level: i32, active: Seq<Character>) -> bool {
    c.item_level >= min_level && !owner_in(active, c.id)
}

/// The characters of `pool` that are eligible next to `active`, in pool order.
pub open spec fn eligible(pool: Seq<Character>, min_level: i32, active: Seq<Character>) -> Seq<Character>
    decreases pool.len(),
{
    if pool.len() == 0 {
        Seq::empty()
    } else if is_eligible(pool.last(), min_level, active) {
        eligible(pool.drop_last(), min_level, active).push(pool.last())
    } else {
        eligible(pool.drop_last(), min_level, active)
    }
}

/// The characters of `s` not owned by user `id`, in order.
pub open spec fn without_owner(s: Seq<Character>, id: u64) -> Seq<Character>
    decreases s.len(),
{
    if s.len() == 0 {
        Seq::empty()
    } else if s.last().id != id {
        without_owner(s.drop_last(), id).push(s.last())
    } else {
        without_owner(s.drop_last(), id)
    }
}

/// Every member of `eligible(..)` is eligible.
pub proof fn lemma_eligible_members(pool: Seq<Character>, min_level: i32, active: Seq<Character>)
    ensures
        forall|k: int|
            0 <= k < eligible(pool, min_level, active).len() ==> is_eligible(
                #[trigger] eligible(pool, min_level, active)[k],
                min_level,
                active,
            ),
    decreases pool.len(),
{
    if pool.len() > 0 {
        lemma_eligible_members(pool.drop_last(), min_level, active);
        let e = eligible(pool, min_level, active);
        let r = eligible(pool.drop_last(), min_level, active);
        assert forall|k: int| 0 <= k < e.len() implies is_eligible(#[trigger] e[k], min_level, active) by {
            if k < r.len() {
                assert(e[k] == r[k]);
            }
        }
    }
}

/// Every member of `without_owner(s, id)` is a member of `s` not owned by `id`.
pub proof fn lemma_without_owner_members(s: Seq<Character>, id: u64)
    ensures
        forall|k: int|
            0 <= k < without_owner(s, id).len() ==> (#[trigger] without_owner(s, id)[k]).id != id
                && s.contains(without_owner(s, id)[k]),
    decreases s.len(),
{
    if s.len() > 0 {
        lemma_without_owner_members(s.drop_last(), id);
        let w = without_owner(s, id);
        let r = without_owner(s.drop_last(), id);
        assert forall|k: int| 0 <= k < w.len() implies (#[trigger] w[k]).id != id && s.contains(w[k]) by {
            if k < r.len() {
                assert(w[k] == r[k]);
                let j = choose|j: int| 0 <= j < s.drop_last().len() && s.drop_last()[j] == r[k];
                assert(s[j] == r[k]);
            } else {
                assert(w[k] == s.last());
                assert(s[s.len() - 1] == s.last());
            }
        }
    }
}

/// Appending a character of a user not yet present keeps owners distinct.
pub proof fn lemma_push_keeps_distinct(s: Seq<Character>, c: Character)
    requires
        distinct_owners(s),
        !owner_in(s, c.id),
    ensures
        distinct_owners(s.push(c)),
{
    let a = s.push(c);
    assert forall|i: int, j: int| 0 <= i < j < a.len() implies #[trigger] a[i].id != #[trigger] a[j].id by {
        assert(a[i] == s[i]);
        if j < a.len() - 1 {
            assert(a[j] == s[j]);
        }
    }
}

/// Removing a member keeps owners distinct.
pub proof fn lemma_remove_keeps_distinct(s: Seq<Character>, i: int)
    requires
        distinct_owners(s),
        0 <= i < s.len(),
    ensures
        distinct_owners(s.remove(i)),
{
    let a = s.remove(i);
    assert forall|p: int, q: int| 0 <= p < q < a.len() implies #[trigger] a[p].id != #[trigger] a[q].id by {
        if p < i {
            assert(a[p] == s[p]);
        } else {
            assert(a[p] == s[p + 1]);
        }
        if q < i {
            assert(a[q] == s[q]);
        } else {
            assert(a[q] == s[q + 1]);
        }
    }
}

/// Candidates stay eligible when a roster member leaves.
pub proof fn lemma_eligible_after_leave(s: Seq<Character>, min_level: i32, active: Seq<Character>, i: int)
    requires
        all_eligible(s, min_level, active),
        0 <= i < active.len(),
    ensures
        all_eligible(s, min_level, active.remove(i)),
{
    let a = active.remove(i);
    assert forall|k: int| 0 <= k < s.len() implies is_eligible(#[trigger] s[k], min_level, a) by {
        let p = s[k];
        if owner_in(a, p.id) {
            let m = choose|m: int| 0 <= m < a.len() && #[trigger] a[m].id == p.id;
            if m < i {
                assert(a[m] == active[m]);
            } else {
                assert(a[m] == active[m + 1]);
            }
        }
    }
}

/// Dropping a candidate keeps the others eligible.
pub proof fn lemma_eligible_after_drop(s: Seq<Character>, min_level: i32, active: Seq<Character>, i: int)
    requires
        all_eligible(s, min_level, active),
        0 <= i < s.len(),
    ensures
        all_eligible(s.remove(i), min_level, active),
{
    let r = s.remove(i);
    assert forall|k: int| 0 <= k < r.len() implies is_eligible(#[trigger] r[k], min_level, active) by {
        if k < i {
            assert(r[k] == s[k]);
        } else {
            assert(r[k] == s[k + 1]);
        }
    }
}

/// When user `c.id` joins the roster, the candidates of other users stay
/// eligible.
pub proof fn lemma_eligible_after_join(s: Seq<Character>, min_level: i32, active: Seq<Character>, c: Character)
    requires
        all_eligible(s, min_level, active),
    ensures
        all_eligible(without_owner(s, c.id), min_level, active.push(c)),
{
    let w = without_owner(s, c.id);
    let a = active.push(c);
    lemma_without_owner_members(s, c.id);
    assert forall|k: int| 0 <= k < w.len() implies is_eligible(#[trigger] w[k], min_level, a) by {
        let p = w[k];
        let j = choose|j: int| 0 <= j < s.len() && s[j] == p;
        assert(is_eligible(s[j], min_level, active));
        if owner_in(a, p.id) {
            let m = choose|m: int| 0 <= m < a.len() && #[trigger] a[m].id == p.id;
            if m < a.len() - 1 {
                assert(a[m] == active[m]);
            }
        }
    }
}

/// Whether some character of `s` is owned by user `id`.
pub fn owner_present(s: &Vec<Character>, id: u64) -> (r: bool)
    ensures
        r == owner_in(s@, id),
{
    let mut i: usize = 0;
    while i < s.len()
        invariant
            i <= s@.len(),
            forall|k: int| 0 <= k < i ==> s@[k].id != id,
        decreases s@.len() - i,
    {
        if s[i].id == id {
            assert(s@[i as int].id == id);
            return true;
        }
        i = i + 1;
    }
    false
}

/// Position of the character of `s` owned by user `id`, if any (the first).
pub fn owner_position(s: &Vec<Character>, id: u64) -> (r: Option<usize>)
    ensures
        r.is_none() == !owner_in(s@, id),
        r matches Some(k) ==> k < s@.len() && s@[k as int].id == id
            && forall|j: int| 0 <= j < k ==> s@[j].id != id,
{
    let mut i: usize = 0;
    while i < s.len()
        invariant
            i <= s@.len(),
            forall|k: int| 0 <= k < i ==> s@[k].id != id,
        decreases s@.len() - i,
    {
        if s[i].id == id {
            return Some(i);
        }
        i = i + 1;
    }
    None
}

/// The characters of `pool` that are eligible next to `active`, in pool order.
pub fn filter_eligible(pool: &Vec<Character>, min_level: i32, active: &Vec<Character>) -> (r: Vec<Character>)
    ensures
        r@ == eligible(pool@, min_level, active@),
{
    let mut out: Vec<Character> = Vec::new();
    let mut i: usize = 0;
    while i < pool.len()
        invariant
            i <= pool@.len(),
            out@ == eligible(pool@.take(i as int), min_level, active@),
        decreases pool@.len() - i,
    {
        assert(pool@.take(i + 1).drop_last() =~= pool@.take(i as int));
        assert(pool@.take(i + 1).last() == pool@[i as int]);
        if pool[i].item_level >= min_level && !owner_present(active, pool[i].id) {
            out.push(pool[i].duplicate());
        }
        i = i + 1;
    }
    assert(pool@.take(i as int) =~= pool@);
    out
}

/// The characters of `s` not owned by user `id`, in order.
pub fn filter_out_owner(s: &Vec<Character>, id: u64) -> (r: Vec<Character>)
    ensures
        r@ == without_owner(s@, id),
{
    let mut out: Vec<Character> = Vec::new();
    let mut i: usize = 0;
    while i < s.len()
        invariant
            i <= s@.len(),
            out@ == without_owner(s@.take(i as int), id),
        decreases s@.len() - i,
    {
        assert(s@.take(i + 1).drop_last() =~= s@.take(i as int));
        assert(s@.take(i + 1).last() == s@[i as int]);
        if s[i].id != id {
            out.push(s[i].duplicate());
        }
        i = i + 1;
    }
    assert(s@.take(i as int) =~= s@);
    out
}

} // verus!
