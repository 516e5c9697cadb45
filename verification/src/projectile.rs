//! Projectiles reaching enemies: which enemies a projectile damages, and
//! when it is spent.
use vstd::prelude::*;

verus! {

/// The enemies, by id, that a projectile damages when it overlaps the enemies
/// `in_range` (in that order), having hit `seen` before: every enemy not hit
/// before, once each.
pub open spec fn new_hits(seen: Seq<u64>, in_range: Seq<u64>) -> Seq<u64>
    decreases in_range.len(),
{
    if in_range.len() == 0 {
        Seq::empty()
    } else {
        let earlier = new_hits(seen, in_range.drop_last());
        let id = in_range.last();
        if seen.contains(id) || earlier.contains(id) {
            earlier
        } else {
            earlier.push(id)
        }
    }
}

/// Whether `id` is in `ids`.
pub fn contains_id(ids: &Vec<u64>, id: u64) -> (found: bool)
    ensures
        found == ids@.contains(id),
{
    let mut i: usize = 0;
    while i < ids.len()
        invariant
            i <= ids.len(),
            forall|j: int| 0 <= j < i ==> ids@[j] != id,
        decreases ids.len() - i,
    {
        if ids[i] == id {
            assert(ids@[i as int] == id);
            return true;
        }
        i = i + 1;
    }
    false
}

/// The hits of a prefix of the enemies in range are a prefix of the hits of
/// all of them.
pub proof fn lemma_new_hits_prefix(seen: Seq<u64>, in_range: Seq<u64>, n: int)
    requires
        0 <= n <= in_range.len(),
    ensures
        new_hits(seen, in_range.take(n)).len() <= new_hits(seen, in_range).len(),
        new_hits(seen, in_range.take(n)) == new_hits(seen, in_range).take(
            new_hits(seen, in_range.take(n)).len() as int,
        ),
    decreases in_range.len() - n,
{
    if n == in_range.len() {
        assert(in_range.take(n) =~= in_range);
        assert(new_hits(seen, in_range).take(new_hits(seen, in_range).len() as int) =~= new_hits(
            seen,
            in_range,
        ));
    } else {
        lemma_new_hits_prefix(seen, in_range, n + 1);
        assert(in_range.take(n + 1).drop_last() =~= in_range.take(n));
        let short = new_hits(seen, in_range.take(n));
        let longer = new_hits(seen, in_range.take(n + 1));
        let all = new_hits(seen, in_range);
        assert(short == longer || short == longer.drop_last());
        assert(short =~= all.take(short.len() as int));
    }
}

/// Law: a projectile never damages the same enemy twice: its new hits are
/// enemies it had not hit before, each once.
pub proof fn lemma_new_hits_fresh(seen: Seq<u64>, in_range: Seq<u64>)
    ensures
        new_hits(seen, in_range).no_duplicates(),
        forall|i: int|
            0 <= i < new_hits(seen, in_range).len() ==> !seen.contains(#[trigger] new_hits(seen, in_range)[i]),
        forall|i: int|
            0 <= i < new_hits(seen, in_range).len() ==> in_range.contains(#[trigger] new_hits(seen, in_range)[i]),
    decreases in_range.len(),
{
    if in_range.len() > 0 {
        let rest = in_range.drop_last();
        lemma_new_hits_fresh(seen, rest);
        let earlier = new_hits(seen, rest);
        assert forall|i: int| 0 <= i < earlier.len() implies in_range.contains(#[trigger] earlier[i]) by {
            let k = choose|k: int| 0 <= k < rest.len() && rest[k] == earlier[i];
            assert(in_range[k] == rest[k]);
        }
        assert(in_range[in_range.len() - 1] == in_range.last());
    }
}

/// Resolves one frame of a projectile's contacts. `in_range` lists the
/// enemies it overlaps, in order, and `already_hit` those it damaged before.
/// A piercing projectile damages every enemy in range that it has not hit
/// before and remembers them; any other projectile damages the first such
/// enemy and is spent. Returns the damaged enemies and whether the projectile
/// is spent.
pub fn resolve_contacts(pierce: bool, already_hit: &mut Vec<u64>, in_range: &Vec<u64>) -> (outcome: (
    Vec<u64>,
    bool,
))
    ensures
        pierce ==> {
            &&& outcome.0@ == new_hits(old(already_hit)@, in_range@)
            &&& final(already_hit)@ == old(already_hit)@ + outcome.0@
            &&& !outcome.1
        },
        !pierce ==> {
            let hits = new_hits(old(already_hit)@, in_range@);
            &&& outcome.0@ == if hits.len() == 0 {
                hits
            } else {
                hits.take(1)
            }
            &&& final(already_hit)@ == old(already_hit)@
            &&& outcome.1 == (hits.len() > 0)
        },
{
    let ghost seen = already_hit@;
    let mut damaged: Vec<u64> = Vec::new();
    let mut spent = false;
    let mut i: usize = 0;
    while i < in_range.len() && !spent
        invariant
            i <= in_range.len(),
            damaged@ == new_hits(seen, in_range@.take(i as int)),
            pierce ==> already_hit@ == seen + damaged@ && !spent,
            !pierce ==> already_hit@ == seen && spent == (damaged@.len() > 0) && damaged@.len() <= 1,
        decreases in_range.len() - i,
    {
        let id = in_range[i];
        proof {
            assert(in_range@.take(i + 1).drop_last() =~= in_range@.take(i as int));
            assert(in_range@.take(i + 1).last() == id);
        }
        let hit_before = contains_id(already_hit, id);
        proof {
            if pierce {
                assert(already_hit@.contains(id) <==> seen.contains(id) || damaged@.contains(id)) by {
                    if damaged@.contains(id) {
                        let k = choose|k: int| 0 <= k < damaged@.len() && damaged@[k] == id;
                        assert(already_hit@[seen.len() + k] == id);
                    }
                    if seen.contains(id) {
                        let k = choose|k: int| 0 <= k < seen.len() && seen[k] == id;
                        assert(already_hit@[k] == id);
                    }
                }
            }
        }
        if !hit_before {
            damaged.push(id);
            if pierce {
                already_hit.push(id);
                proof {
                    assert(already_hit@ =~= seen + damaged@);
                }
            } else {
                spent = true;
            }
        }
        i = i + 1;
    }
    proof {
        let hits = new_hits(seen, in_range@);
        if i == in_range.len() {
            assert(in_range@.take(i as int) =~= in_range@);
        } else {
            lemma_new_hits_prefix(seen, in_range@, i as int);
            assert(damaged@ =~= hits.take(1));
        }
        if !pierce && !spent {
            assert(damaged@.len() == 0);
        }
    }
    (damaged, spent)
}

/// Law: a projectile damages every enemy in range that it has not hit
/// before, however many it hit before.
pub proof fn lemma_new_hits_complete(seen: Seq<u64>, in_range: Seq<u64>, i: int)
    requires
        0 <= i < in_range.len(),
        !seen.contains(in_range[i]),
    ensures
        new_hits(seen, in_range).contains(in_range[i]),
    decreases in_range.len(),
{
    let rest = in_range.drop_last();
    let earlier = new_hits(seen, rest);
    if i < in_range.len() - 1 {
        assert(rest[i] == in_range[i]);
        lemma_new_hits_complete(seen, rest, i);
        let k = choose|k: int| 0 <= k < earlier.len() && earlier[k] == in_range[i];
        let hits = new_hits(seen, in_range);
        assert(hits[k] == in_range[i]);
    } else {
        let hits = new_hits(seen, in_range);
        if !earlier.contains(in_range[i]) {
            assert(hits[earlier.len() as int] == in_range[i]);
        }
    }
}

/// Law: the first enemy a projectile damages is the first enemy in range that
/// it has not hit before: all enemies in range before it were hit before.
/// With no such enemy, it damages none.
pub proof fn lemma_new_hits_first(seen: Seq<u64>, in_range: Seq<u64>)
    ensures
        new_hits(seen, in_range).len() > 0 ==> exists|k: int|
            #![trigger in_range[k]]
            0 <= k < in_range.len() && in_range[k] == new_hits(seen, in_range)[0] && !seen.contains(in_range[k])
                && forall|j: int| 0 <= j < k ==> seen.contains(#[trigger] in_range[j]),
        (forall|j: int| 0 <= j < in_range.len() ==> seen.contains(#[trigger] in_range[j])) ==> new_hits(
            seen,
            in_range,
        ).len() == 0,
    decreases in_range.len(),
{
    let hits = new_hits(seen, in_range);
    if in_range.len() > 0 {
        let rest = in_range.drop_last();
        let earlier = new_hits(seen, rest);
        lemma_new_hits_first(seen, rest);
        if earlier.len() > 0 {
            let k = choose|k: int|
                #![trigger rest[k]]
                0 <= k < rest.len() && rest[k] == earlier[0] && !seen.contains(rest[k])
                    && forall|j: int| 0 <= j < k ==> seen.contains(#[trigger] rest[j]);
            assert(in_range[k] == rest[k]);
            assert(hits[0] == earlier[0]);
            assert forall|j: int| 0 <= j < k implies seen.contains(#[trigger] in_range[j]) by {
                assert(in_range[j] == rest[j]);
            }
        } else {
            assert forall|j: int| 0 <= j < rest.len() implies seen.contains(#[trigger] rest[j]) by {
                if !seen.contains(rest[j]) {
                    lemma_new_hits_complete(seen, rest, j);
                }
            }
            let k = in_range.len() - 1;
            assert forall|j: int| 0 <= j < k implies seen.contains(#[trigger] in_range[j]) by {
                assert(in_range[j] == rest[j]);
            }
            if hits.len() > 0 {
                assert(hits[0] == in_range[k]);
            }
        }
        if forall|j: int| 0 <= j < in_range.len() ==> seen.contains(#[trigger] in_range[j]) {
            assert forall|j: int| 0 <= j < rest.len() implies seen.contains(#[trigger] rest[j]) by {
                assert(in_range[j] == rest[j]);
            }
            assert(seen.contains(in_range[in_range.len() - 1]));
        }
    }
}

} // verus!
