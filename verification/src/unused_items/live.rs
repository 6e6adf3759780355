//! Which composites are used, directly or as part of others.
use super::uses::{key_views, CollectedUses};
use crate::collections::{
    dependencies_get, dependencies_in, dependencies_of, dependency_index, keys_at, keys_in,
    keys_insert, keys_len, keys_new, Dependencies,
};
use indexmap::IndexSet;
use vstd::prelude::*;

verus! {

/// Whether `whole` has members made of `part`.
pub open spec fn depends(dependencies: Dependencies, whole: Seq<usize>, part: Seq<usize>) -> bool {
    dependencies_of(dependencies, whole) is Some && dependencies_of(
        dependencies,
        whole,
    )->0.contains(part)
}

/// Whether each element of `chain` depends on the next.
pub open spec fn is_chain(dependencies: Dependencies, chain: Seq<Seq<usize>>) -> bool {
    forall|i: int|
        0 <= i < chain.len() - 1 ==> depends(
            dependencies,
            #[trigger] chain[i],
            chain[i + 1],
        )
}

/// Whether a chain of dependencies leads from one of `seeds` to `key`.
pub open spec fn is_live(
    dependencies: Dependencies,
    seeds: Seq<Seq<usize>>,
    key: Seq<usize>,
) -> bool {
    exists|chain: Seq<Seq<usize>>| #[trigger]
        leads_to(dependencies, seeds, chain, key)
}

pub open spec fn leads_to(
    dependencies: Dependencies,
    seeds: Seq<Seq<usize>>,
    chain: Seq<Seq<usize>>,
    key: Seq<usize>,
) -> bool {
    &&& chain.len() > 0
    &&& seeds.contains(chain[0])
    &&& chain.last() == key
    &&& is_chain(dependencies, chain)
}

/// Whether `keys` holds everything that its elements depend on.
pub open spec fn is_closed(dependencies: Dependencies, keys: Seq<Seq<usize>>) -> bool {
    forall|whole: Seq<usize>, part: Seq<usize>|
        keys.contains(whole) && #[trigger] depends(dependencies, whole, part) ==> keys.contains(
            part,
        )
}

proof fn lemma_seed_is_live(
    dependencies: Dependencies,
    seeds: Seq<Seq<usize>>,
    key: Seq<usize>,
)
    requires
        seeds.contains(key),
    ensures
        is_live(dependencies, seeds, key),
{
    assert(leads_to(dependencies, seeds, seq![key], key));
}

proof fn lemma_part_is_live(
    dependencies: Dependencies,
    seeds: Seq<Seq<usize>>,
    whole: Seq<usize>,
    part: Seq<usize>,
)
    requires
        is_live(dependencies, seeds, whole),
        depends(dependencies, whole, part),
    ensures
        is_live(dependencies, seeds, part),
{
    let chain = choose|chain: Seq<Seq<usize>>| #[trigger]
        leads_to(dependencies, seeds, chain, whole);
    let longer = chain.push(part);
    assert forall|i: int| 0 <= i < longer.len() - 1 implies depends(
        dependencies,
        #[trigger] longer[i],
        longer[i + 1],
    ) by {
        if i < chain.len() - 1 {
            assert(longer[i] == chain[i] && longer[i + 1] == chain[i + 1]);
        }
    }
    assert(leads_to(dependencies, seeds, longer, part));
}

/// What is live is the least set that holds the seeds and everything that its elements depend on:
/// it is such a set, and every such set holds it.
pub proof fn live_is_least(dependencies: Dependencies, seeds: Seq<Seq<usize>>)
    ensures
        forall|key: Seq<usize>|
            seeds.contains(key) ==> #[trigger] is_live(dependencies, seeds, key),
        forall|whole: Seq<usize>, part: Seq<usize>|
            is_live(dependencies, seeds, whole) && #[trigger] depends(dependencies, whole, part)
                ==> is_live(dependencies, seeds, part),
        forall|keys: Seq<Seq<usize>>, key: Seq<usize>|
            (forall|seed: Seq<usize>| seeds.contains(seed) ==> #[trigger] keys.contains(seed))
                && #[trigger] is_closed(dependencies, keys) && is_live(dependencies, seeds, key)
                ==> #[trigger] keys.contains(key),
{
    assert forall|key: Seq<usize>| seeds.contains(key) implies #[trigger] is_live(
        dependencies,
        seeds,
        key,
    ) by {
        lemma_seed_is_live(dependencies, seeds, key);
    }
    assert forall|whole: Seq<usize>, part: Seq<usize>|
        is_live(dependencies, seeds, whole) && #[trigger] depends(
            dependencies,
            whole,
            part,
        ) implies is_live(dependencies, seeds, part) by {
        lemma_part_is_live(dependencies, seeds, whole, part);
    }
    assert forall|keys: Seq<Seq<usize>>, key: Seq<usize>|
        (forall|seed: Seq<usize>| seeds.contains(seed) ==> #[trigger] keys.contains(seed))
            && #[trigger] is_closed(dependencies, keys) && is_live(
            dependencies,
            seeds,
            key,
        ) implies #[trigger] keys.contains(key) by {
        let chain = choose|chain: Seq<Seq<usize>>| #[trigger]
            leads_to(dependencies, seeds, chain, key);
        lemma_chain_stays(dependencies, keys, chain, (chain.len() - 1) as nat);
    }
}

/// A chain that starts in a closed set stays in it.
proof fn lemma_chain_stays(
    dependencies: Dependencies,
    keys: Seq<Seq<usize>>,
    chain: Seq<Seq<usize>>,
    index: nat,
)
    requires
        index < chain.len(),
        keys.contains(chain[0]),
        is_chain(dependencies, chain),
        is_closed(dependencies, keys),
    ensures
        keys.contains(chain[index as int]),
    decreases index,
{
    if index > 0 {
        lemma_chain_stays(dependencies, keys, chain, (index - 1) as nat);
        assert(depends(dependencies, chain[index - 1], chain[index - 1 + 1]));
    }
}

/* The keys that the search can come to */

/// Everything that something depends on.
spec fn parts(dependencies: Dependencies) -> Seq<Seq<usize>>
    decreases dependencies.len(),
{
    if dependencies.len() == 0 {
        Seq::empty()
    } else {
        parts(dependencies.drop_last()) + dependencies.last().1
    }
}

proof fn lemma_parts(dependencies: Dependencies, whole: Seq<usize>, part: Seq<usize>)
    requires
        depends(dependencies, whole, part),
    ensures
        parts(dependencies).contains(part),
    decreases dependencies.len(),
{
    let before = parts(dependencies.drop_last());
    let last = dependencies.last().1;
    if dependencies.last().0 == whole {
        let i = choose|i: int| 0 <= i < last.len() && last[i] == part;
        assert((before + last)[before.len() + i] == part);
    } else {
        lemma_index(dependencies.drop_last(), whole);
        let index = dependency_index(dependencies.drop_last(), whole)->0;
        assert(dependencies.drop_last()[index as int] == dependencies[index as int]);
        lemma_parts(dependencies.drop_last(), whole, part);
        let i = choose|i: int| 0 <= i < before.len() && before[i] == part;
        assert((before + last)[i] == part);
    }
}

proof fn lemma_index(dependencies: Dependencies, key: Seq<usize>)
    ensures
        dependency_index(dependencies, key) is Some ==> dependency_index(dependencies, key)->0
            < dependencies.len(),
    decreases dependencies.len(),
{
    if dependencies.len() > 0 {
        lemma_index(dependencies.drop_last(), key);
    }
}

/// How many of `all` are not in `found`.
spec fn missing(all: Seq<Seq<usize>>, found: Seq<Seq<usize>>) -> nat
    decreases all.len(),
{
    if all.len() == 0 {
        0
    } else {
        missing(all.drop_last(), found) + if found.contains(all.last()) {
            0nat
        } else {
            1
        }
    }
}

/// Nothing more is missing once something is found, and less if it was missing.
proof fn lemma_found(all: Seq<Seq<usize>>, found: Seq<Seq<usize>>, key: Seq<usize>)
    requires
        !found.contains(key),
    ensures
        missing(all, found.push(key)) <= missing(all, found),
        all.contains(key) ==> missing(all, found.push(key)) < missing(all, found),
    decreases all.len(),
{
    if all.len() > 0 {
        lemma_found(all.drop_last(), found, key);
        lemma_push_contains(found, key, all.last());
        if all.contains(key) && all.last() != key {
            let i = choose|i: int| 0 <= i < all.len() && all[i] == key;
            assert(all.drop_last()[i] == key);
        }
    }
}

proof fn lemma_push_contains(keys: Seq<Seq<usize>>, key: Seq<usize>, other: Seq<usize>)
    ensures
        keys.push(key).contains(other) <==> (keys.contains(other) || other == key),
{
    if keys.contains(other) {
        let i = choose|i: int| 0 <= i < keys.len() && keys[i] == other;
        assert(keys.push(key)[i] == other);
    }
    if other == key {
        assert(keys.push(key)[keys.len() as int] == key);
    }
    if keys.push(key).contains(other) && other != key {
        let i = choose|i: int| 0 <= i < keys.push(key).len() && keys.push(key)[i] == other;
        assert(keys[i] == other);
    }
}

fn copy_key(key: &Vec<usize>) -> (r: Vec<usize>)
    ensures
        r@ == key@,
{
    let mut out: Vec<usize> = Vec::new();
    let mut i: usize = 0;
    while i < key.len()
        invariant
            i <= key.len(),
            out@ == key@.take(i as int),
        decreases key.len() - i,
    {
        out.push(key[i]);
        i = i + 1;
        assert(out@ =~= key@.take(i as int));
    }
    assert(key@.take(i as int) =~= key@);
    out
}

/// Puts the elements of `keys` behind those of `queue`.
fn push_keys(keys: &IndexSet<Vec<usize>>, queue: &mut Vec<Vec<usize>>)
    ensures
        key_views(final(queue)@) == key_views(old(queue)@) + keys_in(*keys),
{
    let mut i: usize = 0;
    assert(key_views(queue@) =~= key_views(old(queue)@) + keys_in(*keys).take(0));
    while i < keys_len(keys)
        invariant
            i <= keys_in(*keys).len(),
            key_views(queue@) == key_views(old(queue)@) + keys_in(*keys).take(i as int),
        decreases keys_in(*keys).len() - i,
    {
        if let Some(key) = keys_at(keys, i) {
            let ghost before = queue@;
            queue.push(copy_key(key));
            proof {
                assert(key_views(queue@) =~= key_views(before).push(keys_in(*keys)[i as int]));
                assert(keys_in(*keys).take(i + 1) =~= keys_in(*keys).take(i as int).push(
                    keys_in(*keys)[i as int],
                ));
                assert(key_views(queue@) =~= key_views(old(queue)@) + keys_in(*keys).take(i + 1));
            }
        }
        i = i + 1;
    }
    assert(keys_in(*keys).take(i as int) =~= keys_in(*keys));
}

impl CollectedUses {
    /// Where the search for live composites starts: at those that are always used, and at every
    /// item that something names.
    pub open spec fn seeds(&self) -> Seq<Seq<usize>> {
        key_views(self.composite_roots@) + keys_in(self.used_globals)
    }

    /// The composites that are used, directly or as part of the members of used ones.
    pub fn compute_live_composites(&self) -> (r: IndexSet<Vec<usize>>)
        ensures
            forall|key: Seq<usize>| #[trigger]
                keys_in(r).contains(key) <==> is_live(
                    dependencies_in(self.composite_deps),
                    self.seeds(),
                    key,
                ),
    {
        let ghost dependencies = dependencies_in(self.composite_deps);
        let ghost seeds = self.seeds();
        let mut live = keys_new();
        let mut queue: Vec<Vec<usize>> = Vec::new();
        let mut i: usize = 0;
        while i < self.composite_roots.len()
            invariant
                i <= self.composite_roots.len(),
                key_views(queue@) == key_views(self.composite_roots@).take(i as int),
            decreases self.composite_roots.len() - i,
        {
            let ghost before = queue@;
            queue.push(copy_key(&self.composite_roots[i]));
            proof {
                assert(key_views(queue@) =~= key_views(before).push(
                    self.composite_roots@[i as int]@,
                ));
                assert(key_views(queue@) =~= key_views(self.composite_roots@).take(i + 1));
            }
            i = i + 1;
        }
        assert(key_views(self.composite_roots@).take(i as int) =~= key_views(
            self.composite_roots@,
        ));
        push_keys(&self.used_globals, &mut queue);
        proof {
            assert(key_views(queue@) =~= seeds);
            lemma_start(dependencies, seeds);
        }
        while queue.len() > 0
            invariant
                dependencies == dependencies_in(self.composite_deps),
                searching(dependencies, seeds, keys_in(live), key_views(queue@)),
            decreases missing(seeds + parts(dependencies), keys_in(live)), queue.len(),
        {
            let ghost waiting = key_views(queue@);
            let ghost found = keys_in(live);
            if let Some(next) = queue.pop() {
                let ghost key = next@;
                let ghost rest = key_views(queue@);
                assert(waiting =~= rest.push(key));
                let searched = copy_key(&next);
                if keys_insert(&mut live, next) {
                    match dependencies_get(&self.composite_deps, &searched) {
                        Some(children) => {
                            push_keys(children, &mut queue);
                        },
                        None => {},
                    }
                    proof {
                        lemma_step(dependencies, seeds, found, rest, key);
                        assert(key_views(queue@) =~= rest + parts_of(dependencies, key));
                    }
                } else {
                    proof {
                        lemma_known(dependencies, seeds, found, rest, key);
                    }
                }
            }
        }
        proof {
            assert(key_views(queue@) =~= Seq::<Seq<usize>>::empty());
            lemma_done(dependencies, seeds, keys_in(live));
        }
        live
    }
}

/* The search */

/// What `key` depends on.
spec fn parts_of(dependencies: Dependencies, key: Seq<usize>) -> Seq<Seq<usize>> {
    match dependencies_of(dependencies, key) {
        Some(parts) => parts,
        None => Seq::empty(),
    }
}

/// Whether everything is live that was found or waits to be searched, and whatever else is live can
/// be reached from what waits.
#[verifier::opaque]
spec fn searching(
    dependencies: Dependencies,
    seeds: Seq<Seq<usize>>,
    found: Seq<Seq<usize>>,
    waiting: Seq<Seq<usize>>,
) -> bool {
    &&& forall|key: Seq<usize>| #[trigger]
        waiting.contains(key) ==> is_live(dependencies, seeds, key) && (seeds + parts(
            dependencies,
        )).contains(key)
    &&& forall|key: Seq<usize>| #[trigger]
        found.contains(key) ==> is_live(dependencies, seeds, key)
    &&& forall|key: Seq<usize>| #[trigger]
        seeds.contains(key) ==> found.contains(key) || waiting.contains(key)
    &&& forall|whole: Seq<usize>, part: Seq<usize>|
        found.contains(whole) && #[trigger] parts_of(dependencies, whole).contains(part)
            ==> found.contains(part) || waiting.contains(part)
}

proof fn lemma_start(dependencies: Dependencies, seeds: Seq<Seq<usize>>)
    ensures
        searching(dependencies, seeds, Seq::empty(), seeds),
{
    reveal(searching);
    assert forall|key: Seq<usize>| #[trigger] seeds.contains(key) implies is_live(
        dependencies,
        seeds,
        key,
    ) && (seeds + parts(dependencies)).contains(key) by {
        lemma_seed_is_live(dependencies, seeds, key);
        lemma_joined_contains(seeds, parts(dependencies), key);
    }
}

proof fn lemma_known(
    dependencies: Dependencies,
    seeds: Seq<Seq<usize>>,
    found: Seq<Seq<usize>>,
    rest: Seq<Seq<usize>>,
    key: Seq<usize>,
)
    requires
        searching(dependencies, seeds, found, rest.push(key)),
        found.contains(key),
    ensures
        searching(dependencies, seeds, found, rest),
{
    reveal(searching);
    assert forall|other: Seq<usize>| #[trigger] rest.push(key).contains(other) <==> (
    rest.contains(other) || other == key) by {
        lemma_push_contains(rest, key, other);
    }
    assert forall|other: Seq<usize>| #[trigger] rest.contains(other) implies rest.push(
        key,
    ).contains(other) by {}
}

proof fn lemma_step(
    dependencies: Dependencies,
    seeds: Seq<Seq<usize>>,
    found: Seq<Seq<usize>>,
    rest: Seq<Seq<usize>>,
    key: Seq<usize>,
)
    requires
        searching(dependencies, seeds, found, rest.push(key)),
        !found.contains(key),
    ensures
        searching(
            dependencies,
            seeds,
            found.push(key),
            rest + parts_of(dependencies, key),
        ),
        missing(seeds + parts(dependencies), found.push(key)) < missing(
            seeds + parts(dependencies),
            found,
        ),
{
    reveal(searching);
    let added = parts_of(dependencies, key);
    let all = seeds + parts(dependencies);
    lemma_push_contains(rest, key, key);
    lemma_found(all, found, key);
    assert forall|other: Seq<usize>| #[trigger] (rest + added).contains(other) implies is_live(
        dependencies,
        seeds,
        other,
    ) && all.contains(other) by {
        lemma_joined_contains(rest, added, other);
        if rest.contains(other) {
            lemma_push_contains(rest, key, other);
        } else {
            assert(depends(dependencies, key, other));
            lemma_part_is_live(dependencies, seeds, key, other);
            lemma_parts(dependencies, key, other);
            lemma_joined_contains(seeds, parts(dependencies), other);
        }
    }
    assert forall|other: Seq<usize>| #[trigger] found.push(key).contains(other) implies is_live(
        dependencies,
        seeds,
        other,
    ) by {
        lemma_push_contains(found, key, other);
    }
    assert forall|other: Seq<usize>| #[trigger] seeds.contains(other) implies found.push(
        key,
    ).contains(other) || (rest + added).contains(other) by {
        lemma_push_contains(found, key, other);
        lemma_push_contains(rest, key, other);
        lemma_joined_contains(rest, added, other);
    }
    assert forall|whole: Seq<usize>, part: Seq<usize>|
        found.push(key).contains(whole) && #[trigger] parts_of(dependencies, whole).contains(
            part,
        ) implies found.push(key).contains(part) || (rest + added).contains(part) by {
        lemma_push_contains(found, key, whole);
        lemma_push_contains(found, key, part);
        lemma_push_contains(rest, key, part);
        lemma_joined_contains(rest, added, part);
    }
}

proof fn lemma_done(dependencies: Dependencies, seeds: Seq<Seq<usize>>, found: Seq<Seq<usize>>)
    requires
        searching(dependencies, seeds, found, Seq::empty()),
    ensures
        forall|key: Seq<usize>| #[trigger]
            found.contains(key) <==> is_live(dependencies, seeds, key),
{
    reveal(searching);
    assert forall|key: Seq<usize>| is_live(dependencies, seeds, key) implies #[trigger]
        found.contains(key) by {
        assert forall|whole: Seq<usize>, part: Seq<usize>|
            found.contains(whole) && #[trigger] depends(
                dependencies,
                whole,
                part,
            ) implies found.contains(part) by {
            assert(parts_of(dependencies, whole).contains(part));
        }
        assert(is_closed(dependencies, found));
        assert forall|seed: Seq<usize>| seeds.contains(seed) implies #[trigger]
            found.contains(seed) by {}
        live_is_least(dependencies, seeds);
    }
}

proof fn lemma_joined_contains(first: Seq<Seq<usize>>, second: Seq<Seq<usize>>, key: Seq<usize>)
    ensures
        (first + second).contains(key) <==> (first.contains(key) || second.contains(key)),
{
    if first.contains(key) {
        let i = choose|i: int| 0 <= i < first.len() && first[i] == key;
        assert((first + second)[i] == key);
    }
    if second.contains(key) {
        let i = choose|i: int| 0 <= i < second.len() && second[i] == key;
        assert((first + second)[first.len() + i] == key);
    }
    if (first + second).contains(key) {
        let i = choose|i: int| 0 <= i < (first + second).len() && (first + second)[i] == key;
        if i < first.len() {
            assert(first[i] == key);
        } else {
            assert(second[i - first.len()] == key);
        }
    }
}

} // verus!
