use vstd::prelude::*;

verus! {

/// A resource that the acquisition protocol holds and must give back.
#[derive(PartialEq, Eq, Structural, Clone, Copy, Debug)]
pub enum Resource {
    /// One of the six bus lines, by its index in the pin set
    /// (command, clock, data 0 to 3).
    Pin(u8),
    /// The initialized host controller.
    Host,
    /// The card descriptor allocated for the session.
    CardRecord,
    /// The copy of the card descriptor handed to the block-device registry.
    CardCopy,
    /// The registration of the card copy under a logical drive slot.
    DiskSlot(u8),
    /// The mount point bound in the virtual file system.
    MountPath,
    /// The mounted FAT volume of a logical drive.
    Volume(u8),
}

/// The resources named in `s`, as a set.
pub open spec fn set_of(s: Seq<Resource>) -> Set<Resource> {
    Set::new(|r: Resource| s.contains(r))
}

/// The elements of `order` that `held` contains, in the order of `order`.
pub open spec fn keep_held(order: Seq<Resource>, held: Set<Resource>) -> Seq<Resource>
    decreases order.len(),
{
    if order.len() == 0 {
        Seq::empty()
    } else {
        let rest = keep_held(order.drop_last(), held);
        if held.contains(order.last()) {
            rest.push(order.last())
        } else {
            rest
        }
    }
}

/// What is still held after releasing each of `releases`, one after the other.
pub open spec fn released(held: Set<Resource>, releases: Seq<Resource>) -> Set<Resource>
    decreases releases.len(),
{
    if releases.len() == 0 {
        held
    } else {
        released(held, releases.drop_last()).remove(releases.last())
    }
}

/// Releasing the held elements of `order`, in that order, leaves exactly what
/// `order` does not name.
pub proof fn lemma_unwind_releases(order: Seq<Resource>, held: Set<Resource>)
    ensures
        released(held, keep_held(order, held)) == held.difference(set_of(order)),
    decreases order.len(),
{
    if order.len() == 0 {
        assert(held.difference(set_of(order)) =~= held);
    } else {
        let prefix = order.drop_last();
        let last = order.last();
        lemma_unwind_releases(prefix, held);
        assert(set_of(order) =~= set_of(prefix).insert(last)) by {
            assert forall|r: Resource| set_of(order).contains(r) implies set_of(
                prefix,
            ).insert(last).contains(r) by {
                let i = choose|i: int| 0 <= i < order.len() && order[i] == r;
                if i < prefix.len() {
                    assert(prefix[i] == r);
                }
            }
            assert forall|r: Resource| set_of(prefix).insert(last).contains(r) implies set_of(
                order,
            ).contains(r) by {
                if r == last {
                    assert(order[order.len() - 1] == r);
                } else {
                    let i = choose|i: int| 0 <= i < prefix.len() && prefix[i] == r;
                    assert(order[i] == r);
                }
            }
        }
        if held.contains(last) {
            let k = keep_held(order, held);
            assert(k.drop_last() =~= keep_held(prefix, held));
            assert(released(held, k) == released(held, keep_held(prefix, held)).remove(last));
            assert(released(held, k) =~= held.difference(set_of(order)));
        } else {
            assert(held.difference(set_of(prefix)) =~= held.difference(set_of(order)));
        }
    }
}

/// Appending a resource to a list adds it to the set the list names.
pub proof fn lemma_set_of_push(s: Seq<Resource>, a: Resource)
    ensures
        set_of(s.push(a)) == set_of(s).insert(a),
{
    assert forall|r: Resource| set_of(s.push(a)).contains(r) implies set_of(s).insert(a).contains(
        r,
    ) by {
        let i = choose|i: int| 0 <= i < s.push(a).len() && s.push(a)[i] == r;
        if i < s.len() {
            assert(s[i] == r);
        }
    }
    assert forall|r: Resource| set_of(s).insert(a).contains(r) implies set_of(s.push(a)).contains(
        r,
    ) by {
        if r == a {
            assert(s.push(a)[s.len() as int] == r);
        } else {
            let i = choose|i: int| 0 <= i < s.len() && s[i] == r;
            assert(s.push(a)[i] == r);
        }
    }
    assert(set_of(s.push(a)) =~= set_of(s).insert(a));
}

/// Releasing one more element of a list of releases removes it from what is held.
pub proof fn lemma_released_step(held: Set<Resource>, releases: Seq<Resource>, n: int)
    requires
        0 <= n < releases.len(),
    ensures
        released(held, releases.subrange(0, n + 1)) == released(
            held,
            releases.subrange(0, n),
        ).remove(releases[n]),
{
    assert(releases.subrange(0, n + 1).drop_last() =~= releases.subrange(0, n));
}

/// Where `order` names everything held, unwinding along `order` gives back everything.
pub proof fn lemma_unwind_empties(order: Seq<Resource>, held: Set<Resource>)
    requires
        held.subset_of(set_of(order)),
    ensures
        released(held, keep_held(order, held)) == Set::<Resource>::empty(),
{
    lemma_unwind_releases(order, held);
    assert(held.difference(set_of(order)) =~= Set::<Resource>::empty());
}

/// Computes the elements of `order` that `held` names, in the order of `order`.
pub fn unwind_list(order: &Vec<Resource>, held: &Vec<Resource>) -> (r: Vec<Resource>)
    ensures
        r@ == keep_held(order@, set_of(held@)),
{
    let mut r: Vec<Resource> = Vec::new();
    let mut i: usize = 0;
    while i < order.len()
        invariant
            i <= order@.len(),
            r@ == keep_held(order@.subrange(0, i as int), set_of(held@)),
        decreases order.len() - i,
    {
        let item = order[i];
        let present = holds(held, item);
        assert(order@.subrange(0, i + 1).drop_last() =~= order@.subrange(0, i as int));
        if present {
            r.push(item);
        }
        i = i + 1;
    }
    assert(order@.subrange(0, order@.len() as int) =~= order@);
    r
}

/// Whether `held` names `item`.
pub fn holds(held: &Vec<Resource>, item: Resource) -> (r: bool)
    ensures
        r == set_of(held@).contains(item),
{
    let mut i: usize = 0;
    while i < held.len()
        invariant
            i <= held@.len(),
            forall|j: int| 0 <= j < i ==> held@[j] != item,
        decreases held.len() - i,
    {
        if held[i] == item {
            return true;
        }
        i = i + 1;
    }
    false
}

} // verus!
