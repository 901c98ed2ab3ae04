//! The table from track identity to queue position.
use vstd::prelude::*;

use crate::metadata::Metadata;

verus! {

/// The identities of the tracks of a queue, in queue order.
pub open spec fn track_ids(q: Seq<Metadata>) -> Seq<Seq<char>> {
    q.map_values(|m: Metadata| m.trackid@)
}

/// `index` maps each identity of `ids` to the last position that holds it:
/// every identity has exactly one entry, and each entry names the last
/// position of its identity.
pub open spec fn indexes_ids(index: Seq<(String, usize)>, ids: Seq<Seq<char>>) -> bool {
    &&& forall|a: int, b: int|
        0 <= a < index.len() && 0 <= b < index.len() && a != b ==> (#[trigger] index[a]).0@
            != (#[trigger] index[b]).0@
    &&& forall|k: int|
        0 <= k < index.len() ==> {
            let (id, pos) = #[trigger] index[k];
            &&& pos < ids.len()
            &&& ids[pos as int] == id@
            &&& forall|m: int| pos < m < ids.len() ==> ids[m] != id@
        }
    &&& forall|j: int|
        #![trigger ids[j]]
        0 <= j < ids.len() ==> exists|k: int| 0 <= k < index.len() && (#[trigger] index[k]).0@ == ids[j]
}

/// Builds the table from identity to position for `queue`; where an identity
/// occurs more than once, the last position wins.
pub fn create_index(queue: &[Metadata]) -> (r: Vec<(String, usize)>)
    ensures
        indexes_ids(r@, track_ids(queue@)),
{
    let ghost ids = track_ids(queue@);
    let mut index: Vec<(String, usize)> = Vec::new();
    let mut i: usize = 0;
    while i < queue.len()
        invariant
            0 <= i <= queue@.len(),
            ids == track_ids(queue@),
            indexes_ids(index@, ids.take(i as int)),
        decreases queue@.len() - i,
    {
        let id = &queue[i].trackid;
        let mut j: usize = 0;
        let mut found = false;
        while j < index.len() && !found
            invariant
                0 <= j <= index@.len(),
                found ==> j < index@.len() && index@[j as int].0@ == id@,
                forall|k: int| 0 <= k < j ==> (#[trigger] index@[k]).0@ != id@,
            decreases index@.len() - j + (if found { 0int } else { 1int }),
        {
            if index[j].0 == *id {
                found = true;
            } else {
                j = j + 1;
            }
        }
        let ghost prev = index@;
        proof {
            assert(ids[i as int] == id@);
        }
        if found {
            index.set(j, (id.clone(), i));
        } else {
            index.push((id.clone(), i));
        }
        proof {
            let next = ids.take(i + 1);
            let before = ids.take(i as int);
            assert(next =~= before.push(id@));
            assert(index@[j as int] == (*id, i));
            assert forall|k: int| 0 <= k < index@.len() && k != j implies (#[trigger] index@[k]).0@
                != id@ && index@[k] == prev[k] by {
                if found {
                    assert(prev[k].0@ != prev[j as int].0@);
                }
            }
            assert forall|k: int| 0 <= k < index@.len() implies {
                let (kid, pos) = #[trigger] index@[k];
                &&& pos < next.len()
                &&& next[pos as int] == kid@
                &&& forall|m: int| pos < m < next.len() ==> next[m] != kid@
            } by {
                if k != j {
                    let (kid, pos) = prev[k];
                    assert(before[pos as int] == kid@);
                    assert(next[pos as int] == kid@);
                    assert forall|m: int| pos < m < next.len() implies next[m] != kid@ by {
                        if m < i {
                            assert(next[m] == before[m]);
                        }
                    }
                }
            }
            assert forall|jj: int| #![trigger next[jj]] 0 <= jj < next.len() implies exists|k: int|
                0 <= k < index@.len() && (#[trigger] index@[k]).0@ == next[jj] by {
                if jj == i {
                    assert(index@[j as int].0@ == next[jj]);
                } else {
                    assert(before[jj] == next[jj]);
                    let k = choose|k: int| 0 <= k < prev.len() && (#[trigger] prev[k]).0@ == before[jj];
                    assert(index@[k].0@ == next[jj]);
                }
            }
        }
        i = i + 1;
    }
    assert(ids.take(queue@.len() as int) =~= ids);
    index
}

} // verus!
