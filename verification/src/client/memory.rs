//! Reading the results of a memory query.

use vstd::prelude::*;

verus! {

/// The similarity that stands for 1: similarities are whole numbers of
/// millionths.
pub const SIMILARITY_UNIT: u32 = 1_000_000;

/// A candidate more similar than this, 0.95, can be replayed as it is.
pub const EXACT_REPLAY_THRESHOLD: u32 = 950_000;

/// One scored result of a memory query.
pub struct MemoryCandidate {
    /// How close the remembered situation is to the query, in millionths.
    pub similarity: u32,
    /// What the backend remembered.
    pub payload: String,
}

/// A candidate of this similarity can be replayed without fresh inference.
pub open spec fn is_exact_replay(similarity: u32) -> bool {
    similarity > EXACT_REPLAY_THRESHOLD
}

/// `indices` lists, in ascending order and each once, the positions in
/// `results` of the candidates that can be replayed.
pub open spec fn lists_exact_replays(results: Seq<MemoryCandidate>, indices: Seq<usize>) -> bool {
    &&& forall|k: int|
        0 <= k < indices.len() ==> #[trigger] indices[k] < results.len() && is_exact_replay(
            results[indices[k] as int].similarity,
        )
    &&& forall|j: int, k: int| 0 <= j < k < indices.len() ==> indices[j] < indices[k]
    &&& forall|i: int|
        0 <= i < results.len() && is_exact_replay(#[trigger] results[i].similarity)
            ==> indices.contains(i as usize)
}

/// The positions of the results that can be replayed as they are, in the
/// order in which the backend ranked them.
pub fn exact_replay_indices(results: &Vec<MemoryCandidate>) -> (indices: Vec<usize>)
    ensures
        lists_exact_replays(results@, indices@),
{
    let mut indices: Vec<usize> = Vec::new();
    let mut i: usize = 0;
    while i < results.len()
        invariant
            i <= results.len(),
            forall|k: int|
                0 <= k < indices.len() ==> #[trigger] indices[k] < i && is_exact_replay(
                    results[indices[k] as int].similarity,
                ),
            forall|j: int, k: int| 0 <= j < k < indices.len() ==> indices[j] < indices[k],
            forall|n: int|
                0 <= n < i && is_exact_replay(#[trigger] results[n].similarity)
                    ==> indices@.contains(n as usize),
        decreases results.len() - i,
    {
        if results[i].similarity > EXACT_REPLAY_THRESHOLD {
            let ghost before = indices@;
            indices.push(i);
            assert(indices@[before.len() as int] == i);
            assert forall|n: int|
                0 <= n < i + 1 && is_exact_replay(
                    #[trigger] results[n].similarity,
                ) implies indices@.contains(n as usize) by {
                if n < i {
                    let k = choose|k: int| 0 <= k < before.len() && before[k] == n as usize;
                    assert(indices@[k] == n as usize);
                }
            }
        }
        i = i + 1;
    }
    indices
}

/// The listing of the replayable candidates is unique.
pub proof fn law_exact_replays_unique(
    results: Seq<MemoryCandidate>,
    a: Seq<usize>,
    b: Seq<usize>,
)
    requires
        lists_exact_replays(results, a),
        lists_exact_replays(results, b),
    ensures
        a == b,
    decreases a.len() + b.len(),
{
    if a.len() == 0 {
        if b.len() > 0 {
            assert(a.contains(b[0]));
        }
    } else if b.len() == 0 {
        assert(b.contains(a[0]));
    } else {
        let last_a = a.last();
        let last_b = b.last();
        assert(a.contains(last_b));
        assert(b.contains(last_a));
        let ka = choose|k: int| 0 <= k < a.len() && a[k] == last_b;
        let kb = choose|k: int| 0 <= k < b.len() && b[k] == last_a;
        assert(last_a == last_b) by {
            if ka < a.len() - 1 {
                assert(a[ka] < a[a.len() - 1]);
            }
            if kb < b.len() - 1 {
                assert(b[kb] < b[b.len() - 1]);
            }
        }
        let shorter = results.take(last_a as int);
        let a_front = a.drop_last();
        let b_front = b.drop_last();
        assert(lists_exact_replays(shorter, a_front)) by {
            assert forall|i: int|
                0 <= i < shorter.len() && is_exact_replay(
                    #[trigger] shorter[i].similarity,
                ) implies a_front.contains(i as usize) by {
                assert(is_exact_replay(results[i].similarity));
                let k = choose|k: int| 0 <= k < a.len() && a[k] == i as usize;
                assert(a_front[k] == i as usize);
            }
            assert forall|k: int| 0 <= k < a_front.len() implies #[trigger] a_front[k]
                < shorter.len() && is_exact_replay(shorter[a_front[k] as int].similarity) by {
                assert(a[k] < a[a.len() - 1]);
            }
        }
        assert(lists_exact_replays(shorter, b_front)) by {
            assert forall|i: int|
                0 <= i < shorter.len() && is_exact_replay(
                    #[trigger] shorter[i].similarity,
                ) implies b_front.contains(i as usize) by {
                assert(is_exact_replay(results[i].similarity));
                let k = choose|k: int| 0 <= k < b.len() && b[k] == i as usize;
                assert(b_front[k] == i as usize);
            }
            assert forall|k: int| 0 <= k < b_front.len() implies #[trigger] b_front[k]
                < shorter.len() && is_exact_replay(shorter[b_front[k] as int].similarity) by {
                assert(b[k] < b[b.len() - 1]);
            }
        }
        law_exact_replays_unique(shorter, a_front, b_front);
        assert(a =~= a_front.push(last_a));
        assert(b =~= b_front.push(last_b));
    }
}

} // verus!
