use vstd::prelude::*;

verus! {

/// The even integer that the phase unwrap subtracts for a truncated quotient
/// `q`: `q` itself when even, otherwise the neighbour away from zero.
pub open spec fn even_multiple_spec(q: int) -> int {
    if q % 2 == 0 {
        q
    } else if q >= 0 {
        q + 1
    } else {
        q - 1
    }
}

/// Parity correction of the phase unwrap: rounds a truncated quotient of a
/// phase deviation by pi to an even number of half turns.
pub fn even_multiple(q: i64) -> (r: i64)
    requires
        q < i64::MAX,
    ensures
        r == even_multiple_spec(q as int),
        r % 2 == 0,
{
    let odd: bool = (q & 1i64) != 0i64;
    assert(odd <==> q % 2 != 0) by (bit_vector)
        requires odd == ((q & 1i64) != 0i64);
    if !odd {
        q
    } else if q >= 0 {
        q + 1
    } else {
        q - 1
    }
}

/// Whether a remapped bin index lands inside the spectrum of `half` bins.
pub fn accepts_bin(target: usize, half: usize) -> (r: bool)
    ensures
        r == (target < half),
{
    target < half
}

/// The last source bin whose target is `j`, among the first `targets.len()`
/// source bins; `None` if no source bin maps there.
pub open spec fn last_writer(targets: Seq<usize>, j: int) -> Option<int>
    decreases targets.len(),
{
    if targets.len() == 0 {
        None
    } else if targets.last() == j {
        Some(targets.len() - 1)
    } else {
        last_writer(targets.drop_last(), j)
    }
}

/// A recorded source bin as a mathematical index.
pub open spec fn index_of(w: Option<usize>) -> Option<int> {
    match w {
        Some(k) => Some(k as int),
        None => None,
    }
}

/// For each of the `half` destination bins, the source bin whose frequency
/// estimate it keeps: the last source bin mapped to it. Targets outside the
/// spectrum are never recorded.
pub fn last_writers(targets: &Vec<usize>, half: usize) -> (r: Vec<Option<usize>>)
    ensures
        r@.len() == half,
        forall|j: int| 0 <= j < half ==> index_of(#[trigger] r@[j]) == last_writer(targets@, j),
        forall|j: int| #![trigger r@[j]] 0 <= j < half && r@[j] is Some ==> ({
            let k = r@[j]->Some_0 as int;
            0 <= k < targets@.len() && targets@[k] == j && j < half
        }),
{
    let mut r: Vec<Option<usize>> = Vec::new();
    let mut j: usize = 0;
    while j < half
        invariant
            j <= half,
            r@.len() == j,
        decreases half - j,
    {
        r.push(None);
        j = j + 1;
    }
    last_writers_into(targets, &mut r);
    r
}

/// `last_writers` into a buffer of `half` slots that the caller owns, so
/// that a frame allocates nothing; `half` is the buffer's length.
pub fn last_writers_into(targets: &Vec<usize>, out: &mut Vec<Option<usize>>)
    ensures
        final(out)@.len() == old(out)@.len(),
        forall|j: int| 0 <= j < old(out)@.len() ==> index_of(#[trigger] final(out)@[j]) == last_writer(targets@, j),
        forall|j: int| #![trigger final(out)@[j]] 0 <= j < old(out)@.len() && final(out)@[j] is Some ==> ({
            let k = final(out)@[j]->Some_0 as int;
            0 <= k < targets@.len() && targets@[k] == j && j < old(out)@.len()
        }),
{
    let half = out.len();
    let mut j: usize = 0;
    while j < half
        invariant
            j <= half,
            out@.len() == half,
            forall|i: int| 0 <= i < j ==> out@[i] is None,
        decreases half - j,
    {
        out.set(j, None);
        j = j + 1;
    }
    proof {
        assert forall|i: int| 0 <= i < half implies last_writer(targets@.take(0), i) is None by {
            assert(targets@.take(0).len() == 0);
        }
    }
    let mut k: usize = 0;
    while k < targets.len()
        invariant
            k <= targets@.len(),
            out@.len() == half,
            forall|i: int| 0 <= i < half ==> index_of(#[trigger] out@[i]) == last_writer(targets@.take(k as int), i),
        decreases targets@.len() - k,
    {
        let t = targets[k];
        proof {
            assert(targets@.take(k + 1).drop_last() =~= targets@.take(k as int));
            assert(targets@.take(k + 1).last() == t);
        }
        if t < half {
            out.set(t, Some(k));
        }
        k = k + 1;
    }
    proof {
        assert(targets@.take(targets@.len() as int) =~= targets@);
        assert forall|j: int| #![trigger out@[j]] 0 <= j < half && out@[j] is Some implies ({
            let k = out@[j]->Some_0 as int;
            0 <= k < targets@.len() && targets@[k] == j && j < half
        }) by {
            lemma_last_writer_bounds(targets@, j);
        }
    }
}

proof fn lemma_last_writer_bounds(targets: Seq<usize>, j: int)
    ensures
        last_writer(targets, j) matches Some(k) ==> 0 <= k < targets.len() && targets[k] == j,
    decreases targets.len(),
{
    if targets.len() > 0 && targets.last() != j {
        lemma_last_writer_bounds(targets.drop_last(), j);
    }
}

} // verus!
