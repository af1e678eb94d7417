use vstd::prelude::*;

verus! {

/// The number of subintervals that a step count stands for: a count below one
/// takes no step.
pub open spec fn step_count(steps: i32) -> nat {
    if steps > 0 {
        steps as nat
    } else {
        0
    }
}

/// The number of samples that the multistep schedule yields: the initial
/// condition, two start-up samples, and one sample per index `2 .. steps`.
pub open spec fn multistep_len(steps: i32) -> nat {
    if steps > 2 {
        steps as nat + 1
    } else {
        3
    }
}

/// With `n > 0` steps a one-step schedule holds `n + 1` samples; the multistep
/// schedule does too once `n >= 2` (with one step it still makes both start-up
/// samples).
pub proof fn lemma_sample_count(steps: i32)
    requires
        steps > 0,
    ensures
        step_count(steps) + 1 == steps + 1,
        steps >= 2 ==> multistep_len(steps) == steps + 1,
{
}

/// Sample `i + 1` of `r` is what `step` makes of sample `i`.
pub open spec fn stepped_at<P, F: Fn(P) -> P>(step: F, r: Seq<P>, i: int) -> bool {
    step.ensures((r[i],), r[i + 1])
}

/// Sample `i + 1` of `r` is what `recur` makes of the index `i` and of samples
/// `i`, `i - 1` and `i - 2`.
pub open spec fn recurred_at<P, M: Fn(i32, P, P, P) -> P>(recur: M, r: Seq<P>, i: int) -> bool {
    recur.ensures((i as i32, r[i], r[i - 1], r[i - 2]), r[i + 1])
}

/// The schedule shared by the one-step methods: sample 0 is `first`, and
/// sample `i + 1` is what `step` makes of sample `i`, for `i` in `0 .. steps`.
pub fn one_step_trajectory<P: Copy, F: Fn(P) -> P>(first: P, steps: i32, step: F) -> (r: Vec<P>)
    requires
        forall|p: P| step.requires((p,)),
    ensures
        r@.len() == step_count(steps) + 1,
        r@[0] == first,
        forall|i: int| 0 <= i < step_count(steps) ==> #[trigger] stepped_at(step, r@, i),
{
    let mut samples: Vec<P> = Vec::new();
    samples.push(first);
    let mut i: i32 = 0;
    while i < steps
        invariant
            0 <= i,
            steps > 0 ==> i <= steps,
            steps <= 0 ==> i == 0,
            samples@.len() == i + 1,
            samples@[0] == first,
            forall|p: P| step.requires((p,)),
            forall|j: int| 0 <= j < i ==> #[trigger] stepped_at(step, samples@, j),
        decreases steps - i,
    {
        let prev = samples[i as usize];
        let next = step(prev);
        let ghost before = samples@;
        samples.push(next);
        assert forall|j: int| 0 <= j < i implies #[trigger] stepped_at(step, samples@, j) by {
            assert(stepped_at(step, before, j));
            assert(samples@[j] == before[j] && samples@[j + 1] == before[j + 1]);
        }
        assert(stepped_at(step, samples@, i as int));
        i = i + 1;
    }
    samples
}

/// The schedule of the three-step multistep method. Sample 0 is `first`;
/// samples 1 and 2 come from `startup(i, sample i - 1)`; then for each `i` in
/// `2 .. steps`, sample `i + 1` comes from `recur(i, sample i, sample i - 1,
/// sample i - 2)`. Both start-up samples are made whatever the step count.
pub fn multistep_trajectory<P: Copy, S: Fn(i32, P) -> P, M: Fn(i32, P, P, P) -> P>(
    first: P,
    steps: i32,
    startup: S,
    recur: M,
) -> (r: Vec<P>)
    requires
        forall|i: i32, p: P| startup.requires((i, p)),
        forall|i: i32, a: P, b: P, c: P| recur.requires((i, a, b, c)),
    ensures
        r@.len() == multistep_len(steps),
        r@[0] == first,
        startup.ensures((1i32, r@[0]), r@[1]),
        startup.ensures((2i32, r@[1]), r@[2]),
        forall|i: int|
            2 <= i < steps ==> #[trigger] recurred_at(recur, r@, i),
{
    let mut samples: Vec<P> = Vec::new();
    samples.push(first);
    let mut k: i32 = 1;
    while k < 3
        invariant
            1 <= k <= 3,
            samples@.len() == k,
            samples@[0] == first,
            forall|i: i32, p: P| startup.requires((i, p)),
            k > 1 ==> startup.ensures((1i32, samples@[0]), samples@[1]),
            k > 2 ==> startup.ensures((2i32, samples@[1]), samples@[2]),
        decreases 3 - k,
    {
        let prev = samples[(k - 1) as usize];
        let next = startup(k, prev);
        samples.push(next);
        k = k + 1;
    }
    let mut i: i32 = 2;
    while i < steps
        invariant
            2 <= i,
            steps > 2 ==> i <= steps,
            steps <= 2 ==> i == 2,
            samples@.len() == i + 1,
            samples@[0] == first,
            startup.ensures((1i32, samples@[0]), samples@[1]),
            startup.ensures((2i32, samples@[1]), samples@[2]),
            forall|i: i32, a: P, b: P, c: P| recur.requires((i, a, b, c)),
            forall|j: int|
                2 <= j < i ==> #[trigger] recurred_at(recur, samples@, j),
        decreases steps - i,
    {
        let iu = i as usize;
        let p1 = samples[iu];
        let p2 = samples[iu - 1];
        let p3 = samples[iu - 2];
        let next = recur(i, p1, p2, p3);
        let ghost before = samples@;
        samples.push(next);
        assert forall|j: int| 2 <= j < i implies #[trigger] recurred_at(recur, samples@, j) by {
            assert(recurred_at(recur, before, j));
            assert(samples@[j] == before[j] && samples@[j + 1] == before[j + 1]);
            assert(samples@[j - 1] == before[j - 1] && samples@[j - 2] == before[j - 2]);
        }
        assert(recurred_at(recur, samples@, i as int));
        i = i + 1;
    }
    samples
}

} // verus!
