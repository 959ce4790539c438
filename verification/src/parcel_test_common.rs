use vstd::prelude::*;

verus! {

/// Mirrors MAX_PARCEL_INTERVALS in constants.glslinc.
pub const MAX_PARCEL_INTERVALS: usize = 100;

/// Mirrors MAX_PARCELS in constants.glslinc.
pub const MAX_PARCELS: usize = 100;

/// Floats an interval shader writes to binding 1: a count, then entry, exit
/// and parcel index per interval.
pub fn interval_output_floats() -> (n: usize)
    ensures
        n == 1 + 3 * MAX_PARCEL_INTERVALS,
{
    1 + 3 * MAX_PARCEL_INTERVALS
}

/// Floats an interval cluster shader writes to binding 1: the cluster size,
/// the parcel count, then the inflection points, then the parcel indices. Both
/// arrays are sized MAX_PARCELS in structs.glslinc.
pub fn interval_cluster_output_floats() -> (n: usize)
    ensures
        n == 2 + 2 * MAX_PARCEL_INTERVALS,
{
    2 + 2 * MAX_PARCEL_INTERVALS
}

// ---------------------------------------------------------------------------
// Inputs a case cannot upload
// ---------------------------------------------------------------------------

/// Why a test case cannot be represented by the shader it targets.
#[derive(Debug, PartialEq, Eq, Structural)]
pub enum CaseInputError {
    /// More intervals than `MAX_PARCEL_INTERVALS`.
    TooManyIntervals { count: usize },
    /// The intervals need more inflection points (two each) than the
    /// `MAX_PARCELS` slots of a cluster.
    TooManyInflectionPoints { intervals: usize },
    /// More cluster inflection points than `MAX_PARCELS` slots.
    TooManyPoints { count: usize },
    /// More cluster parcel indices than `MAX_PARCELS` slots.
    TooManyParcelIndices { count: usize },
    /// More parcels than `MAX_PARCELS`.
    TooManyParcels { count: usize },
    /// A parcel set with more indices than `MAX_PARCELS`.
    SetTooLarge { count: usize },
    /// A parcel set index that names no parcel.
    SetIndexOutOfRange { index: u32, parcels: usize },
}

/// An interval list for the interval sorting shader holds at most
/// `MAX_PARCEL_INTERVALS` intervals.
pub fn check_interval_list(count: usize) -> (r: Result<(), CaseInputError>)
    ensures
        r == if count > MAX_PARCEL_INTERVALS {
            Err(CaseInputError::TooManyIntervals { count })
        } else {
            Ok(())
        },
{
    if count > MAX_PARCEL_INTERVALS {
        Err(CaseInputError::TooManyIntervals { count })
    } else {
        Ok(())
    }
}

/// Every interval contributes two inflection points to a float[MAX_PARCELS]
/// array, so only half the capacity is usable when building a cluster.
pub fn check_cluster_intervals(count: usize) -> (r: Result<(), CaseInputError>)
    ensures
        r == if 2 * count > MAX_PARCEL_INTERVALS {
            Err(CaseInputError::TooManyInflectionPoints { intervals: count })
        } else {
            Ok(())
        },
{
    if count > MAX_PARCEL_INTERVALS / 2 {
        Err(CaseInputError::TooManyInflectionPoints { intervals: count })
    } else {
        Ok(())
    }
}

/// A cluster upload holds at most `MAX_PARCELS` inflection points and at
/// most as many parcel indices; the points are looked at first.
pub fn check_cluster(points: usize, parcel_indices: usize) -> (r: Result<(), CaseInputError>)
    ensures
        r == if points > MAX_PARCEL_INTERVALS {
            Err(CaseInputError::TooManyPoints { count: points })
        } else if parcel_indices > MAX_PARCEL_INTERVALS {
            Err(CaseInputError::TooManyParcelIndices { count: parcel_indices })
        } else {
            Ok(())
        },
{
    if points > MAX_PARCEL_INTERVALS {
        Err(CaseInputError::TooManyPoints { count: points })
    } else if parcel_indices > MAX_PARCEL_INTERVALS {
        Err(CaseInputError::TooManyParcelIndices { count: parcel_indices })
    } else {
        Ok(())
    }
}

/// The first index of `set` (from the front) that is not below `parcels`,
/// if there is one.
pub open spec fn first_out_of_range(set: Seq<u32>, parcels: int) -> Option<int>
    decreases set.len(),
{
    if set.len() == 0 {
        None
    } else if set[0] >= parcels {
        Some(0)
    } else {
        match first_out_of_range(set.drop_first(), parcels) {
            Some(k) => Some(k + 1),
            None => None,
        }
    }
}

/// What `check_parcel_set` answers: too many parcels, then too large a set,
/// then the first set index that names no parcel.
pub open spec fn parcel_set_check(parcels: usize, set: Seq<u32>) -> Result<(), CaseInputError> {
    if parcels > MAX_PARCELS {
        Err(CaseInputError::TooManyParcels { count: parcels })
    } else if set.len() > MAX_PARCELS {
        Err(CaseInputError::SetTooLarge { count: set.len() as usize })
    } else {
        match first_out_of_range(set, parcels as int) {
            Some(k) => Err(CaseInputError::SetIndexOutOfRange { index: set[k], parcels }),
            None => Ok(()),
        }
    }
}

/// `first_out_of_range` finds exactly the first offending index.
pub proof fn lemma_first_out_of_range(set: Seq<u32>, parcels: int)
    ensures
        match first_out_of_range(set, parcels) {
            Some(k) => 0 <= k < set.len() && set[k] >= parcels && forall|j: int|
                0 <= j < k ==> set[j] < parcels,
            None => forall|j: int| 0 <= j < set.len() ==> set[j] < parcels,
        },
    decreases set.len(),
{
    if set.len() > 0 && set[0] < parcels {
        lemma_first_out_of_range(set.drop_first(), parcels);
        match first_out_of_range(set.drop_first(), parcels) {
            Some(k) => {
                assert forall|j: int| 0 <= j < k + 1 implies set[j] < parcels by {
                    if j > 0 {
                        assert(set[j] == set.drop_first()[j - 1]);
                    }
                }
            },
            None => {
                assert forall|j: int| 0 <= j < set.len() implies set[j] < parcels by {
                    if j > 0 {
                        assert(set[j] == set.drop_first()[j - 1]);
                    }
                }
            },
        }
    }
}

/// A set whose indices all name parcels passes, once the counts are within
/// the limits; and an out-of-range error always names an index of the set
/// that is not below the parcel count, with that parcel count.
pub proof fn law_parcel_set_check(parcels: usize, set: Seq<u32>)
    ensures
        parcels <= MAX_PARCELS && set.len() <= MAX_PARCELS && (forall|j: int|
            0 <= j < set.len() ==> set[j] < parcels) ==> parcel_set_check(parcels, set) == Ok::<
            (),
            CaseInputError,
        >(()),
        parcel_set_check(parcels, set) matches Err(
            CaseInputError::SetIndexOutOfRange { index, parcels: p },
        ) ==> p == parcels && exists|k: int| 0 <= k < set.len() && set[k] == index && index >= parcels,
        parcel_set_check(parcels, set) is Ok ==> parcels <= MAX_PARCELS && set.len() <= MAX_PARCELS
            && forall|j: int| 0 <= j < set.len() ==> set[j] < parcels,
{
    lemma_first_out_of_range(set, parcels as int);
    match first_out_of_range(set, parcels as int) {
        Some(k) => {
            assert(0 <= k < set.len() && set[k] >= parcels);
        },
        None => {},
    }
}

/// A parcel set for the intersection shader: at most `MAX_PARCELS` parcels,
/// at most `MAX_PARCELS` set indices, each naming one of the parcels.
pub fn check_parcel_set(parcels: usize, set: &[u32]) -> (r: Result<(), CaseInputError>)
    ensures
        r == parcel_set_check(parcels, set@),
        parcels <= MAX_PARCELS && set@.len() <= MAX_PARCELS && (forall|j: int|
            0 <= j < set@.len() ==> set@[j] < parcels) ==> r == Ok::<(), CaseInputError>(()),
        r matches Err(CaseInputError::SetIndexOutOfRange { index, parcels: p }) ==> p == parcels
            && exists|k: int| 0 <= k < set@.len() && set@[k] == index && index >= parcels,
{
    if parcels > MAX_PARCELS {
        return Err(CaseInputError::TooManyParcels { count: parcels });
    }
    if set.len() > MAX_PARCELS {
        return Err(CaseInputError::SetTooLarge { count: set.len() });
    }
    let mut i: usize = 0;
    while i < set.len()
        invariant
            i <= set.len(),
            parcels <= MAX_PARCELS,
            set.len() <= MAX_PARCELS,
            forall|j: int| 0 <= j < i ==> set@[j] < parcels,
        decreases set.len() - i,
    {
        if set[i] as usize >= parcels {
            proof {
                lemma_first_out_of_range(set@, parcels as int);
                let found = first_out_of_range(set@, parcels as int);
                assert(found == Some(i as int)) by {
                    match found {
                        Some(k) => {
                            if k < i {
                                assert(set@[k] < parcels);
                            } else if k > i {
                                assert(set@[i as int] < parcels);
                            }
                        },
                        None => {
                            assert(set@[i as int] < parcels);
                        },
                    }
                }
            }
            proof {
                law_parcel_set_check(parcels, set@);
            }
            return Err(CaseInputError::SetIndexOutOfRange { index: set[i], parcels });
        }
        i += 1;
    }
    proof {
        lemma_first_out_of_range(set@, parcels as int);
        let found = first_out_of_range(set@, parcels as int);
        if let Some(k) = found {
            assert(set@[k] < parcels);
        }
        law_parcel_set_check(parcels, set@);
    }
    Ok(())
}

// ---------------------------------------------------------------------------
// Shader responses that cannot be decoded
// ---------------------------------------------------------------------------

/// Why a shader response does not decode.
#[derive(Debug, PartialEq, Eq, Structural)]
pub enum DecodeError {
    /// The shader reported more intervals than `MAX_PARCEL_INTERVALS`.
    TooManyIntervals { count: usize },
    /// The shader reported a cluster size above `MAX_PARCEL_INTERVALS`.
    ClusterTooLarge { size: usize },
    /// The shader reported more parcels than `MAX_PARCEL_INTERVALS`.
    TooManyParcels { count: usize },
}

/// An interval response holds at most `MAX_PARCEL_INTERVALS` intervals.
pub fn check_decoded_intervals(count: usize) -> (r: Result<(), DecodeError>)
    ensures
        r == if count > MAX_PARCEL_INTERVALS {
            Err(DecodeError::TooManyIntervals { count })
        } else {
            Ok(())
        },
{
    if count > MAX_PARCEL_INTERVALS {
        Err(DecodeError::TooManyIntervals { count })
    } else {
        Ok(())
    }
}

/// A cluster response holds at most `MAX_PARCEL_INTERVALS` inflection
/// points and at most as many parcels; the size is looked at first.
pub fn check_decoded_cluster(size: usize, parcel_count: usize) -> (r: Result<(), DecodeError>)
    ensures
        r == if size > MAX_PARCEL_INTERVALS {
            Err(DecodeError::ClusterTooLarge { size })
        } else if parcel_count > MAX_PARCEL_INTERVALS {
            Err(DecodeError::TooManyParcels { count: parcel_count })
        } else {
            Ok(())
        },
        r is Ok ==> 2 + size + parcel_count <= interval_cluster_output_floats_spec(),
{
    if size > MAX_PARCEL_INTERVALS {
        Err(DecodeError::ClusterTooLarge { size })
    } else if parcel_count > MAX_PARCEL_INTERVALS {
        Err(DecodeError::TooManyParcels { count: parcel_count })
    } else {
        Ok(())
    }
}

/// The length of a cluster response, as `interval_cluster_output_floats`
/// returns it.
pub open spec fn interval_cluster_output_floats_spec() -> int {
    2 + 2 * MAX_PARCEL_INTERVALS
}

// ---------------------------------------------------------------------------
// Tallying a run
// ---------------------------------------------------------------------------

/// Why a case did not pass: the shader could not be run, or its response was
/// wrong.
pub enum CaseError {
    Broken(String),
    Mismatch(String),
}

/// The tag of a case's report line.
#[derive(Debug, PartialEq, Eq, Structural)]
pub enum Verdict {
    /// The response was right.
    Pass,
    /// The response was wrong.
    Fail,
    /// The case could not be run.
    Error,
}

/// The verdict on a case's outcome.
pub open spec fn verdict_of(outcome: Result<(), CaseError>) -> Verdict {
    match outcome {
        Ok(()) => Verdict::Pass,
        Err(CaseError::Mismatch(_)) => Verdict::Fail,
        Err(CaseError::Broken(_)) => Verdict::Error,
    }
}

/// Cases that passed and cases that did not, so far.
#[derive(Debug, PartialEq, Eq, Structural)]
pub struct Tally {
    pub passed: usize,
    pub failed: usize,
}

/// Passed cases among `outcomes`.
pub open spec fn passed_in(outcomes: Seq<Verdict>) -> nat
    decreases outcomes.len(),
{
    if outcomes.len() == 0 {
        0
    } else {
        passed_in(outcomes.drop_last()) + if outcomes.last() is Pass { 1nat } else { 0nat }
    }
}

/// Cases among `outcomes` that did not pass.
pub open spec fn failed_in(outcomes: Seq<Verdict>) -> nat
    decreases outcomes.len(),
{
    if outcomes.len() == 0 {
        0
    } else {
        failed_in(outcomes.drop_last()) + if outcomes.last() is Pass { 0nat } else { 1nat }
    }
}

impl Tally {
    pub fn new() -> (t: Self)
        ensures
            t == (Tally { passed: 0, failed: 0 }),
    {
        Tally { passed: 0, failed: 0 }
    }

    /// Counts one case's outcome and gives the tag of its report line.
    pub fn record(&mut self, outcome: &Result<(), CaseError>) -> (v: Verdict)
        requires
            old(self).passed + old(self).failed < usize::MAX,
        ensures
            v == verdict_of(*outcome),
            final(self).passed == old(self).passed + if v is Pass { 1int } else { 0int },
            final(self).failed == old(self).failed + if v is Pass { 0int } else { 1int },
    {
        match outcome {
            Ok(()) => {
                self.passed = self.passed + 1;
                Verdict::Pass
            },
            Err(CaseError::Mismatch(_)) => {
                self.failed = self.failed + 1;
                Verdict::Fail
            },
            Err(CaseError::Broken(_)) => {
                self.failed = self.failed + 1;
                Verdict::Error
            },
        }
    }

    /// All cases counted so far.
    pub fn total(&self) -> (n: usize)
        requires
            self.passed + self.failed <= usize::MAX,
        ensures
            n == self.passed + self.failed,
    {
        self.passed + self.failed
    }
}

/// Recording the verdicts of a run one by one, from a fresh tally, counts
/// the passes and the rest: a tally that stands at (`passed_in`,
/// `failed_in`) of some verdicts moves, on one more verdict, to those counts
/// of the longer run, and every verdict is counted exactly once.
pub proof fn law_tally_counts_each_case_once(run: Seq<Verdict>, next: Verdict)
    ensures
        passed_in(run.push(next)) == passed_in(run) + if next is Pass { 1nat } else { 0nat },
        failed_in(run.push(next)) == failed_in(run) + if next is Pass { 0nat } else { 1nat },
        passed_in(run) + failed_in(run) == run.len(),
    decreases run.len(),
{
    assert(run.push(next).drop_last() =~= run);
    if run.len() > 0 {
        law_tally_counts_each_case_once(run.drop_last(), run.last());
    }
}

} // verus!
