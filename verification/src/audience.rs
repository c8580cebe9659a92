//! Which audience a bucket belongs to.
//!
//! A bucket carries the name of its audience at its end: `media.example.org`
//! belongs to `example.org`. Where several configured audiences fit, the
//! longest one is meant, so the answer does not depend on the order in which
//! the audiences were configured.

use vstd::prelude::*;
use vstd::string::StringExecFns;
use vstd::string::StrSliceExecFns;
use crate::error::Error;
use crate::text::ends_with;
use crate::text::str_ends_with;

verus! {

/// The audience's name ends the bucket's name.
pub open spec fn covers(audience: Seq<char>, bucket: Seq<char>) -> bool {
    ends_with(bucket, audience)
}

/// None of the audiences covers the bucket.
pub open spec fn uncovered(audiences: Seq<Seq<char>>, bucket: Seq<char>) -> bool {
    forall|i: int| 0 <= i < audiences.len() ==> !covers(#[trigger] audiences[i], bucket)
}

/// `audience` is configured, covers the bucket, and no configured audience
/// that covers the bucket is longer.
pub open spec fn is_audience_of(
    audiences: Seq<Seq<char>>,
    bucket: Seq<char>,
    audience: Seq<char>,
) -> bool {
    &&& audiences.contains(audience)
    &&& covers(audience, bucket)
    &&& forall|i: int|
        0 <= i < audiences.len() && covers(#[trigger] audiences[i], bucket) ==> audiences[i].len()
            <= audience.len()
}

/// The configured audiences.
#[derive(Debug)]
pub struct AudienceEstimator {
    audiences: Vec<String>,
}

impl View for AudienceEstimator {
    type V = Seq<Seq<char>>;

    closed spec fn view(&self) -> Seq<Seq<char>> {
        self.audiences.deep_view()
    }
}

impl AudienceEstimator {
    /// An estimator over the given audiences.
    pub fn new(audiences: Vec<String>) -> (estimator: Self)
        ensures
            estimator@ == audiences.deep_view(),
    {
        AudienceEstimator { audiences }
    }

    /// The audience of a bucket: the longest configured audience whose name
    /// ends the bucket's name. Fails exactly when no configured audience does.
    pub fn estimate(&self, bucket: &str) -> (estimated: Result<&str, Error>)
        ensures
            match estimated {
                Ok(audience) => is_audience_of(self@, bucket@, audience@),
                Err(Error::AudienceEstimation { bucket: named }) => named@ == bucket@ && uncovered(
                    self@,
                    bucket@,
                ),
                Err(_) => false,
            },
    {
        let ghost all = self@;
        let mut best: Option<usize> = None;
        let mut best_len: usize = 0;
        let mut i: usize = 0;
        while i < self.audiences.len()
            invariant
                all == self.audiences.deep_view(),
                all.len() == self.audiences.len(),
                i <= self.audiences.len(),
                match best {
                    Some(b) => b < i && covers(all[b as int], bucket@) && best_len == all[b as int].len(),
                    None => true,
                },
                forall|k: int|
                    0 <= k < i && covers(#[trigger] all[k], bucket@) ==> best is Some && all[k].len()
                        <= best_len,
            decreases self.audiences.len() - i,
        {
            let candidate = self.audiences[i].as_str();
            assert(candidate@ == all[i as int]);
            if str_ends_with(bucket, candidate) {
                let len = candidate.unicode_len();
                if best.is_none() || len > best_len {
                    best = Some(i);
                    best_len = len;
                }
            }
            i += 1;
        }
        match best {
            Some(b) => {
                let audience = self.audiences[b].as_str();
                assert(audience@ == all[b as int]);
                Ok(audience)
            },
            None => Err(Error::AudienceEstimation { bucket: String::from_str(bucket) }),
        }
    }
}

/// A bucket has at most one audience: estimation has one answer.
pub proof fn lemma_audience_unique(
    audiences: Seq<Seq<char>>,
    bucket: Seq<char>,
    first: Seq<char>,
    second: Seq<char>,
)
    requires
        is_audience_of(audiences, bucket, first),
        is_audience_of(audiences, bucket, second),
    ensures
        first == second,
{
    let i = choose|i: int| 0 <= i < audiences.len() && audiences[i] == first;
    let j = choose|j: int| 0 <= j < audiences.len() && audiences[j] == second;
    assert(audiences[i].len() <= second.len());
    assert(audiences[j].len() <= first.len());
    assert(first =~= second);
}

/// A bucket has an audience exactly when some configured audience covers it,
/// so estimation succeeds or fails for the same bucket and configuration every
/// time, and with the same audience.
pub proof fn lemma_estimation_deterministic(
    audiences: Seq<Seq<char>>,
    bucket: Seq<char>,
    first: Option<Seq<char>>,
    second: Option<Seq<char>>,
)
    requires
        outcome_of(audiences, bucket, first),
        outcome_of(audiences, bucket, second),
    ensures
        first == second,
{
    match (first, second) {
        (Some(a), Some(b)) => {
            lemma_audience_unique(audiences, bucket, a, b);
        },
        (Some(a), None) => {
            let i = choose|i: int| 0 <= i < audiences.len() && audiences[i] == a;
            assert(covers(audiences[i], bucket));
        },
        (None, Some(b)) => {
            let i = choose|i: int| 0 <= i < audiences.len() && audiences[i] == b;
            assert(covers(audiences[i], bucket));
        },
        (None, None) => {},
    }
}

/// What `estimate` promises of its result, with failure written as `None`.
pub open spec fn outcome_of(
    audiences: Seq<Seq<char>>,
    bucket: Seq<char>,
    outcome: Option<Seq<char>>,
) -> bool {
    match outcome {
        Some(audience) => is_audience_of(audiences, bucket, audience),
        None => uncovered(audiences, bucket),
    }
}

/// The audience of a bucket depends on which audiences are configured, not on
/// their order or on repetitions.
pub proof fn lemma_order_irrelevant(
    audiences: Seq<Seq<char>>,
    reordered: Seq<Seq<char>>,
    bucket: Seq<char>,
    outcome: Option<Seq<char>>,
)
    requires
        audiences.to_set() == reordered.to_set(),
        outcome_of(audiences, bucket, outcome),
    ensures
        outcome_of(reordered, bucket, outcome),
{
    assert forall|a: Seq<char>| audiences.contains(a) <==> reordered.contains(a) by {
        assert(audiences.to_set().contains(a) <==> audiences.contains(a));
        assert(reordered.to_set().contains(a) <==> reordered.contains(a));
    }
    match outcome {
        Some(audience) => {
            assert forall|i: int|
                0 <= i < reordered.len() && covers(
                    #[trigger] reordered[i],
                    bucket,
                ) implies reordered[i].len() <= audience.len() by {
                assert(reordered.contains(reordered[i]));
                let j = choose|j: int| 0 <= j < audiences.len() && audiences[j] == reordered[i];
                assert(covers(audiences[j], bucket));
            }
        },
        None => {
            assert forall|i: int| 0 <= i < reordered.len() implies !covers(
                #[trigger] reordered[i],
                bucket,
            ) by {
                assert(reordered.contains(reordered[i]));
                let j = choose|j: int| 0 <= j < audiences.len() && audiences[j] == reordered[i];
                assert(!covers(audiences[j], bucket));
            }
        },
    }
}

} // verus!
