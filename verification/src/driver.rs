//! The driver ledger: pure aggregation of trip closings.
//!
//! The two `record_*` functions are invoked only as the side effect of a
//! closing transition of the trip state machine, never independently. The
//! rolling average rating is derived from the exact sum of the submitted
//! ratings, so it equals the arithmetic mean of those ratings whatever
//! order the trips close in.

use vstd::prelude::*;
use crate::errors::DriverTripRewardError;
use crate::keys::Pubkey;
use crate::state::{sat_add_u64, DriverAccount};

verus! {

/// Why `initialize_driver` would be refused, `None` when it succeeds.
pub open spec fn initialize_driver_check(driver: DriverAccount) -> Option<
    DriverTripRewardError,
> {
    if !driver.driver_pubkey.is_zero() {
        Some(DriverTripRewardError::DriverAlreadyExists)
    } else {
        None
    }
}

/// The fresh driver record that `initialize_driver` writes.
pub open spec fn initialized_driver(driver_pubkey: Pubkey, bump: u8) -> DriverAccount {
    DriverAccount {
        driver_pubkey,
        is_active: true,
        bump,
        ..DriverAccount::spec_zeroed()
    }
}

/// Creates the ledger of a new driver identity in a fresh record slot.
/// Fails, touching nothing, when the slot already holds an identity.
pub fn initialize_driver(driver: &mut DriverAccount, driver_pubkey: Pubkey, bump: u8) -> (r:
    Result<(), DriverTripRewardError>)
    ensures
        r is Ok <==> initialize_driver_check(*old(driver)) is None,
        r matches Err(e) ==> Some(e) == initialize_driver_check(*old(driver)) && *final(driver)
            == *old(driver),
        r is Ok ==> *final(driver) == initialized_driver(driver_pubkey, bump),
        r is Ok ==> final(driver).wf(),
{
    if !(driver.driver_pubkey == Pubkey::zero()) {
        return Err(DriverTripRewardError::DriverAlreadyExists);
    }
    *driver = DriverAccount::zeroed();
    driver.driver_pubkey = driver_pubkey;
    driver.is_active = true;
    driver.bump = bump;
    Ok(())
}

/// The driver ledger after one trip closed through the completion path:
/// the trip count, the exact rating sum and the derived mean grow, and the
/// big lifetime counters grow saturating.
pub open spec fn driver_after_completed_trip(
    d: DriverAccount,
    fare: u64,
    distance: u64,
    duration: u64,
    rating_centi: u32,
    end_time: i64,
) -> DriverAccount {
    let trips = (d.total_trips + 1) as u32;
    let sum = (d.rating_sum_centi + rating_centi) as u64;
    DriverAccount {
        total_trips: trips,
        total_earnings: sat_add_u64(d.total_earnings, fare),
        total_distance: sat_add_u64(d.total_distance, distance),
        total_time: sat_add_u64(d.total_time, duration),
        rating_sum_centi: sum,
        rating_centi: (sum as int / trips as int) as u32,
        last_trip_time: end_time,
        ..d
    }
}

/// The driver ledger after one trip closed through the verification path:
/// as after a completion, and additionally the completed-trip count, the
/// score sum and the derived average score grow.
pub open spec fn driver_after_verified_trip(
    d: DriverAccount,
    fare: u64,
    distance: u64,
    duration: u64,
    rating_centi: u32,
    score: u32,
    end_time: i64,
) -> DriverAccount {
    let completed = (d.completed_trips + 1) as u32;
    let total_score = (d.total_score + score) as u64;
    DriverAccount {
        completed_trips: completed,
        total_score,
        avg_score_centi: ((total_score as int) * 100 / (completed as int)) as u64,
        ..driver_after_completed_trip(d, fare, distance, duration, rating_centi, end_time)
    }
}

/// Applies a trip closed through the completion path to the ledger.
pub fn record_completed_trip(
    d: &mut DriverAccount,
    fare: u64,
    distance: u64,
    duration: u64,
    rating_centi: u32,
    end_time: i64,
)
    requires
        old(d).wf(),
        old(d).total_trips < u32::MAX,
        rating_centi <= 500,
    ensures
        *final(d) == driver_after_completed_trip(
            *old(d),
            fare,
            distance,
            duration,
            rating_centi,
            end_time,
        ),
        final(d).wf(),
{
    proof {
        assert(old(d).rating_sum_centi + rating_centi <= 500 * (old(d).total_trips + 1));
    }
    d.total_trips = d.total_trips + 1;
    d.total_earnings = d.total_earnings.saturating_add(fare);
    d.total_distance = d.total_distance.saturating_add(distance);
    d.total_time = d.total_time.saturating_add(duration);
    d.rating_sum_centi = d.rating_sum_centi + rating_centi as u64;
    let mean = d.rating_sum_centi / d.total_trips as u64;
    proof {
        assert(d.rating_sum_centi / (d.total_trips as u64) <= 500) by (nonlinear_arith)
            requires
                d.rating_sum_centi <= 500 * d.total_trips,
                d.total_trips >= 1,
        ;
    }
    d.rating_centi = mean as u32;
    d.last_trip_time = end_time;
}

/// Applies a trip closed through the verification path to the ledger.
pub fn record_verified_trip(
    d: &mut DriverAccount,
    fare: u64,
    distance: u64,
    duration: u64,
    rating_centi: u32,
    score: u32,
    end_time: i64,
)
    requires
        old(d).wf(),
        old(d).total_trips < u32::MAX,
        rating_centi <= 500,
        score <= 100,
    ensures
        *final(d) == driver_after_verified_trip(
            *old(d),
            fare,
            distance,
            duration,
            rating_centi,
            score,
            end_time,
        ),
        final(d).wf(),
{
    record_completed_trip(d, fare, distance, duration, rating_centi, end_time);
    proof {
        assert(d.total_score + score <= 100 * (d.completed_trips + 1));
    }
    d.completed_trips = d.completed_trips + 1;
    d.total_score = d.total_score + score as u64;
    let avg = d.total_score * 100 / d.completed_trips as u64;
    d.avg_score_centi = avg;
}

/// One closed trip, as the driver ledger sees it: the values the closing
/// transition hands to the ledger, and through which path it closed.
#[derive(Clone, Copy, Debug, PartialEq, Eq, Structural)]
pub struct TripClosing {
    pub fare: u64,
    pub distance: u64,
    pub duration: u64,
    pub rating_centi: u32,
    pub score: u32,
    pub end_time: i64,
    pub verified: bool,
}

/// Whether a closing carries an in-range rating and score.
pub open spec fn closing_ok(c: TripClosing) -> bool {
    c.rating_centi <= 500 && c.score <= 100
}

/// The ledger after one closing, by the path the closing took.
pub open spec fn apply_closing(d: DriverAccount, c: TripClosing) -> DriverAccount {
    if c.verified {
        driver_after_verified_trip(d, c.fare, c.distance, c.duration, c.rating_centi, c.score,
            c.end_time)
    } else {
        driver_after_completed_trip(d, c.fare, c.distance, c.duration, c.rating_centi, c.end_time)
    }
}

/// The ledger after a whole sequence of closings, applied left to right.
pub open spec fn apply_closings(d: DriverAccount, cs: Seq<TripClosing>) -> DriverAccount
    decreases cs.len(),
{
    if cs.len() == 0 {
        d
    } else {
        apply_closing(apply_closings(d, cs.drop_last()), cs.last())
    }
}

/// The ratings a sequence of closings submits, in order.
pub open spec fn ratings_of(cs: Seq<TripClosing>) -> Seq<u32> {
    cs.map_values(|c: TripClosing| c.rating_centi)
}

/// The exact sum of a sequence of ratings.
pub open spec fn rating_total(rs: Seq<u32>) -> int
    decreases rs.len(),
{
    if rs.len() == 0 {
        0
    } else {
        rating_total(rs.drop_last()) + rs.last()
    }
}

/// One closing moves the ledger as the record functions do: the trip count
/// grows by one, the rating sum by exactly the submitted rating, and the
/// invariant is preserved.
pub proof fn lemma_apply_closing(d: DriverAccount, c: TripClosing)
    requires
        d.wf(),
        d.total_trips < u32::MAX,
        closing_ok(c),
    ensures
        apply_closing(d, c).wf(),
        apply_closing(d, c).total_trips == d.total_trips + 1,
        apply_closing(d, c).rating_sum_centi == d.rating_sum_centi + c.rating_centi,
{
    let sum = d.rating_sum_centi + c.rating_centi;
    let trips = d.total_trips + 1;
    assert(sum <= 500 * trips);
    assert(0 <= sum / trips <= 500) by (nonlinear_arith)
        requires
            0 <= sum <= 500 * trips,
            trips >= 1,
    ;
    if c.verified {
        let total_score = d.total_score + c.score;
        let completed = d.completed_trips + 1;
        assert(total_score <= 100 * completed);
        assert(0 <= total_score * 100 / completed <= 10000) by (nonlinear_arith)
            requires
                0 <= total_score <= 100 * completed,
                completed >= 1,
        ;
    }
}

/// Removing one rating takes exactly that rating out of the sum.
pub proof fn lemma_rating_total_remove(rs: Seq<u32>, i: int)
    requires
        0 <= i < rs.len(),
    ensures
        rating_total(rs) == rating_total(rs.remove(i)) + rs[i],
    decreases rs.len(),
{
    if i == rs.len() - 1 {
        assert(rs.remove(i) =~= rs.drop_last());
    } else {
        assert(rs.remove(i).drop_last() =~= rs.drop_last().remove(i));
        lemma_rating_total_remove(rs.drop_last(), i);
    }
}

/// Two sequences of ratings that are rearrangements of each other have the
/// same sum.
pub proof fn lemma_rating_total_permutation(r1: Seq<u32>, r2: Seq<u32>)
    requires
        r1.to_multiset() == r2.to_multiset(),
    ensures
        rating_total(r1) == rating_total(r2),
    decreases r1.len(),
{
    broadcast use vstd::seq_lib::group_to_multiset_ensures;

    assert(r1.to_multiset().len() == r1.len());
    assert(r2.to_multiset().len() == r2.len());
    if r1.len() == 0 {
        assert(r2.len() == 0);
    } else {
        let a = r1.last();
        assert(r1.to_multiset().count(a) > 0) by {
            assert(r1.contains(a));
        };
        assert(r2.contains(a));
        let i = choose|i: int| 0 <= i < r2.len() && r2[i] == a;
        assert(r1.drop_last() =~= r1.remove(r1.len() - 1));
        assert(r1.drop_last().to_multiset() == r1.to_multiset().remove(a));
        assert(r2.remove(i).to_multiset() == r2.to_multiset().remove(a));
        lemma_rating_total_permutation(r1.drop_last(), r2.remove(i));
        lemma_rating_total_remove(r2, i);
    }
}

/// A sequence of closings accumulates exactly: the trip count grows by the
/// number of closings, the rating sum by the exact sum of the submitted
/// ratings, and the ledger invariant holds throughout.
pub proof fn lemma_closings_accumulate(d: DriverAccount, cs: Seq<TripClosing>)
    requires
        d.wf(),
        d.total_trips + cs.len() <= u32::MAX,
        forall|i: int| 0 <= i < cs.len() ==> closing_ok(#[trigger] cs[i]),
    ensures
        apply_closings(d, cs).wf(),
        apply_closings(d, cs).total_trips == d.total_trips + cs.len(),
        apply_closings(d, cs).rating_sum_centi == d.rating_sum_centi + rating_total(ratings_of(cs)),
    decreases cs.len(),
{
    if cs.len() == 0 {
        assert(ratings_of(cs).len() == 0);
    } else {
        let init = cs.drop_last();
        lemma_closings_accumulate(d, init);
        lemma_apply_closing(apply_closings(d, init), cs.last());
        assert(ratings_of(init) =~= ratings_of(cs).drop_last());
        assert(ratings_of(cs).last() == cs.last().rating_centi);
    }
}

/// The rolling average rating after any run of closed trips is the
/// arithmetic mean of the submitted ratings — the truncated quotient of
/// their exact sum by their count — independent of the order the trips
/// close in: two runs that submit the same ratings, however arranged and
/// through whichever closing paths, leave the same average on a fresh
/// ledger.
pub proof fn lemma_rating_mean_order_independent(
    d: DriverAccount,
    cs1: Seq<TripClosing>,
    cs2: Seq<TripClosing>,
)
    requires
        d.wf(),
        d.total_trips == 0,
        d.rating_sum_centi == 0,
        cs1.len() <= u32::MAX,
        forall|i: int| 0 <= i < cs1.len() ==> closing_ok(#[trigger] cs1[i]),
        forall|i: int| 0 <= i < cs2.len() ==> closing_ok(#[trigger] cs2[i]),
        ratings_of(cs1).to_multiset() == ratings_of(cs2).to_multiset(),
    ensures
        apply_closings(d, cs1).rating_sum_centi == rating_total(ratings_of(cs1)),
        apply_closings(d, cs1).total_trips == cs1.len(),
        cs1.len() > 0 ==> apply_closings(d, cs1).rating_centi == rating_total(ratings_of(cs1))
            / cs1.len() as int,
        apply_closings(d, cs2).rating_centi == apply_closings(d, cs1).rating_centi,
{
    broadcast use vstd::seq_lib::group_to_multiset_ensures;

    assert(ratings_of(cs1).len() == cs1.len());
    assert(ratings_of(cs2).len() == cs2.len());
    assert(ratings_of(cs1).to_multiset().len() == ratings_of(cs1).len());
    assert(ratings_of(cs2).to_multiset().len() == ratings_of(cs2).len());
    assert(cs2.len() == cs1.len());
    lemma_closings_accumulate(d, cs1);
    lemma_closings_accumulate(d, cs2);
    lemma_rating_total_permutation(ratings_of(cs1), ratings_of(cs2));
}

} // verus!
