use vstd::prelude::*;

use crate::error::UpdateError;
use crate::state::{market_inv, MarketState, MarketView, UpdateRequestView, DESCRIPTION_MAX_LEN,
    NAME_MAX_LEN};
use crate::update::{gate_error, is_past_end_date, update_transition};
use crate::utils::puffed_out;

verus! {

/// On a market that is not suspended, every request fails with
/// `MarketInInvalidState` and the record is unchanged.
pub proof fn lemma_non_suspended_rejected(m: MarketView, now: u64, r: UpdateRequestView)
    requires
        m.state != MarketState::Suspended,
    ensures
        update_transition(m, now, r) == (m, Err::<(), UpdateError>(UpdateError::MarketInInvalidState)),
{
}

/// On a suspended market whose end date lies strictly before `now`, every
/// request fails with `MarketIsEnded` and the record is unchanged, whatever
/// its `mutable` flag says.
pub proof fn lemma_past_end_date_rejected(m: MarketView, now: u64, r: UpdateRequestView)
    requires
        m.state == MarketState::Suspended,
        m.end_date is Some,
        now > m.end_date->0,
    ensures
        update_transition(m, now, r) == (m, Err::<(), UpdateError>(UpdateError::MarketIsEnded)),
{
}

/// On a suspended, not-yet-ended market whose `mutable` flag is false, every
/// request fails with `MarketIsImmutable` and the record is unchanged.
pub proof fn lemma_immutable_rejected(m: MarketView, now: u64, r: UpdateRequestView)
    requires
        m.state == MarketState::Suspended,
        !is_past_end_date(m, now),
        !m.mutable,
    ensures
        update_transition(m, now, r) == (m, Err::<(), UpdateError>(UpdateError::MarketIsImmutable)),
{
}

/// On a market that clears all three preconditions, a request whose price is zero fails with
/// `PriceIsZero` and leaves the stored price unchanged — provided its name and
/// description fields, where present, are within bounds, since those are
/// checked first and would otherwise decide the error.
pub proof fn lemma_zero_price_rejected(m: MarketView, now: u64, r: UpdateRequestView)
    requires
        gate_error(m, now) is None,
        r.new_name is Some ==> r.new_name->0.len() <= NAME_MAX_LEN as nat,
        r.new_description is Some ==> r.new_description->0.len() <= DESCRIPTION_MAX_LEN as nat,
        r.new_price == Some(0u64),
    ensures
        update_transition(m, now, r).1 == Err::<(), UpdateError>(UpdateError::PriceIsZero),
        update_transition(m, now, r).0.price == m.price,
{
}

/// On a market that clears all three preconditions, a request whose name is longer than
/// `NAME_MAX_LEN` fails with `NameIsTooLong` and the record is unchanged.
pub proof fn lemma_long_name_rejected(m: MarketView, now: u64, r: UpdateRequestView)
    requires
        gate_error(m, now) is None,
        r.new_name is Some,
        r.new_name->0.len() > NAME_MAX_LEN as nat,
    ensures
        update_transition(m, now, r) == (m, Err::<(), UpdateError>(UpdateError::NameIsTooLong)),
{
}

/// On a market that clears all three preconditions, a request whose name is within bounds
/// writes the name padded to exactly `NAME_MAX_LEN` characters, whatever
/// happens to the fields checked after it.
pub proof fn lemma_name_padded_to_capacity(m: MarketView, now: u64, r: UpdateRequestView)
    requires
        gate_error(m, now) is None,
        r.new_name is Some,
        r.new_name->0.len() <= NAME_MAX_LEN as nat,
    ensures
        update_transition(m, now, r).0.name == puffed_out(r.new_name->0, NAME_MAX_LEN as nat),
        update_transition(m, now, r).0.name.len() == NAME_MAX_LEN as nat,
{
}

/// Idempotence: after a successful update, applying the same request at the
/// same time leaves the record exactly as it stands — and succeeds again,
/// unless the first call itself turned the `mutable` latch off.
pub proof fn lemma_update_idempotent(m: MarketView, now: u64, r: UpdateRequestView)
    requires
        update_transition(m, now, r).1 is Ok,
    ensures
        update_transition(update_transition(m, now, r).0, now, r).0 == update_transition(
            m,
            now,
            r,
        ).0,
        r.mutable_flag != Some(false) ==> update_transition(
            update_transition(m, now, r).0,
            now,
            r,
        ).1 is Ok,
{
    let m1 = update_transition(m, now, r).0;
    assert(update_transition(m1, now, r).0 =~= m1);
}

/// A request with every field absent succeeds on a market that clears all
/// three preconditions, and leaves every field unchanged.
pub proof fn lemma_empty_request_no_change(m: MarketView, now: u64, r: UpdateRequestView)
    requires
        gate_error(m, now) is None,
        r.new_name is None,
        r.new_description is None,
        r.mutable_flag is None,
        r.new_price is None,
        r.pieces_mode is None,
    ensures
        update_transition(m, now, r) == (m, Ok::<(), UpdateError>(())),
{
}

/// Every update — successful or not — preserves the record invariant: the
/// price stays positive and both text fields stay within their capacities.
pub proof fn lemma_update_preserves_invariant(m: MarketView, now: u64, r: UpdateRequestView)
    requires
        market_inv(m),
    ensures
        market_inv(update_transition(m, now, r).0),
{
}

} // verus!
