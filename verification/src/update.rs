use vstd::prelude::*;
use vstd::string::StrSliceExecFns;

use crate::error::UpdateError;
use crate::state::{
    Market, MarketState, MarketView, PiecesMode, UpdateRequest, UpdateRequestView,
    DESCRIPTION_MAX_LEN, NAME_MAX_LEN,
};
use crate::utils::{puffed_out, puffed_out_string};

verus! {

/// The market has an end date and `now` is strictly past it.
pub open spec fn is_past_end_date(m: MarketView, now: u64) -> bool {
    m.end_date is Some && now > m.end_date->0
}

/// The precondition gate, evaluated before any field is touched. The order
/// matters: each check maps to a distinct externally visible error, and the
/// first failing check wins.
pub open spec fn gate_error(m: MarketView, now: u64) -> Option<UpdateError> {
    if m.state != MarketState::Suspended {
        Some(UpdateError::MarketInInvalidState)
    } else if is_past_end_date(m, now) {
        Some(UpdateError::MarketIsEnded)
    } else if !m.mutable {
        Some(UpdateError::MarketIsImmutable)
    } else {
        None
    }
}

/// `m` with its name replaced by the padded new name, when one is present.
pub open spec fn with_name(m: MarketView, new_name: Option<Seq<char>>) -> MarketView {
    match new_name {
        Some(n) => MarketView { name: puffed_out(n, NAME_MAX_LEN as nat), ..m },
        None => m,
    }
}

/// `m` with its description replaced by the padded new description, when one
/// is present.
pub open spec fn with_description(m: MarketView, new_description: Option<Seq<char>>) -> MarketView {
    match new_description {
        Some(d) => MarketView { description: puffed_out(d, DESCRIPTION_MAX_LEN as nat), ..m },
        None => m,
    }
}

/// `m` with its mutability flag replaced, when a new one is present.
pub open spec fn with_mutable(m: MarketView, mutable_flag: Option<bool>) -> MarketView {
    match mutable_flag {
        Some(b) => MarketView { mutable: b, ..m },
        None => m,
    }
}

/// `m` with its price replaced, when a new one is present.
pub open spec fn with_price(m: MarketView, new_price: Option<u64>) -> MarketView {
    match new_price {
        Some(p) => MarketView { price: p, ..m },
        None => m,
    }
}

/// `m` with its per-wallet cap replaced, when a pieces mode is present:
/// `Limited(v)` stores `Some(v)`, `Unlimited` stores `None`.
pub open spec fn with_pieces(m: MarketView, pieces_mode: Option<PiecesMode>) -> MarketView {
    match pieces_mode {
        Some(PiecesMode::Limited(v)) => MarketView { pieces_in_one_wallet: Some(v), ..m },
        Some(PiecesMode::Unlimited) => MarketView { pieces_in_one_wallet: None, ..m },
        None => m,
    }
}

/// The complete update transition: the record as it stands after the call,
/// paired with the call's result.
///
/// Present fields are checked and written in the fixed order name →
/// description → mutable → price → pieces. Each field is validated just
/// before it is written and the first failure ends the call, so a failure at
/// a later field keeps the writes already made for earlier fields.
pub open spec fn update_transition(m: MarketView, now: u64, r: UpdateRequestView) -> (
    MarketView,
    Result<(), UpdateError>,
) {
    if gate_error(m, now) is Some {
        (m, Err(gate_error(m, now)->0))
    } else if r.new_name is Some && r.new_name->0.len() > NAME_MAX_LEN as nat {
        (m, Err(UpdateError::NameIsTooLong))
    } else {
        let m1 = with_name(m, r.new_name);
        if r.new_description is Some && r.new_description->0.len() > DESCRIPTION_MAX_LEN as nat {
            (m1, Err(UpdateError::DescriptionIsTooLong))
        } else {
            let m2 = with_mutable(with_description(m1, r.new_description), r.mutable_flag);
            if r.new_price is Some && r.new_price->0 == 0 {
                (m2, Err(UpdateError::PriceIsZero))
            } else {
                (with_pieces(with_price(m2, r.new_price), r.pieces_mode), Ok(()))
            }
        }
    }
}

/// Validates `request` against `record` at time `now` and applies the present
/// fields, exactly as `update_transition` describes: the final record and the
/// returned result are the two components of that transition.
pub fn apply_update(record: &mut Market, now: u64, request: UpdateRequest) -> (result: Result<
    (),
    UpdateError,
>)
    ensures
        final(record)@ == update_transition(old(record)@, now, request@).0,
        result == update_transition(old(record)@, now, request@).1,
{
    if record.state != MarketState::Suspended {
        return Err(UpdateError::MarketInInvalidState);
    }

    if let Some(end_date) = record.end_date {
        if now > end_date {
            return Err(UpdateError::MarketIsEnded);
        }
    }

    if !record.mutable {
        return Err(UpdateError::MarketIsImmutable);
    }

    let UpdateRequest { new_name, new_description, mutable_flag, new_price, pieces_mode } =
        request;

    if let Some(new_name) = new_name {
        if new_name.as_str().unicode_len() > NAME_MAX_LEN {
            return Err(UpdateError::NameIsTooLong);
        }
        record.name = puffed_out_string(new_name.as_str(), NAME_MAX_LEN);
    }

    if let Some(new_description) = new_description {
        if new_description.as_str().unicode_len() > DESCRIPTION_MAX_LEN {
            return Err(UpdateError::DescriptionIsTooLong);
        }
        record.description = puffed_out_string(new_description.as_str(), DESCRIPTION_MAX_LEN);
    }

    if let Some(mutable_flag) = mutable_flag {
        record.mutable = mutable_flag;
    }

    if let Some(new_price) = new_price {
        if new_price == 0 {
            return Err(UpdateError::PriceIsZero);
        }
        record.price = new_price;
    }

    if let Some(pieces_mode) = pieces_mode {
        match pieces_mode {
            PiecesMode::Limited(value) => {
                record.pieces_in_one_wallet = Some(value);
            },
            PiecesMode::Unlimited => {
                record.pieces_in_one_wallet = None;
            },
        }
    }

    Ok(())
}

} // verus!
