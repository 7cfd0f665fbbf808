use vstd::prelude::*;

verus! {

/// Capacity of a market's name field, in characters. A stored name is padded
/// to exactly this length; a requested name longer than this is rejected.
pub const NAME_MAX_LEN: usize = 40;

/// Capacity of a market's description field, in characters, with the same
/// discipline as the name.
pub const DESCRIPTION_MAX_LEN: usize = 60;

/// Lifecycle states of a market. Only `Suspended` permits configuration
/// updates; the transitions between states are driven elsewhere.
#[derive(Clone, Copy, Debug, PartialEq, Eq, Structural)]
pub enum MarketState {
    Created,
    Active,
    Suspended,
    Ended,
}

/// Per-wallet purchase cap carried by an update request: either a cap of the
/// given number of units, or no cap at all.
#[derive(Clone, Copy, Debug, PartialEq, Eq, Structural)]
pub enum PiecesMode {
    Limited(u64),
    Unlimited,
}

/// The persisted market record. A pure data holder: all mutation goes through
/// the update processor, which maintains the record's invariants.
#[derive(Clone, Debug)]
pub struct Market {
    /// Current lifecycle state.
    pub state: MarketState,
    /// Optional end timestamp in seconds; once the current time passes it,
    /// the market is permanently frozen.
    pub end_date: Option<u64>,
    /// Whether configuration updates are still permitted.
    pub mutable: bool,
    /// Display name, padded to `NAME_MAX_LEN` characters when written here.
    pub name: String,
    /// Description, padded to `DESCRIPTION_MAX_LEN` characters when written here.
    pub description: String,
    /// Price in the smallest currency unit; never zero.
    pub price: u64,
    /// Optional cap on units one buyer may hold; `None` means unlimited.
    pub pieces_in_one_wallet: Option<u64>,
}

/// Mathematical model of a market record: the text fields as character
/// sequences, everything else as plain values.
#[verifier::ext_equal]
pub struct MarketView {
    pub state: MarketState,
    pub end_date: Option<u64>,
    pub mutable: bool,
    pub name: Seq<char>,
    pub description: Seq<char>,
    pub price: u64,
    pub pieces_in_one_wallet: Option<u64>,
}

impl View for Market {
    type V = MarketView;

    open spec fn view(&self) -> MarketView {
        MarketView {
            state: self.state,
            end_date: self.end_date,
            mutable: self.mutable,
            name: self.name@,
            description: self.description@,
            price: self.price,
            pieces_in_one_wallet: self.pieces_in_one_wallet,
        }
    }
}

/// The record invariant: the price is positive and both text fields fit
/// their capacities. Holds after every successful update.
pub open spec fn market_inv(m: MarketView) -> bool {
    &&& m.price > 0
    &&& m.name.len() <= NAME_MAX_LEN as nat
    &&& m.description.len() <= DESCRIPTION_MAX_LEN as nat
}

/// A proposed configuration change. Each field is either absent (keep the
/// prior value) or present (validate, then apply).
#[derive(Clone, Debug)]
pub struct UpdateRequest {
    /// Replacement name, checked against `NAME_MAX_LEN`.
    pub new_name: Option<String>,
    /// Replacement description, checked against `DESCRIPTION_MAX_LEN`.
    pub new_description: Option<String>,
    /// Replacement for the `mutable` flag, stored unconditionally.
    pub mutable_flag: Option<bool>,
    /// Replacement price, rejected when zero.
    pub new_price: Option<u64>,
    /// Replacement per-wallet cap.
    pub pieces_mode: Option<PiecesMode>,
}

/// Mathematical model of an update request.
#[verifier::ext_equal]
pub struct UpdateRequestView {
    pub new_name: Option<Seq<char>>,
    pub new_description: Option<Seq<char>>,
    pub mutable_flag: Option<bool>,
    pub new_price: Option<u64>,
    pub pieces_mode: Option<PiecesMode>,
}

impl View for UpdateRequest {
    type V = UpdateRequestView;

    open spec fn view(&self) -> UpdateRequestView {
        UpdateRequestView {
            new_name: match self.new_name {
                Some(s) => Some(s@),
                None => None,
            },
            new_description: match self.new_description {
                Some(s) => Some(s@),
                None => None,
            },
            mutable_flag: self.mutable_flag,
            new_price: self.new_price,
            pieces_mode: self.pieces_mode,
        }
    }
}

} // verus!
