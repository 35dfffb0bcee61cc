//! The normalized offer entity, built from one raw Horizon record in a single
//! checked step.

use vstd::prelude::*;

use crate::asset::{asset_of_json, parse_asset_from_value, Asset, AssetModel, ParseError, ParseErrorModel};
use crate::horizon::HorizonOffer;
use crate::text::{
    account_address, is_account_address, is_digit, is_positive_decimal, parse_u64,
    positive_decimal, u64_of, unsigned_body,
};

verus! {

/// A UTC instant, as whole seconds and nanoseconds since the Unix epoch.
#[derive(Debug, Clone, Copy, PartialEq, Eq, Structural)]
pub struct Timestamp {
    pub unix_seconds: i64,
    pub nanos: u32,
}

/// An open order on the exchange, normalized and validated.
#[derive(Debug, Clone)]
pub struct Offer {
    pub id: u64,
    pub seller: String,
    pub selling: Asset,
    pub buying: Asset,
    pub amount: String,
    pub price_n: i32,
    pub price_d: i32,
    pub price: String,
    pub last_modified_ledger: u64,
    pub last_modified_time: Option<Timestamp>,
}

/// The mathematical value of an `Offer`.
pub struct OfferModel {
    pub id: u64,
    pub seller: Seq<char>,
    pub selling: AssetModel,
    pub buying: AssetModel,
    pub amount: Seq<char>,
    pub price_n: i32,
    pub price_d: i32,
    pub price: Seq<char>,
    pub last_modified_ledger: u64,
    pub last_modified_time: Option<Timestamp>,
}

impl View for Offer {
    type V = OfferModel;

    open spec fn view(&self) -> OfferModel {
        OfferModel {
            id: self.id,
            seller: self.seller@,
            selling: self.selling@,
            buying: self.buying@,
            amount: self.amount@,
            price_n: self.price_n,
            price_d: self.price_d,
            price: self.price@,
            last_modified_ledger: self.last_modified_ledger,
            last_modified_time: self.last_modified_time,
        }
    }
}

/// Why a raw record does not make a valid offer. Each text payload is the
/// offending raw value.
#[derive(Debug, Clone)]
pub enum OfferError {
    InvalidId(String),
    InvalidAsset(ParseError),
    InvalidSeller(String),
    InvalidAmount(String),
    InvalidPrice(String),
    ZeroDenominator,
    SameAsset,
}

/// The mathematical value of an `OfferError`.
pub enum OfferErrorModel {
    InvalidId(Seq<char>),
    InvalidAsset(ParseErrorModel),
    InvalidSeller(Seq<char>),
    InvalidAmount(Seq<char>),
    InvalidPrice(Seq<char>),
    ZeroDenominator,
    SameAsset,
}

impl View for OfferError {
    type V = OfferErrorModel;

    open spec fn view(&self) -> OfferErrorModel {
        match self {
            OfferError::InvalidId(s) => OfferErrorModel::InvalidId(s@),
            OfferError::InvalidAsset(e) => OfferErrorModel::InvalidAsset(e@),
            OfferError::InvalidSeller(s) => OfferErrorModel::InvalidSeller(s@),
            OfferError::InvalidAmount(s) => OfferErrorModel::InvalidAmount(s@),
            OfferError::InvalidPrice(s) => OfferErrorModel::InvalidPrice(s@),
            OfferError::ZeroDenominator => OfferErrorModel::ZeroDenominator,
            OfferError::SameAsset => OfferErrorModel::SameAsset,
        }
    }
}

/// The first invariant that `o` breaks, checked in this order: seller shape,
/// positive amount, positive price, non-zero denominator, distinct assets.
pub open spec fn offer_violation(o: OfferModel) -> Option<OfferErrorModel> {
    if !is_account_address(o.seller) {
        Some(OfferErrorModel::InvalidSeller(o.seller))
    } else if !is_positive_decimal(o.amount) {
        Some(OfferErrorModel::InvalidAmount(o.amount))
    } else if !is_positive_decimal(o.price) {
        Some(OfferErrorModel::InvalidPrice(o.price))
    } else if o.price_d == 0 {
        Some(OfferErrorModel::ZeroDenominator)
    } else if o.selling == o.buying {
        Some(OfferErrorModel::SameAsset)
    } else {
        None
    }
}

/// The view of a validation result.
pub open spec fn check_view(r: Result<(), OfferError>) -> Option<OfferErrorModel> {
    match r {
        Ok(_) => None,
        Err(e) => Some(e@),
    }
}

/// The view of a construction result.
pub open spec fn offer_result_view(r: Result<Offer, OfferError>) -> Result<OfferModel, OfferErrorModel> {
    match r {
        Ok(o) => Ok(o@),
        Err(e) => Err(e@),
    }
}

/// The price ratio of a record: its `price_r` components truncated to 32 bits,
/// or `0/1` when the record carries none. Horizon's ratios are small integers
/// in practice; whether an out-of-range component should instead fail
/// construction or saturate is left open, and truncation is kept meanwhile.
pub open spec fn ratio_of(r: HorizonOffer) -> (i32, i32) {
    match r.price_r {
        Some(p) => (p.n as i32, p.d as i32),
        None => (0, 1),
    }
}

/// The offer assembled from a record whose id and assets have been read,
/// before the invariants are checked.
pub open spec fn candidate_of(
    r: HorizonOffer,
    id: u64,
    selling: AssetModel,
    buying: AssetModel,
) -> OfferModel {
    OfferModel {
        id,
        seller: r.seller@,
        selling,
        buying,
        amount: r.amount@,
        price_n: ratio_of(r).0,
        price_d: ratio_of(r).1,
        price: r.price@,
        last_modified_ledger: r.last_modified_ledger as u64,
        last_modified_time: None,
    }
}

/// The offer that a raw record makes, or the first reason it makes none: an
/// id that is no `u64`, then an unreadable selling or buying asset, then the
/// first broken invariant of the assembled offer.
pub open spec fn offer_of_record(r: HorizonOffer) -> Result<OfferModel, OfferErrorModel> {
    match u64_of(r.id@) {
        None => Err(OfferErrorModel::InvalidId(r.id@)),
        Some(id) => match asset_of_json(r.selling) {
            Err(e) => Err(OfferErrorModel::InvalidAsset(e)),
            Ok(selling) => match asset_of_json(r.buying) {
                Err(e) => Err(OfferErrorModel::InvalidAsset(e)),
                Ok(buying) => {
                    let o = candidate_of(r, id, selling, buying);
                    match offer_violation(o) {
                        Some(e) => Err(e),
                        None => Ok(o),
                    }
                },
            },
        },
    }
}

impl Offer {
    /// Checks the offer's invariants and reports the first one broken.
    pub fn validate(&self) -> (r: Result<(), OfferError>)
        ensures
            check_view(r) == offer_violation(self@),
    {
        if !account_address(self.seller.as_str()) {
            return Err(OfferError::InvalidSeller(self.seller.clone()));
        }
        if !positive_decimal(self.amount.as_str()) {
            return Err(OfferError::InvalidAmount(self.amount.clone()));
        }
        if !positive_decimal(self.price.as_str()) {
            return Err(OfferError::InvalidPrice(self.price.clone()));
        }
        if self.price_d == 0 {
            return Err(OfferError::ZeroDenominator);
        }
        if self.selling == self.buying {
            return Err(OfferError::SameAsset);
        }
        Ok(())
    }

    /// Builds and validates the offer that one raw record describes.
    pub fn from_raw(record: HorizonOffer) -> (r: Result<Offer, OfferError>)
        ensures
            offer_result_view(r) == offer_of_record(record),
    {
        let id = match parse_u64(record.id.as_str()) {
            Some(id) => id,
            None => return Err(OfferError::InvalidId(record.id)),
        };
        let selling = match parse_asset_from_value(&record.selling) {
            Ok(a) => a,
            Err(e) => return Err(OfferError::InvalidAsset(e)),
        };
        let buying = match parse_asset_from_value(&record.buying) {
            Ok(a) => a,
            Err(e) => return Err(OfferError::InvalidAsset(e)),
        };
        let (price_n, price_d) = match &record.price_r {
            Some(p) => (p.n as i32, p.d as i32),
            None => (0i32, 1i32),
        };
        let ghost rec = record;
        let offer = Offer {
            id,
            seller: record.seller,
            selling,
            buying,
            amount: record.amount,
            price_n,
            price_d,
            price: record.price,
            last_modified_ledger: record.last_modified_ledger as u64,
            last_modified_time: None,
        };
        assert(offer@ == candidate_of(rec, id, selling@, buying@));
        match offer.validate() {
            Ok(()) => Ok(offer),
            Err(e) => Err(e),
        }
    }
}

impl TryFrom<HorizonOffer> for Offer {
    type Error = OfferError;

    /// Builds and validates the offer that one raw record describes, as
    /// `Offer::from_raw` does.
    fn try_from(record: HorizonOffer) -> (r: Result<Offer, OfferError>)
        ensures
            offer_result_view(r) == offer_of_record(record),
    {
        Offer::from_raw(record)
    }
}

impl vstd::std_specs::convert::TryFromSpecImpl<HorizonOffer> for Offer {
    open spec fn obeys_try_from_spec() -> bool {
        false
    }

    open spec fn try_from_spec(record: HorizonOffer) -> Result<Offer, OfferError> {
        arbitrary()
    }
}

/// A record whose id is empty or holds a character that is neither a digit nor
/// a sign makes no offer: construction fails with `InvalidId` carrying the id.
pub proof fn lemma_non_numeric_id(r: HorizonOffer)
    requires
        r.id@.len() == 0 || exists|i: int|
            0 <= i < r.id@.len() && !is_digit(#[trigger] r.id@[i]) && r.id@[i] != '+',
    ensures
        offer_of_record(r) == Err::<OfferModel, OfferErrorModel>(
            OfferErrorModel::InvalidId(r.id@),
        ),
{
    let s = r.id@;
    let d = unsigned_body(s);
    if s.len() > 0 {
        let i = choose|i: int| 0 <= i < s.len() && !is_digit(#[trigger] s[i]) && s[i] != '+';
        if s[0] == '+' {
            assert(d[i - 1] == s[i]);
            assert(!is_digit(d[i - 1]));
        } else {
            assert(d[i] == s[i]);
            assert(!is_digit(d[i]));
        }
    }
    assert(u64_of(s) is None);
}

/// A record whose selling and buying objects denote the same asset makes no
/// offer, even when every other field is valid: construction fails with
/// `SameAsset`.
pub proof fn lemma_same_asset(r: HorizonOffer)
    requires
        u64_of(r.id@) is Some,
        asset_of_json(r.selling) is Ok,
        asset_of_json(r.selling) == asset_of_json(r.buying),
        is_account_address(r.seller@),
        is_positive_decimal(r.amount@),
        is_positive_decimal(r.price@),
        ratio_of(r).1 != 0,
    ensures
        offer_of_record(r) == Err::<OfferModel, OfferErrorModel>(OfferErrorModel::SameAsset),
{
}

/// Construction is a function of the record alone: equal records give equal
/// results, an accepted offer carries no modification time, and it satisfies
/// every invariant that `validate` checks.
pub proof fn lemma_from_raw_deterministic(r1: HorizonOffer, r2: HorizonOffer)
    requires
        r1 == r2,
    ensures
        offer_of_record(r1) == offer_of_record(r2),
        offer_of_record(r1) matches Ok(o) ==> o.last_modified_time is None && offer_violation(
            o,
        ) is None,
{
}

} // verus!
