//! The closed asset union, its identity key, and the parser that reads it
//! from Horizon's polymorphic JSON encoding.

use vstd::prelude::*;

use crate::json::{json_str_members, member, str_member};
use crate::text::str_eq;

verus! {

/// A ledger asset: the native currency, or a credit issued by an account under
/// a code of up to 4 or up to 12 characters.
#[derive(Debug, Clone, Hash)]
pub enum Asset {
    Native,
    CreditAlphanum4 { asset_code: String, asset_issuer: String },
    CreditAlphanum12 { asset_code: String, asset_issuer: String },
}

/// The mathematical value of an `Asset`.
pub enum AssetModel {
    Native,
    CreditAlphanum4 { code: Seq<char>, issuer: Seq<char> },
    CreditAlphanum12 { code: Seq<char>, issuer: Seq<char> },
}

impl View for Asset {
    type V = AssetModel;

    open spec fn view(&self) -> AssetModel {
        match self {
            Asset::Native => AssetModel::Native,
            Asset::CreditAlphanum4 { asset_code, asset_issuer } => AssetModel::CreditAlphanum4 {
                code: asset_code@,
                issuer: asset_issuer@,
            },
            Asset::CreditAlphanum12 { asset_code, asset_issuer } => AssetModel::CreditAlphanum12 {
                code: asset_code@,
                issuer: asset_issuer@,
            },
        }
    }
}

impl PartialEq for Asset {
    /// Two assets are equal when their variants and all payload fields match.
    fn eq(&self, other: &Asset) -> (r: bool) {
        match (self, other) {
            (Asset::Native, Asset::Native) => true,
            (
                Asset::CreditAlphanum4 { asset_code: c1, asset_issuer: i1 },
                Asset::CreditAlphanum4 { asset_code: c2, asset_issuer: i2 },
            ) => *c1 == *c2 && *i1 == *i2,
            (
                Asset::CreditAlphanum12 { asset_code: c1, asset_issuer: i1 },
                Asset::CreditAlphanum12 { asset_code: c2, asset_issuer: i2 },
            ) => *c1 == *c2 && *i1 == *i2,
            _ => false,
        }
    }
}

impl vstd::std_specs::cmp::PartialEqSpecImpl for Asset {
    open spec fn obeys_eq_spec() -> bool {
        true
    }

    open spec fn eq_spec(&self, other: &Asset) -> bool {
        self@ == other@
    }
}

impl Eq for Asset {
}

/// Why an asset object could not be read.
#[derive(Debug, Clone, PartialEq, Eq)]
pub enum ParseError {
    /// A required string member is absent or is not a string.
    MissingField(String),
    /// `asset_type` names none of the three known encodings.
    UnknownAssetType(String),
}

/// The mathematical value of a `ParseError`.
pub enum ParseErrorModel {
    MissingField(Seq<char>),
    UnknownAssetType(Seq<char>),
}

impl View for ParseError {
    type V = ParseErrorModel;

    open spec fn view(&self) -> ParseErrorModel {
        match self {
            ParseError::MissingField(f) => ParseErrorModel::MissingField(f@),
            ParseError::UnknownAssetType(t) => ParseErrorModel::UnknownAssetType(t@),
        }
    }
}

/// The view of a parse result.
pub open spec fn parse_result_view(r: Result<Asset, ParseError>) -> Result<AssetModel, ParseErrorModel> {
    match r {
        Ok(a) => Ok(a@),
        Err(e) => Err(e@),
    }
}

pub open spec fn native_tag() -> Seq<char> {
    "native"@
}

pub open spec fn credit4_tag() -> Seq<char> {
    "credit_alphanum4"@
}

pub open spec fn credit12_tag() -> Seq<char> {
    "credit_alphanum12"@
}

/// The asset that an encoding with the given `asset_type`, `asset_code` and
/// `asset_issuer` string members denotes (`None` for an absent member), or
/// the first reason it denotes none.
pub open spec fn asset_of_members(
    asset_type: Option<Seq<char>>,
    asset_code: Option<Seq<char>>,
    asset_issuer: Option<Seq<char>>,
) -> Result<AssetModel, ParseErrorModel> {
    match asset_type {
        None => Err(ParseErrorModel::MissingField("asset_type"@)),
        Some(t) => if t == native_tag() {
            Ok(AssetModel::Native)
        } else if t == credit4_tag() || t == credit12_tag() {
            match (asset_code, asset_issuer) {
                (None, _) => Err(ParseErrorModel::MissingField("asset_code"@)),
                (Some(_), None) => Err(ParseErrorModel::MissingField("asset_issuer"@)),
                (Some(c), Some(i)) => if t == credit4_tag() {
                    Ok(AssetModel::CreditAlphanum4 { code: c, issuer: i })
                } else {
                    Ok(AssetModel::CreditAlphanum12 { code: c, issuer: i })
                },
            }
        } else {
            Err(ParseErrorModel::UnknownAssetType(t))
        },
    }
}

/// What an asset object denotes, read through its string members.
pub open spec fn asset_of_json(v: serde_json::Value) -> Result<AssetModel, ParseErrorModel> {
    let m = json_str_members(v);
    asset_of_members(
        member(m, "asset_type"@),
        member(m, "asset_code"@),
        member(m, "asset_issuer"@),
    )
}

fn opt_view(o: &Option<String>) -> (r: Option<&str>)
    ensures
        o is None <==> r is None,
        o matches Some(s) ==> r matches Some(t) && t@ == s@,
{
    match o {
        Some(s) => Some(s.as_str()),
        None => None,
    }
}

/// Builds the asset that the given `asset_type`, `asset_code` and
/// `asset_issuer` members denote. Code and issuer are copied verbatim.
pub fn asset_from_members(
    asset_type: Option<&str>,
    asset_code: Option<&str>,
    asset_issuer: Option<&str>,
) -> (r: Result<Asset, ParseError>)
    ensures
        parse_result_view(r) == asset_of_members(
            opt_str_view(asset_type),
            opt_str_view(asset_code),
            opt_str_view(asset_issuer),
        ),
{
    let t = match asset_type {
        None => return Err(ParseError::MissingField(String::from_str("asset_type"))),
        Some(t) => t,
    };
    let is4 = str_eq(t, "credit_alphanum4");
    if str_eq(t, "native") {
        Ok(Asset::Native)
    } else if is4 || str_eq(t, "credit_alphanum12") {
        let c = match asset_code {
            None => return Err(ParseError::MissingField(String::from_str("asset_code"))),
            Some(c) => String::from_str(c),
        };
        let i = match asset_issuer {
            None => return Err(ParseError::MissingField(String::from_str("asset_issuer"))),
            Some(i) => String::from_str(i),
        };
        if is4 {
            Ok(Asset::CreditAlphanum4 { asset_code: c, asset_issuer: i })
        } else {
            Ok(Asset::CreditAlphanum12 { asset_code: c, asset_issuer: i })
        }
    } else {
        Err(ParseError::UnknownAssetType(String::from_str(t)))
    }
}

/// The view of an optional string.
pub open spec fn opt_str_view(o: Option<&str>) -> Option<Seq<char>> {
    match o {
        Some(s) => Some(s@),
        None => None,
    }
}

/// Reads an asset from its JSON object: `asset_type` selects the variant, and
/// the credit variants take `asset_code` and `asset_issuer` verbatim.
pub fn parse_asset_from_value(v: &serde_json::Value) -> (r: Result<Asset, ParseError>)
    ensures
        parse_result_view(r) == asset_of_json(*v),
{
    let t = str_member(v, "asset_type");
    let c = str_member(v, "asset_code");
    let i = str_member(v, "asset_issuer");
    asset_from_members(opt_view(&t), opt_view(&c), opt_view(&i))
}

/// The identity key of an asset: its tag, then its code and issuer (absent
/// for the native asset).
pub open spec fn key_of(a: AssetModel) -> (Seq<char>, Option<Seq<char>>, Option<Seq<char>>) {
    match a {
        AssetModel::Native => (native_tag(), None, None),
        AssetModel::CreditAlphanum4 { code, issuer } => (credit4_tag(), Some(code), Some(issuer)),
        AssetModel::CreditAlphanum12 { code, issuer } => (credit12_tag(), Some(code), Some(issuer)),
    }
}

/// The view of a key triple.
pub open spec fn key_view(k: (String, Option<String>, Option<String>)) -> (
    Seq<char>,
    Option<Seq<char>>,
    Option<Seq<char>>,
) {
    (k.0@, opt_string_view(k.1), opt_string_view(k.2))
}

/// The view of an optional owned string.
pub open spec fn opt_string_view(o: Option<String>) -> Option<Seq<char>> {
    match o {
        Some(s) => Some(s@),
        None => None,
    }
}

impl Asset {
    /// The identity key `(tag, code, issuer)` used to group and de-duplicate
    /// assets; the native asset has neither code nor issuer.
    pub fn key(&self) -> (r: (String, Option<String>, Option<String>))
        ensures
            key_view(r) == key_of(self@),
    {
        match self {
            Asset::Native => (String::from_str("native"), None, None),
            Asset::CreditAlphanum4 { asset_code, asset_issuer } => (
                String::from_str("credit_alphanum4"),
                Some(asset_code.clone()),
                Some(asset_issuer.clone()),
            ),
            Asset::CreditAlphanum12 { asset_code, asset_issuer } => (
                String::from_str("credit_alphanum12"),
                Some(asset_code.clone()),
                Some(asset_issuer.clone()),
            ),
        }
    }
}

proof fn lemma_tags_distinct()
    ensures
        native_tag() != credit4_tag(),
        native_tag() != credit12_tag(),
        credit4_tag() != credit12_tag(),
{
    reveal_strlit("native");
    reveal_strlit("credit_alphanum4");
    reveal_strlit("credit_alphanum12");
    assert(native_tag().len() != credit4_tag().len());
    assert(native_tag().len() != credit12_tag().len());
    assert(credit4_tag().len() != credit12_tag().len());
}

/// Parsing is a function of the encoding: the members of every asset's key,
/// read back, give that asset; and every encoding that parses has, as the key
/// of its asset, its own `asset_type` with its code and issuer (those two only
/// for the credit variants, where they are copied verbatim).
pub proof fn lemma_parse_round_trip(
    asset_type: Option<Seq<char>>,
    asset_code: Option<Seq<char>>,
    asset_issuer: Option<Seq<char>>,
    a: AssetModel,
)
    ensures
        asset_of_members(Some(key_of(a).0), key_of(a).1, key_of(a).2) == Ok::<
            AssetModel,
            ParseErrorModel,
        >(a),
        asset_of_members(asset_type, asset_code, asset_issuer) matches Ok(b) ==> {
            let t = asset_type->Some_0;
            &&& asset_type is Some
            &&& key_of(b).0 == t
            &&& t == native_tag() ==> key_of(b).1 is None && key_of(b).2 is None
            &&& t != native_tag() ==> key_of(b).1 == asset_code && key_of(b).2 == asset_issuer
        },
{
    lemma_tags_distinct();
}

/// An encoding without a string `asset_type` member is refused with
/// `MissingField("asset_type")`, whatever else it holds.
pub proof fn lemma_missing_asset_type(v: serde_json::Value)
    requires
        !json_str_members(v).contains_key("asset_type"@),
    ensures
        asset_of_json(v) == Err::<AssetModel, ParseErrorModel>(
            ParseErrorModel::MissingField("asset_type"@),
        ),
{
}

/// An `asset_type` other than the three known tags is refused with
/// `UnknownAssetType` carrying that tag.
pub proof fn lemma_unknown_asset_type(
    t: Seq<char>,
    asset_code: Option<Seq<char>>,
    asset_issuer: Option<Seq<char>>,
)
    requires
        t != native_tag(),
        t != credit4_tag(),
        t != credit12_tag(),
    ensures
        asset_of_members(Some(t), asset_code, asset_issuer) == Err::<AssetModel, ParseErrorModel>(
            ParseErrorModel::UnknownAssetType(t),
        ),
{
}

} // verus!
