//! The request side of the Horizon offers listing: the normalized base URL,
//! the URL of each page request, and the classification of fetch failures.

use vstd::prelude::*;

use crate::asset::{asset_of_json, parse_asset_from_value, parse_result_view, Asset, ParseError};

verus! {

/// Why fetching a page failed.
#[derive(Debug, Clone, Copy, PartialEq, Eq, Structural)]
pub enum FetchError {
    /// The request did not complete (name resolution, connection, timeout).
    Transport,
    /// The service answered with this non-success status.
    Http(u16),
    /// The body was not a page of offer records.
    Decode,
}

/// `s` without its trailing `/` characters.
pub open spec fn trim_trailing_slashes(s: Seq<char>) -> Seq<char>
    decreases s.len(),
{
    if s.len() > 0 && s.last() == '/' {
        trim_trailing_slashes(s.drop_last())
    } else {
        s
    }
}

/// The decimal digits, in order.
pub open spec fn digit_chars() -> Seq<char> {
    "0123456789"@
}

/// The decimal text of `n`, without sign or leading zeros.
pub open spec fn decimal_of(n: nat) -> Seq<char>
    decreases n,
{
    if n < 10 {
        seq![digit_chars()[n as int]]
    } else {
        decimal_of(n / 10) + seq![digit_chars()[(n % 10) as int]]
    }
}

/// The URL of one page of the offers listing below `base`.
pub open spec fn offers_url_of(base: Seq<char>, limit: u32, cursor: Option<Seq<char>>) -> Seq<char> {
    let head = base + "/offers?limit="@ + decimal_of(limit as nat);
    match cursor {
        Some(c) => head + "&cursor="@ + c,
        None => head,
    }
}

fn digit_text(d: u32) -> (r: &'static str)
    requires
        d < 10,
    ensures
        r@ == seq![digit_chars()[d as int]],
{
    proof {
        reveal_strlit("0123456789");
    }
    let r = "0123456789".substring_char(d as usize, d as usize + 1);
    assert(r@ =~= seq![digit_chars()[d as int]]);
    r
}

/// The decimal text of `n`.
pub fn decimal_text(n: u32) -> (r: String)
    ensures
        r@ == decimal_of(n as nat),
    decreases n,
{
    if n < 10 {
        String::from_str(digit_text(n))
    } else {
        let mut s = decimal_text(n / 10);
        s.append(digit_text(n % 10));
        s
    }
}

/// A client for one Horizon service.
#[derive(Debug, Clone)]
pub struct HorizonClient {
    base_url: String,
}

impl HorizonClient {
    /// The base URL every request is made under.
    pub closed spec fn base(&self) -> Seq<char> {
        self.base_url@
    }

    /// A client for the service at `base_url`, kept without trailing slashes.
    pub fn new(base_url: &str) -> (r: HorizonClient)
        ensures
            r.base() == trim_trailing_slashes(base_url@),
    {
        let n = base_url.unicode_len();
        let mut e: usize = n;
        assert(base_url@.take(n as int) =~= base_url@);
        while e > 0 && base_url.get_char(e - 1) == '/'
            invariant
                e <= n,
                n == base_url@.len(),
                trim_trailing_slashes(base_url@.take(e as int)) == trim_trailing_slashes(base_url@),
            decreases e,
        {
            assert(base_url@.take(e as int).drop_last() =~= base_url@.take(e - 1));
            e = e - 1;
        }
        assert(trim_trailing_slashes(base_url@.take(e as int)) == base_url@.take(e as int));
        let kept = base_url.substring_char(0, e);
        assert(kept@ =~= base_url@.take(e as int));
        HorizonClient { base_url: String::from_str(kept) }
    }

    /// The base URL, without trailing slashes.
    pub fn base_url(&self) -> (r: &str)
        ensures
            r@ == self.base(),
    {
        self.base_url.as_str()
    }

    /// The URL that requests `limit` offers, continuing after `cursor` when
    /// one is given.
    pub fn offers_url(&self, limit: u32, cursor: Option<&str>) -> (r: String)
        ensures
            r@ == offers_url_of(
                self.base(),
                limit,
                match cursor {
                    Some(c) => Some(c@),
                    None => None,
                },
            ),
    {
        let mut url = self.base_url.clone();
        url.append("/offers?limit=");
        url.append(decimal_text(limit).as_str());
        match cursor {
            Some(c) => {
                url.append("&cursor=");
                url.append(c);
            },
            None => {},
        }
        url
    }

    /// Reads a Horizon asset object; see `parse_asset_from_value`.
    pub fn parse_asset(&self, v: &serde_json::Value) -> (r: Result<Asset, ParseError>)
        ensures
            parse_result_view(r) == asset_of_json(*v),
    {
        parse_asset_from_value(v)
    }
}

} // verus!
