//! The wire shapes of Horizon's offers listing: one raw offer record, and the
//! page that carries a batch of records with its continuation link.

use vstd::prelude::*;

use crate::text::str_eq;

verus! {

/// An exact price as a ratio of two integers.
#[derive(Debug, Clone)]
pub struct HorizonPriceR {
    pub n: i64,
    pub d: i64,
}

/// One offer record as Horizon sends it; `selling` and `buying` are still
/// untyped asset objects.
#[derive(Debug)]
pub struct HorizonOffer {
    pub id: String,
    pub paging_token: Option<String>,
    pub seller: String,
    pub selling: serde_json::Value,
    pub buying: serde_json::Value,
    pub amount: String,
    pub price: String,
    pub price_r: Option<HorizonPriceR>,
    pub last_modified_ledger: i64,
}

/// The embedded section of a page: its records.
#[derive(Debug, Clone)]
pub struct HorizonEmbedded<T> {
    pub records: Vec<T>,
}

/// The link section of a page.
#[derive(Debug, Clone)]
pub struct HorizonLinks {
    pub next: Option<HorizonLink>,
}

/// One hypertext link.
#[derive(Debug, Clone)]
pub struct HorizonLink {
    pub href: String,
}

/// One page of a Horizon collection.
#[derive(Debug, Clone)]
pub struct HorizonPage<T> {
    pub embedded: HorizonEmbedded<T>,
    pub links: Option<HorizonLinks>,
}

/// The `next` link of a page, if the page has a link section that holds one.
pub open spec fn next_href_of<T>(p: HorizonPage<T>) -> Option<Seq<char>> {
    match p.links {
        Some(l) => match l.next {
            Some(n) => Some(n.href@),
            None => None,
        },
        None => None,
    }
}

/// The query key that marks a continuation cursor.
pub open spec fn cursor_key() -> Seq<char> {
    "cursor="@
}

/// A `cursor=` parameter starts at `i` of `s`: just after a `?` or `&`.
pub open spec fn cursor_key_at(s: Seq<char>, i: int) -> bool {
    &&& 1 <= i
    &&& i + 7 <= s.len()
    &&& s[i - 1] == '?' || s[i - 1] == '&'
    &&& s.subrange(i, i + 7) == cursor_key()
}

/// The first position at or after `i` where a `cursor=` parameter starts.
pub open spec fn first_cursor_key(s: Seq<char>, i: int) -> Option<int>
    decreases s.len() - i,
{
    if i < 0 || i >= s.len() {
        None
    } else if cursor_key_at(s, i) {
        Some(i)
    } else {
        first_cursor_key(s, i + 1)
    }
}

/// The end of the parameter value that starts at `j`: the next `&` or `#`, or
/// the end of `s`.
pub open spec fn param_end(s: Seq<char>, j: int) -> int
    decreases s.len() - j,
{
    if j < 0 || j >= s.len() || s[j] == '&' || s[j] == '#' {
        j
    } else {
        param_end(s, j + 1)
    }
}

/// The value of the first `cursor` query parameter of a link, if it has one.
pub open spec fn cursor_of_href(s: Seq<char>) -> Option<Seq<char>> {
    match first_cursor_key(s, 0) {
        Some(i) => Some(s.subrange(i + 7, param_end(s, i + 7))),
        None => None,
    }
}

/// The continuation cursor of a page: the cursor of its `next` link.
pub open spec fn next_cursor_of<T>(p: HorizonPage<T>) -> Option<Seq<char>> {
    match next_href_of(p) {
        Some(h) => cursor_of_href(h),
        None => None,
    }
}

fn find_cursor_key(href: &str) -> (r: Option<usize>)
    ensures
        r is None ==> first_cursor_key(href@, 0) is None,
        r matches Some(i) ==> first_cursor_key(href@, 0) == Some(i as int) && i + 7 <= href@.len(),
{
    let n = href.unicode_len();
    proof {
        reveal_strlit("cursor=");
    }
    let mut i: usize = 0;
    while i < n
        invariant
            i <= n,
            n == href@.len(),
            first_cursor_key(href@, 0) == first_cursor_key(href@, i as int),
        decreases n - i,
    {
        if i >= 1 && n >= 7 && i <= n - 7 {
            let p = href.get_char(i - 1);
            if (p == '?' || p == '&') && str_eq(href.substring_char(i, i + 7), "cursor=") {
                return Some(i);
            }
        }
        i = i + 1;
    }
    None
}

/// Reads the value of the first `cursor` query parameter of a link.
pub fn cursor_from_href(href: &str) -> (r: Option<String>)
    ensures
        r is None <==> cursor_of_href(href@) is None,
        r matches Some(c) ==> cursor_of_href(href@) == Some(c@),
{
    let n = href.unicode_len();
    let start = match find_cursor_key(href) {
        None => return None,
        Some(i) => i + 7,
    };
    let mut j: usize = start;
    while j < n && href.get_char(j) != '&' && href.get_char(j) != '#'
        invariant
            start <= j <= n,
            n == href@.len(),
            param_end(href@, start as int) == param_end(href@, j as int),
        decreases n - j,
    {
        j = j + 1;
    }
    Some(String::from_str(href.substring_char(start, j)))
}

impl<T> HorizonPage<T> {
    /// The cursor to continue the listing from; `None` when this page has no
    /// `next` link (the listing ends here) or the link carries no cursor.
    pub fn next_cursor(&self) -> (r: Option<String>)
        ensures
            r is None <==> next_cursor_of(*self) is None,
            r matches Some(c) ==> next_cursor_of(*self) == Some(c@),
    {
        match &self.links {
            Some(l) => match &l.next {
                Some(n) => cursor_from_href(n.href.as_str()),
                None => None,
            },
            None => None,
        }
    }


    /// The `next` link of this page; `None` when the link section or its
    /// `next` entry is absent, which means that this page is the last.
    pub fn next_href(&self) -> (r: Option<String>)
        ensures
            r is None <==> next_href_of(*self) is None,
            r matches Some(h) ==> next_href_of(*self) == Some(h@),
    {
        match &self.links {
            Some(l) => match &l.next {
                Some(n) => Some(n.href.clone()),
                None => None,
            },
            None => None,
        }
    }

    /// The records of this page, in the order Horizon sent them.
    pub fn records(&self) -> (r: &Vec<T>)
        ensures
            r@ == self.embedded.records@,
    {
        &self.embedded.records
    }
}

} // verus!
