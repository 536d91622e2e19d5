//! Where a ticker's price history comes from, and when it is usable.

use vstd::prelude::*;
use crate::json::{
    array_len, element, is_number, json_array_len, json_element, json_is_number, json_member,
    member,
};
use crate::report::push_chars;
use crate::text::{chars_of, string_from_chars};

verus! {

/// The fewest daily closes that a usable history holds.
pub const MIN_CLOSES: usize = 200;

/// Why a ticker's price history cannot be used.
#[derive(Clone, Copy, Debug, PartialEq, Eq, Structural)]
pub enum MarketError {
    /// The chart reply held no series of closing prices.
    NoClosePrices,
    /// The series held fewer than `MIN_CLOSES` prices.
    NotEnoughData,
}

impl MarketError {
    /// The message this error is reported with.
    pub fn message(&self) -> (r: &'static str)
        ensures
            r@ == match *self {
                MarketError::NoClosePrices => "No close prices"@,
                MarketError::NotEnoughData => "Not enough price data"@,
            },
    {
        match self {
            MarketError::NoClosePrices => "No close prices",
            MarketError::NotEnoughData => "Not enough price data",
        }
    }
}

/// The chart query for `ticker`: a year of daily bars.
pub open spec fn chart_url_text(ticker: Seq<char>) -> Seq<char> {
    "https://query1.finance.yahoo.com/v8/finance/chart/"@ + ticker + "?interval=1d&range=1y"@
}

/// The address of a year of daily bars for `ticker`.
pub fn chart_url(ticker: &str) -> (r: String)
    ensures
        r@ == chart_url_text(ticker@),
{
    let mut out: Vec<char> = chars_of("https://query1.finance.yahoo.com/v8/finance/chart/");
    push_chars(&mut out, &chars_of(ticker));
    push_chars(&mut out, &chars_of("?interval=1d&range=1y"));
    string_from_chars(out)
}

/// Whether a chart reply gives a usable history: it must hold a series of
/// closes (`series_found`), and the series must hold at least
/// `MIN_CLOSES` prices once the missing ones are left out (`count`).
pub fn check_closes(series_found: bool, count: usize) -> (r: Result<(), MarketError>)
    ensures
        !series_found ==> r == Err::<(), MarketError>(MarketError::NoClosePrices),
        series_found && count < MIN_CLOSES ==> r == Err::<(), MarketError>(MarketError::NotEnoughData),
        series_found && count >= MIN_CLOSES ==> r is Ok,
{
    if !series_found {
        Err(MarketError::NoClosePrices)
    } else if count < MIN_CLOSES {
        Err(MarketError::NotEnoughData)
    } else {
        Ok(())
    }
}


/// The series of closing prices in a chart document:
/// `doc["chart"]["result"][0]["indicators"]["quote"][0]["close"]`.
pub open spec fn close_series(doc: serde_json::Value) -> serde_json::Value {
    json_member(
        json_element(
            json_member(json_member(json_element(json_member(json_member(doc, "chart"@), "result"@), 0), "indicators"@), "quote"@),
            0,
        ),
        "close"@,
    )
}

/// How many of the first `n` elements of `series` are numbers.
pub open spec fn numbers_among(series: serde_json::Value, n: nat) -> nat
    decreases n,
{
    if n == 0 {
        0
    } else {
        numbers_among(series, (n - 1) as nat) + if json_is_number(json_element(series, (n - 1) as nat)) {
            1nat
        } else {
            0nat
        }
    }
}

/// The positions below `n` at which `series` holds a number.
pub open spec fn number_positions(series: serde_json::Value, n: nat) -> Set<nat> {
    Set::new(|i: nat| i < n && json_is_number(json_element(series, i)))
}

/// The count is the number of numeric elements, wherever they stand: it is
/// the size of the set of positions that hold a number.
pub proof fn lemma_numbers_among_counts_positions(series: serde_json::Value, n: nat)
    ensures
        number_positions(series, n).finite(),
        numbers_among(series, n) == number_positions(series, n).len(),
    decreases n,
{
    if n == 0 {
        assert(number_positions(series, n) =~= Set::<nat>::empty());
    } else {
        let m = (n - 1) as nat;
        lemma_numbers_among_counts_positions(series, m);
        if json_is_number(json_element(series, m)) {
            assert(number_positions(series, n) =~= number_positions(series, m).insert(m));
            assert(!number_positions(series, m).contains(m));
        } else {
            assert(number_positions(series, n) =~= number_positions(series, m));
        }
    }
}

/// Taking in more elements never lowers the count, and raises it by at most
/// the number of elements taken in: a null or other non-number anywhere
/// leaves the count of the numbers around it whole.
pub proof fn lemma_numbers_among_monotone(series: serde_json::Value, m: nat, n: nat)
    requires
        m <= n,
    ensures
        numbers_among(series, m) <= numbers_among(series, n),
        numbers_among(series, n) <= numbers_among(series, m) + (n - m),
    decreases n - m,
{
    if m < n {
        lemma_numbers_among_monotone(series, m, (n - 1) as nat);
    }
}

/// Two series whose elements are numbers at the same positions have the
/// same count: only where the numbers stand matters, not what else is there.
pub proof fn lemma_numbers_among_depends_on_positions(s1: serde_json::Value, s2: serde_json::Value, n: nat)
    requires
        forall|i: nat| i < n ==> (json_is_number(json_element(s1, i)) <==> json_is_number(json_element(s2, i))),
    ensures
        numbers_among(s1, n) == numbers_among(s2, n),
    decreases n,
{
    if n > 0 {
        lemma_numbers_among_depends_on_positions(s1, s2, (n - 1) as nat);
    }
}

/// The closing prices of a chart document: the numbers in its close
/// series, where that series is an array (missing prices are nulls).
pub open spec fn close_count(doc: serde_json::Value) -> Option<nat> {
    match json_array_len(close_series(doc)) {
        Some(n) => Some(numbers_among(close_series(doc), n)),
        None => None,
    }
}

/// Whether a chart document gives a usable history: its close series must
/// be an array holding at least `MIN_CLOSES` numbers.
pub fn check_chart(doc: &serde_json::Value) -> (r: Result<(), MarketError>)
    ensures
        close_count(*doc) is None ==> r == Err::<(), MarketError>(MarketError::NoClosePrices),
        close_count(*doc) matches Some(n) && n < MIN_CLOSES ==> r == Err::<(), MarketError>(MarketError::NotEnoughData),
        close_count(*doc) matches Some(n) && n >= MIN_CLOSES ==> r is Ok,
        json_array_len(close_series(*doc)) is None ==> r == Err::<(), MarketError>(MarketError::NoClosePrices),
        json_array_len(close_series(*doc)) matches Some(len) ==> (r is Ok
            <==> number_positions(close_series(*doc), len).len() >= MIN_CLOSES),
        json_array_len(close_series(*doc)) is Some && r is Err
            ==> r == Err::<(), MarketError>(MarketError::NotEnoughData),
{
    let series = member(element(member(member(element(member(member(doc, "chart"), "result"), 0), "indicators"), "quote"), 0), "close");
    let len = match array_len(series) {
        Some(n) => n,
        None => return check_closes(false, 0),
    };
    let mut count: usize = 0;
    let mut i: usize = 0;
    while i < len
        invariant
            i <= len,
            *series == close_series(*doc),
            count == numbers_among(*series, i as nat),
            count <= i,
        decreases len - i,
    {
        if is_number(element(series, i)) {
            count = count + 1;
        }
        i = i + 1;
    }
    proof {
        lemma_numbers_among_counts_positions(*series, len as nat);
    }
    check_closes(true, count)
}

} // verus!
