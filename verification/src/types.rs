//! The data that travels on the bus: instruments with their quotes, and
//! historical series.

use vstd::prelude::*;
use crate::text::{ascii_upper, is_ascii_upper, to_ascii_upper, str_eq};

verus! {

/// An IEEE-754 double-precision number, carried by its bit pattern. The
/// library stores and forwards such numbers and classifies them; it never
/// computes with them.
#[derive(Clone, Copy, Debug, PartialEq, Eq, Structural)]
pub struct Real {
    pub bits: u64,
}

/// Bit pattern of positive infinity; every larger magnitude is a NaN.
pub const REAL_INFINITY_BITS: u64 = 0x7FF0_0000_0000_0000;

/// Weight of the sign bit.
pub const REAL_SIGN_BIT: u64 = 0x8000_0000_0000_0000;

impl Real {
    /// The bit pattern without its sign.
    pub open spec fn magnitude(&self) -> int {
        self.bits as int % (REAL_SIGN_BIT as int)
    }

    /// Neither an infinity nor a NaN.
    pub open spec fn spec_is_finite(&self) -> bool {
        self.magnitude() < REAL_INFINITY_BITS as int
    }

    /// A number (not a NaN) that is at least zero; negative zero counts.
    pub open spec fn spec_is_non_negative(&self) -> bool {
        self.bits <= REAL_INFINITY_BITS || self.bits == REAL_SIGN_BIT
    }

    /// The number with the given bit pattern.
    pub fn from_bits(bits: u64) -> (r: Real)
        ensures
            r.bits == bits,
    {
        Real { bits }
    }

    /// The bit pattern of the number.
    pub fn to_bits(&self) -> (bits: u64)
        ensures
            bits == self.bits,
    {
        self.bits
    }

    /// Whether the number is neither an infinity nor a NaN.
    #[verifier::when_used_as_spec(spec_is_finite)]
    pub fn is_finite(&self) -> (finite: bool)
        ensures
            finite == self.spec_is_finite(),
    {
        self.bits % REAL_SIGN_BIT < REAL_INFINITY_BITS
    }

    /// Whether the number is a number that is at least zero.
    #[verifier::when_used_as_spec(spec_is_non_negative)]
    pub fn is_non_negative(&self) -> (yes: bool)
        ensures
            yes == self.spec_is_non_negative(),
    {
        self.bits <= REAL_INFINITY_BITS || self.bits == REAL_SIGN_BIT
    }
}

/// Quote of one instrument in US dollars.
#[derive(Debug)]
pub struct UsdQuote {
    pub price: Real,
    pub percent_change_1h: Real,
    pub percent_change_24h: Real,
    pub percent_change_7d: Real,
    pub market_cap: Real,
    pub volume_24h: Real,
    pub last_updated: String,
}

/// Model of a `UsdQuote`: its text as characters.
pub struct UsdQuoteView {
    pub price: Real,
    pub percent_change_1h: Real,
    pub percent_change_24h: Real,
    pub percent_change_7d: Real,
    pub market_cap: Real,
    pub volume_24h: Real,
    pub last_updated: Seq<char>,
}

impl View for UsdQuote {
    type V = UsdQuoteView;

    open spec fn view(&self) -> UsdQuoteView {
        UsdQuoteView {
            price: self.price,
            percent_change_1h: self.percent_change_1h,
            percent_change_24h: self.percent_change_24h,
            percent_change_7d: self.percent_change_7d,
            market_cap: self.market_cap,
            volume_24h: self.volume_24h,
            last_updated: self.last_updated@,
        }
    }
}

impl Clone for UsdQuote {
    fn clone(&self) -> (r: Self)
        ensures
            r@ == self@,
    {
        UsdQuote {
            price: self.price,
            percent_change_1h: self.percent_change_1h,
            percent_change_24h: self.percent_change_24h,
            percent_change_7d: self.percent_change_7d,
            market_cap: self.market_cap,
            volume_24h: self.volume_24h,
            last_updated: self.last_updated.clone(),
        }
    }
}

/// The quotes of one instrument, by currency.
#[derive(Debug)]
pub struct Quote {
    pub usd: UsdQuote,
}

/// Model of a `Quote`.
pub struct QuoteView {
    pub usd: UsdQuoteView,
}

impl View for Quote {
    type V = QuoteView;

    open spec fn view(&self) -> QuoteView {
        QuoteView { usd: self.usd@ }
    }
}

impl Clone for Quote {
    fn clone(&self) -> (r: Self)
        ensures
            r@ == self@,
    {
        Quote { usd: self.usd.clone() }
    }
}

/// One tracked instrument with its latest quote.
#[derive(Debug)]
pub struct CryptoCurrency {
    pub id: i32,
    pub name: String,
    pub symbol: String,
    pub quote: Quote,
}

/// Model of a `CryptoCurrency`: its texts as characters.
pub struct CryptoCurrencyView {
    pub id: i32,
    pub name: Seq<char>,
    pub symbol: Seq<char>,
    pub quote: QuoteView,
}

impl View for CryptoCurrency {
    type V = CryptoCurrencyView;

    open spec fn view(&self) -> CryptoCurrencyView {
        CryptoCurrencyView {
            id: self.id,
            name: self.name@,
            symbol: self.symbol@,
            quote: self.quote@,
        }
    }
}

impl Clone for CryptoCurrency {
    fn clone(&self) -> (r: Self)
        ensures
            r@ == self@,
    {
        CryptoCurrency {
            id: self.id,
            name: self.name.clone(),
            symbol: self.symbol.clone(),
            quote: self.quote.clone(),
        }
    }
}

impl CryptoCurrencyView {
    /// The symbol is non-empty, upper-case ASCII; the price is a number that
    /// is at least zero; and the three percent changes are finite.
    pub open spec fn well_formed(self) -> bool {
        &&& self.symbol.len() > 0
        &&& is_ascii_upper(self.symbol)
        &&& self.quote.usd.price.spec_is_non_negative()
        &&& self.quote.usd.percent_change_1h.spec_is_finite()
        &&& self.quote.usd.percent_change_24h.spec_is_finite()
        &&& self.quote.usd.percent_change_7d.spec_is_finite()
    }
}

impl CryptoCurrency {
    /// Whether the record satisfies the invariant of an instrument.
    pub fn is_well_formed(&self) -> (ok: bool)
        ensures
            ok == self@.well_formed(),
    {
        let upper = to_ascii_upper(self.symbol.as_str());
        !self.symbol.as_str().is_empty() && self.symbol.as_str().is_ascii() && str_eq(
            upper.as_str(),
            self.symbol.as_str(),
        ) && self.quote.usd.price.is_non_negative()
            && self.quote.usd.percent_change_1h.is_finite()
            && self.quote.usd.percent_change_24h.is_finite()
            && self.quote.usd.percent_change_7d.is_finite()
    }
}

/// The models of the instruments of a snapshot, in order.
pub open spec fn snapshot_view(snapshot: Seq<CryptoCurrency>) -> Seq<CryptoCurrencyView> {
    Seq::new(snapshot.len(), |i: int| snapshot[i]@)
}

/// A copy of `snapshot`.
pub fn clone_snapshot(snapshot: &Vec<CryptoCurrency>) -> (copy: Vec<CryptoCurrency>)
    ensures
        snapshot_view(copy@) == snapshot_view(snapshot@),
{
    let mut copy: Vec<CryptoCurrency> = Vec::new();
    let mut i: usize = 0;
    while i < snapshot.len()
        invariant
            i <= snapshot.len(),
            copy.len() == i,
            forall|j: int| 0 <= j < i ==> copy@[j]@ == snapshot@[j]@,
        decreases snapshot.len() - i,
    {
        copy.push(snapshot[i].clone());
        i = i + 1;
    }
    assert(snapshot_view(copy@) =~= snapshot_view(snapshot@));
    copy
}

/// One point of a historical series: whole seconds since the epoch, the
/// price, and the traded volume where the upstream gave one.
#[derive(Clone, Copy, Debug, PartialEq, Eq, Structural)]
pub struct HistoricalDataPoint {
    pub timestamp: i64,
    pub price: Real,
    pub volume: Option<Real>,
}

/// Each point is later than the one before it.
pub open spec fn strictly_increasing(points: Seq<HistoricalDataPoint>) -> bool {
    forall|i: int, j: int| 0 <= i < j < points.len() ==> points[i].timestamp < points[j].timestamp
}

/// The points of `points` that a series keeps, in order: each point that is
/// later than the last point kept before it. The first point is always
/// kept; a point that is not later than the last kept one is skipped.
pub open spec fn keep_increasing(points: Seq<HistoricalDataPoint>) -> Seq<HistoricalDataPoint>
    decreases points.len(),
{
    if points.len() == 0 {
        Seq::empty()
    } else {
        let kept = keep_increasing(points.drop_last());
        if kept.len() == 0 || kept.last().timestamp < points.last().timestamp {
            kept.push(points.last())
        } else {
            kept
        }
    }
}

/// What a series keeps comes in strictly increasing time, is no longer than
/// what it was given, and begins with the first point given.
pub proof fn lemma_keep_increasing(points: Seq<HistoricalDataPoint>)
    ensures
        strictly_increasing(keep_increasing(points)),
        keep_increasing(points).len() <= points.len(),
        points.len() > 0 ==> keep_increasing(points).len() > 0 && keep_increasing(points)[0]
            == points[0],
    decreases points.len(),
{
    if points.len() > 0 {
        let before = points.drop_last();
        lemma_keep_increasing(before);
        let kept = keep_increasing(before);
        if kept.len() == 0 || kept.last().timestamp < points.last().timestamp {
            let all = kept.push(points.last());
            assert forall|i: int, j: int| 0 <= i < j < all.len() implies all[i].timestamp
                < all[j].timestamp by {
                if j == kept.len() {
                    if i < kept.len() - 1 {
                        assert(kept[i].timestamp < kept[kept.len() - 1].timestamp);
                    }
                } else {
                    assert(kept[i].timestamp < kept[j].timestamp);
                }
            }
            if before.len() > 0 {
                assert(all[0] == kept[0]);
                assert(before[0] == points[0]);
            }
        } else {
            assert(before[0] == points[0]);
        }
    }
}

/// Points that already come in strictly increasing time are all kept.
pub proof fn lemma_keep_increasing_keeps_all(points: Seq<HistoricalDataPoint>)
    requires
        strictly_increasing(points),
    ensures
        keep_increasing(points) == points,
    decreases points.len(),
{
    if points.len() > 0 {
        let before = points.drop_last();
        assert forall|i: int, j: int| 0 <= i < j < before.len() implies before[i].timestamp
            < before[j].timestamp by {
            assert(points[i].timestamp < points[j].timestamp);
        }
        lemma_keep_increasing_keeps_all(before);
        if before.len() > 0 {
            assert(before.last() == points[points.len() - 2]);
            assert(points[points.len() - 2].timestamp < points[points.len() - 1].timestamp);
        }
        assert(before.push(points.last()) =~= points);
    } else {
        assert(keep_increasing(points) =~= points);
    }
}

/// The points of `points` that a series keeps.
pub fn increasing_points(points: &Vec<HistoricalDataPoint>) -> (kept: Vec<HistoricalDataPoint>)
    ensures
        kept@ == keep_increasing(points@),
{
    let mut kept: Vec<HistoricalDataPoint> = Vec::new();
    let mut i: usize = 0;
    while i < points.len()
        invariant
            i <= points.len(),
            kept@ == keep_increasing(points@.take(i as int)),
        decreases points.len() - i,
    {
        proof {
            let next = points@.take(i + 1);
            assert(next.drop_last() =~= points@.take(i as int));
            assert(next.last() == points@[i as int]);
        }
        let keep = kept.len() == 0 || kept[kept.len() - 1].timestamp < points[i].timestamp;
        if keep {
            kept.push(points[i]);
        }
        i = i + 1;
    }
    assert(points@.take(points.len() as int) =~= points@);
    kept
}

/// A historical series for one symbol and timeframe, or the reason why there
/// is none.
#[derive(Debug)]
pub struct HistoricalDataResult {
    pub success: bool,
    pub data: Vec<HistoricalDataPoint>,
    pub error: Option<String>,
    pub symbol: Option<String>,
    pub timeframe: Option<String>,
}

/// Model of a `HistoricalDataResult`: its points as a sequence, its texts as
/// characters.
pub struct HistoricalDataResultView {
    pub success: bool,
    pub data: Seq<HistoricalDataPoint>,
    pub error: Option<Seq<char>>,
    pub symbol: Option<Seq<char>>,
    pub timeframe: Option<Seq<char>>,
}

/// The characters of an optional string.
pub open spec fn opt_chars(s: Option<String>) -> Option<Seq<char>> {
    match s {
        Some(text) => Some(text@),
        None => None,
    }
}

impl View for HistoricalDataResult {
    type V = HistoricalDataResultView;

    open spec fn view(&self) -> HistoricalDataResultView {
        HistoricalDataResultView {
            success: self.success,
            data: self.data@,
            error: opt_chars(self.error),
            symbol: opt_chars(self.symbol),
            timeframe: opt_chars(self.timeframe),
        }
    }
}

impl HistoricalDataResultView {
    /// A successful series has at least one point, its points in strictly
    /// increasing time, and no error; a failed one has an error and no point.
    pub open spec fn well_formed(self) -> bool {
        if self.success {
            self.data.len() > 0 && strictly_increasing(self.data) && self.error is None
        } else {
            self.data.len() == 0 && self.error is Some
        }
    }
}

/// A copy of an optional string.
pub fn clone_opt_string(s: &Option<String>) -> (copy: Option<String>)
    ensures
        opt_chars(copy) == opt_chars(*s),
{
    match s {
        Some(text) => Some(text.clone()),
        None => None,
    }
}

impl Clone for HistoricalDataResult {
    fn clone(&self) -> (r: Self)
        ensures
            r@ == self@,
    {
        let mut data: Vec<HistoricalDataPoint> = Vec::new();
        let mut i: usize = 0;
        while i < self.data.len()
            invariant
                i <= self.data.len(),
                data@ == self.data@.take(i as int),
            decreases self.data.len() - i,
        {
            data.push(self.data[i]);
            i = i + 1;
        }
        assert(data@ =~= self.data@);
        HistoricalDataResult {
            success: self.success,
            data,
            error: clone_opt_string(&self.error),
            symbol: clone_opt_string(&self.symbol),
            timeframe: clone_opt_string(&self.timeframe),
        }
    }
}

impl HistoricalDataResult {
    /// A failed series that carries `message`, for the normalised `symbol`.
    pub fn failure(symbol: &str, timeframe: &str, message: &str) -> (r: Self)
        ensures
            r@ == (HistoricalDataResultView {
                success: false,
                data: Seq::empty(),
                error: Some(message@),
                symbol: Some(ascii_upper(symbol@)),
                timeframe: Some(timeframe@),
            }),
            r@.well_formed(),
    {
        HistoricalDataResult {
            success: false,
            data: Vec::new(),
            error: Some(message.to_owned()),
            symbol: Some(to_ascii_upper(symbol)),
            timeframe: Some(timeframe.to_owned()),
        }
    }

    /// Whether the points come in strictly increasing time.
    pub fn has_increasing_timestamps(&self) -> (ok: bool)
        ensures
            ok == strictly_increasing(self.data@),
    {
        let mut i: usize = 1;
        while i < self.data.len()
            invariant
                1 <= i,
                forall|a: int, b: int|
                    0 <= a < b < i && b < self.data.len() ==> self.data@[a].timestamp
                        < self.data@[b].timestamp,
            decreases self.data.len() - i,
        {
            if self.data[i - 1].timestamp >= self.data[i].timestamp {
                return false;
            }
            i = i + 1;
        }
        true
    }

    /// Whether the record satisfies the invariant of a series.
    pub fn is_well_formed(&self) -> (ok: bool)
        ensures
            ok == self@.well_formed(),
    {
        if self.success {
            self.data.len() > 0 && self.error.is_none() && self.has_increasing_timestamps()
        } else {
            self.data.len() == 0 && self.error.is_some()
        }
    }
}

} // verus!
