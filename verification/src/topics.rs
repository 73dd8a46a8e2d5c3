//! The addresses of the bus and the keys of the caches: how a symbol and a
//! timeframe are written into a topic, a cache key or a request, and how
//! they are read back.

use vstd::prelude::*;
use vstd::string::*;
use crate::text::{
    ascii_upper, chars_of, find_char, first_at, has_prefix, lemma_ascii_upper_keeps,
    lemma_first_at, lemma_first_at_is, lemma_first_at_none, push_char, starts_with, str_eq,
    string_of_range, to_ascii_upper,
};

verus! {

/// Topic of the full snapshot.
pub const LATEST_PRICES_TOPIC: &'static str = "crypto/prices/latest";

/// What the topic of one instrument begins with.
pub const PRICE_TOPIC_PREFIX: &'static str = "crypto/prices/";

/// What the topic of one series begins with.
pub const HISTORICAL_TOPIC_PREFIX: &'static str = "crypto/historical/";

/// Topic filter that matches the topic of every series.
pub const HISTORICAL_TOPIC_FILTER: &'static str = "crypto/historical/+/+";

/// Topic of the requests for a series.
pub const REQUEST_TOPIC: &'static str = "crypto/requests/historical";

/// One level of a topic: at least one character, and no level separator.
pub open spec fn is_level(s: Seq<char>) -> bool {
    s.len() > 0 && !s.contains('/')
}

/// Canonical form of a symbol.
pub fn normalize_symbol(symbol: &str) -> (normal: String)
    ensures
        normal@ == ascii_upper(symbol@),
{
    to_ascii_upper(symbol)
}

/// Topic of the instrument `symbol`.
pub open spec fn spec_price_topic(symbol: Seq<char>) -> Seq<char> {
    PRICE_TOPIC_PREFIX@ + ascii_upper(symbol)
}

/// Topic of the series of `symbol` over `timeframe`.
pub open spec fn spec_historical_topic(symbol: Seq<char>, timeframe: Seq<char>) -> Seq<char> {
    HISTORICAL_TOPIC_PREFIX@ + ascii_upper(symbol) + seq!['/'] + timeframe
}

/// Key of the series of `symbol` over `timeframe` in a cache, which is also
/// the payload that requests it.
pub open spec fn spec_cache_key(symbol: Seq<char>, timeframe: Seq<char>) -> Seq<char> {
    ascii_upper(symbol) + seq![':'] + timeframe
}

/// Topic of the instrument `symbol`.
pub fn price_topic(symbol: &str) -> (topic: String)
    ensures
        topic@ == spec_price_topic(symbol@),
{
    let mut topic = String::from_str(PRICE_TOPIC_PREFIX);
    let upper = to_ascii_upper(symbol);
    topic.append(upper.as_str());
    topic
}

/// Topic of the series of `symbol` over `timeframe`.
pub fn historical_topic(symbol: &str, timeframe: &str) -> (topic: String)
    ensures
        topic@ == spec_historical_topic(symbol@, timeframe@),
{
    let mut topic = String::from_str(HISTORICAL_TOPIC_PREFIX);
    let upper = to_ascii_upper(symbol);
    topic.append(upper.as_str());
    push_char(&mut topic, '/');
    topic.append(timeframe);
    topic
}

/// Key of the series of `symbol` over `timeframe` in a cache.
pub fn cache_key(symbol: &str, timeframe: &str) -> (key: String)
    ensures
        key@ == spec_cache_key(symbol@, timeframe@),
{
    let mut key = to_ascii_upper(symbol);
    push_char(&mut key, ':');
    key.append(timeframe);
    key
}

/// Payload of the request for the series of `symbol` over `timeframe`.
pub fn request_payload(symbol: &str, timeframe: &str) -> (payload: String)
    ensures
        payload@ == spec_cache_key(symbol@, timeframe@),
{
    cache_key(symbol, timeframe)
}

/// The symbol and timeframe that the topic of a series names: the two levels
/// that follow the prefix. `None` for any other topic.
pub open spec fn spec_parse_historical_topic(topic: Seq<char>) -> Option<(Seq<char>, Seq<char>)> {
    let start = HISTORICAL_TOPIC_PREFIX@.len() as int;
    let cut = first_at(topic, '/', start);
    if has_prefix(topic, HISTORICAL_TOPIC_PREFIX@) && start < cut && cut + 1 < topic.len()
        && first_at(topic, '/', cut + 1) == topic.len() {
        Some((topic.subrange(start, cut), topic.subrange(cut + 1, topic.len() as int)))
    } else {
        None
    }
}

/// Whether `topic` is the topic of one instrument: the prefix and one level.
pub open spec fn spec_is_price_topic(topic: Seq<char>) -> bool {
    let start = PRICE_TOPIC_PREFIX@.len() as int;
    has_prefix(topic, PRICE_TOPIC_PREFIX@) && start < topic.len() && first_at(topic, '/', start)
        == topic.len()
}

/// The families of topics that a client tells apart.
#[derive(Clone, Copy, Debug, PartialEq, Eq, Structural)]
pub enum TopicKind {
    /// The full snapshot.
    LatestPrices,
    /// One series.
    Historical,
    /// One instrument.
    SymbolPrice,
    /// No canonical topic.
    Unhandled,
}

/// The family of `topic`.
pub open spec fn spec_classify_topic(topic: Seq<char>) -> TopicKind {
    if topic == LATEST_PRICES_TOPIC@ {
        TopicKind::LatestPrices
    } else if spec_parse_historical_topic(topic) is Some {
        TopicKind::Historical
    } else if spec_is_price_topic(topic) {
        TopicKind::SymbolPrice
    } else {
        TopicKind::Unhandled
    }
}

/// Reads the symbol and the timeframe out of the topic of a series.
pub fn parse_historical_topic(topic: &str) -> (parts: Option<(String, String)>)
    ensures
        match parts {
            Some((symbol, timeframe)) => spec_parse_historical_topic(topic@) == Some(
                (symbol@, timeframe@),
            ),
            None => spec_parse_historical_topic(topic@) is None,
        },
{
    let chars = chars_of(topic);
    let prefix = chars_of(HISTORICAL_TOPIC_PREFIX);
    if !starts_with(&chars, &prefix) {
        return None;
    }
    let start = prefix.len();
    let cut = find_char(&chars, start, '/');
    if !(start < cut && cut < chars.len() && cut + 1 < chars.len()) {
        return None;
    }
    if find_char(&chars, cut + 1, '/') != chars.len() {
        return None;
    }
    Some((string_of_range(&chars, start, cut), string_of_range(&chars, cut + 1, chars.len())))
}

/// Whether `topic` is the topic of one instrument.
pub fn is_price_topic(topic: &str) -> (yes: bool)
    ensures
        yes == spec_is_price_topic(topic@),
{
    let chars = chars_of(topic);
    let prefix = chars_of(PRICE_TOPIC_PREFIX);
    starts_with(&chars, &prefix) && prefix.len() < chars.len() && find_char(
        &chars,
        prefix.len(),
        '/',
    ) == chars.len()
}

/// The family of `topic`.
pub fn classify_topic(topic: &str) -> (kind: TopicKind)
    ensures
        kind == spec_classify_topic(topic@),
{
    if str_eq(topic, LATEST_PRICES_TOPIC) {
        TopicKind::LatestPrices
    } else if parse_historical_topic(topic).is_some() {
        TopicKind::Historical
    } else if is_price_topic(topic) {
        TopicKind::SymbolPrice
    } else {
        TopicKind::Unhandled
    }
}

/// What is read out of the topic of a series is two levels, and the topic is
/// the prefix, the first level, a separator and the second level.
pub proof fn lemma_parse_historical_topic_sound(topic: Seq<char>)
    requires
        spec_parse_historical_topic(topic) is Some,
    ensures
        ({
            let (symbol, timeframe) = spec_parse_historical_topic(topic)->0;
            &&& is_level(symbol)
            &&& is_level(timeframe)
            &&& topic == HISTORICAL_TOPIC_PREFIX@ + symbol + seq!['/'] + timeframe
        }),
{
    let start = HISTORICAL_TOPIC_PREFIX@.len() as int;
    let cut = first_at(topic, '/', start);
    let (symbol, timeframe) = spec_parse_historical_topic(topic)->0;
    lemma_first_at(topic, '/', start);
    lemma_first_at(topic, '/', cut + 1);
    assert(!symbol.contains('/')) by {
        if symbol.contains('/') {
            let i = choose|i: int| 0 <= i < symbol.len() && symbol[i] == '/';
            assert(topic[start + i] == '/');
        }
    }
    assert(!timeframe.contains('/')) by {
        if timeframe.contains('/') {
            let i = choose|i: int| 0 <= i < timeframe.len() && timeframe[i] == '/';
            assert(topic[cut + 1 + i] == '/');
        }
    }
    assert(topic =~= HISTORICAL_TOPIC_PREFIX@ + symbol + seq!['/'] + timeframe);
}

/// The prefix, a level, a separator and a level parse back to the two levels.
pub proof fn lemma_parse_historical_topic_complete(symbol: Seq<char>, timeframe: Seq<char>)
    requires
        is_level(symbol),
        is_level(timeframe),
    ensures
        spec_parse_historical_topic(HISTORICAL_TOPIC_PREFIX@ + symbol + seq!['/'] + timeframe)
            == Some((symbol, timeframe)),
{
    let prefix = HISTORICAL_TOPIC_PREFIX@;
    let topic = prefix + symbol + seq!['/'] + timeframe;
    let start = prefix.len() as int;
    let cut = start + symbol.len();
    assert(topic.subrange(0, start) =~= prefix);
    assert(topic[cut] == '/');
    assert forall|j: int| start <= j < cut implies topic[j] != '/' by {
        assert(topic[j] == symbol[j - start]);
    }
    lemma_first_at_is(topic, '/', start, cut);
    assert forall|j: int| cut + 1 <= j < topic.len() implies topic[j] != '/' by {
        assert(topic[j] == timeframe[j - cut - 1]);
    }
    lemma_first_at_none(topic, '/', cut + 1);
    assert(topic.subrange(start, cut) =~= symbol);
    assert(topic.subrange(cut + 1, topic.len() as int) =~= timeframe);
}

/// The topic under which a series is published names the normalised symbol
/// and the timeframe, and a client files it under the series.
pub proof fn lemma_historical_topic_round_trip(symbol: Seq<char>, timeframe: Seq<char>)
    requires
        is_level(symbol),
        is_level(timeframe),
    ensures
        spec_parse_historical_topic(spec_historical_topic(symbol, timeframe)) == Some(
            (ascii_upper(symbol), timeframe),
        ),
        spec_classify_topic(spec_historical_topic(symbol, timeframe)) == TopicKind::Historical,
{
    lemma_ascii_upper_keeps(symbol, '/');
    lemma_parse_historical_topic_complete(ascii_upper(symbol), timeframe);
    let topic = spec_historical_topic(symbol, timeframe);
    reveal_strlit("crypto/prices/latest");
    reveal_strlit("crypto/historical/");
    assert(topic[7] == 'h');
    assert(LATEST_PRICES_TOPIC@[7] == 'p');
}

/// The topic of one instrument is never the topic of the full snapshot, nor
/// that of a series: a client files it under the instruments.
pub proof fn lemma_price_topic_is_classified(symbol: Seq<char>)
    requires
        is_level(symbol),
    ensures
        spec_classify_topic(spec_price_topic(symbol)) == TopicKind::SymbolPrice,
{
    let topic = spec_price_topic(symbol);
    let prefix = PRICE_TOPIC_PREFIX@;
    let start = prefix.len() as int;
    reveal_strlit("crypto/prices/latest");
    reveal_strlit("crypto/prices/");
    reveal_strlit("crypto/historical/");
    lemma_ascii_upper_keeps(symbol, '/');
    assert(topic.subrange(0, start) =~= prefix);
    assert forall|j: int| start <= j < topic.len() implies topic[j] != '/' by {
        assert(topic[j] == ascii_upper(symbol)[j - start]);
    }
    lemma_first_at_none(topic, '/', start);
    assert(topic != LATEST_PRICES_TOPIC@) by {
        if topic.len() == LATEST_PRICES_TOPIC@.len() {
            assert(topic[start] == ascii_upper(symbol)[0]);
            assert(LATEST_PRICES_TOPIC@[start] == 'l');
        }
    }
    assert(!has_prefix(topic, HISTORICAL_TOPIC_PREFIX@)) by {
        if has_prefix(topic, HISTORICAL_TOPIC_PREFIX@) {
            assert(topic.subrange(0, HISTORICAL_TOPIC_PREFIX@.len() as int)[7] == topic[7]);
            assert(topic[7] == prefix[7]);
        }
    }
}

} // verus!
