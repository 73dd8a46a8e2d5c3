//! Polling the upstream for its listings and for its catalogue: what is
//! asked, and what each answer means for the caches.

use vstd::prelude::*;
use vstd::string::*;
use crate::api::{CmcCurrency, CmcMappingResponse};
use crate::cache::LatestCache;
use crate::store::KeyedStore;
use crate::text::{ascii_upper, decimal, push_decimal, to_ascii_upper};
use crate::types::{clone_snapshot, snapshot_view, CryptoCurrency};

verus! {

/// Address of the listings.
pub const LISTINGS_URL: &'static str =
    "https://pro-api.coinmarketcap.com/v1/cryptocurrency/listings/latest";

/// Address of the catalogue.
pub const MAPPING_URL: &'static str = "https://pro-api.coinmarketcap.com/v1/cryptocurrency/map";

/// Number of instruments asked of the listings.
pub const LISTINGS_LIMIT: &'static str = "100";

/// Number of instruments asked of the catalogue.
pub const MAPPING_LIMIT: &'static str = "5000";

/// Currency in which quotes are asked.
pub const LISTINGS_CONVERT: &'static str = "USD";

/// Name of the header that carries the credential.
pub const API_KEY_HEADER: &'static str = "X-CMC_PRO_API_KEY";

/// Why a poll of the listings gave no snapshot.
#[derive(Clone, Copy, Debug, PartialEq, Eq, Structural)]
pub enum FetchError {
    /// The upstream could not be reached, or answered with a server error.
    TransientHttp,
    /// The upstream refused the request for the rate of requests.
    RateLimited,
    /// The upstream refused the credential.
    AuthFailed,
    /// The answer was not a listings envelope.
    ParseError,
    /// The upstream answered with any other status outside success.
    OtherHttp,
}

/// The error that a status stands for; `None` for a status of success.
pub open spec fn spec_status_error(status: u16) -> Option<FetchError> {
    if 200 <= status <= 299 {
        None
    } else if status == 429 {
        Some(FetchError::RateLimited)
    } else if status == 401 {
        Some(FetchError::AuthFailed)
    } else if 500 <= status <= 599 {
        Some(FetchError::TransientHttp)
    } else {
        Some(FetchError::OtherHttp)
    }
}

/// The error that a status stands for.
pub fn status_error(status: u16) -> (error: Option<FetchError>)
    ensures
        error == spec_status_error(status),
{
    if 200 <= status && status <= 299 {
        None
    } else if status == 429 {
        Some(FetchError::RateLimited)
    } else if status == 401 {
        Some(FetchError::AuthFailed)
    } else if 500 <= status && status <= 599 {
        Some(FetchError::TransientHttp)
    } else {
        Some(FetchError::OtherHttp)
    }
}

/// The outcome of a poll: `status` is the status of the answer, `None`
/// where there was no answer; `decoded` is the instrument sequence of the
/// answer's envelope, `None` where the body was no envelope.
pub open spec fn spec_poll_listings(
    status: Option<u16>,
    decoded: Option<Vec<CryptoCurrency>>,
) -> Result<Vec<CryptoCurrency>, FetchError> {
    match status {
        None => Err(FetchError::TransientHttp),
        Some(code) => match spec_status_error(code) {
            Some(error) => Err(error),
            None => match decoded {
                Some(snapshot) => Ok(snapshot),
                None => Err(FetchError::ParseError),
            },
        },
    }
}

/// The outcome of a poll of the listings. Every failure is returned as a
/// value; the caller decides what becomes of the last good snapshot.
pub fn poll_listings(status: Option<u16>, decoded: Option<Vec<CryptoCurrency>>) -> (outcome: Result<
    Vec<CryptoCurrency>,
    FetchError,
>)
    ensures
        outcome == spec_poll_listings(status, decoded),
{
    match status {
        None => Err(FetchError::TransientHttp),
        Some(code) => match status_error(code) {
            Some(error) => Err(error),
            None => match decoded {
                Some(snapshot) => Ok(snapshot),
                None => Err(FetchError::ParseError),
            },
        },
    }
}

/// One tick of the scheduler ended with `outcome` at `now`. A snapshot
/// replaces the cached one, takes `now` as its time, and is handed back to
/// be published. A failure, of whatever kind, leaves the cache as it is:
/// the last good snapshot and its time stand.
pub fn fetch_data_periodically(
    cache: &mut LatestCache,
    outcome: Result<Vec<CryptoCurrency>, FetchError>,
    now: u64,
) -> (publish: Result<Vec<CryptoCurrency>, FetchError>)
    ensures
        publish == outcome,
        match outcome {
            Ok(snapshot) => {
                &&& final(cache).last_fetch == now
                &&& final(cache).snapshot matches Some(held)
                &&& snapshot_view(held@) == snapshot_view(snapshot@)
            },
            Err(_) => *final(cache) == *old(cache),
        },
{
    match outcome {
        Ok(snapshot) => {
            cache.store(clone_snapshot(&snapshot), now);
            Ok(snapshot)
        },
        Err(error) => Err(error),
    }
}

/// The table from normalised symbol to identifier that a catalogue stands
/// for; of two entries with one symbol the later one counts.
pub open spec fn spec_mapping_of(entries: Seq<CmcCurrency>) -> Map<Seq<char>, u32>
    decreases entries.len(),
{
    if entries.len() == 0 {
        Map::empty()
    } else {
        spec_mapping_of(entries.drop_last()).insert(
            ascii_upper(entries.last().symbol@),
            entries.last().id,
        )
    }
}

/// The table from normalised symbol to identifier that a catalogue stands
/// for.
pub fn mapping_of(entries: &Vec<CmcCurrency>) -> (mapping: KeyedStore<u32>)
    ensures
        mapping.well_formed(),
        mapping@ == spec_mapping_of(entries@),
{
    let mut mapping: KeyedStore<u32> = KeyedStore::new();
    let mut i: usize = 0;
    while i < entries.len()
        invariant
            i <= entries.len(),
            mapping.well_formed(),
            mapping@ == spec_mapping_of(entries@.take(i as int)),
        decreases entries.len() - i,
    {
        proof {
            let next = entries@.take(i + 1);
            assert(next.drop_last() =~= entries@.take(i as int));
            assert(next.last() == entries@[i as int]);
        }
        mapping.insert(to_ascii_upper(entries[i].symbol.as_str()), entries[i].id);
        i = i + 1;
    }
    assert(entries@.take(entries.len() as int) =~= entries@);
    mapping
}

/// The answer of the upstream to the request for its catalogue.
#[derive(Debug)]
pub enum MappingReply {
    /// The request could not be sent.
    Failed { detail: String },
    /// The upstream answered with a status outside success.
    Refused { status: u16, reason: String },
    /// The body of the answer was no catalogue.
    Unreadable { detail: String },
    /// The upstream answered with a catalogue.
    Catalogue(CmcMappingResponse),
}

/// The text of an optional message; `Unknown error` where there is none.
pub open spec fn spec_error_message(message: Option<String>) -> Seq<char> {
    match message {
        Some(text) => text@,
        None => "Unknown error"@,
    }
}

/// The message with which loading the catalogue fails; `None` where it
/// succeeds.
pub open spec fn spec_mapping_failure(reply: MappingReply) -> Option<Seq<char>> {
    match reply {
        MappingReply::Failed { detail } => Some("Failed to send CMC mapping request: "@ + detail@),
        MappingReply::Refused { status, reason } => Some(
            "CMC mapping request failed with status: "@ + decimal(status as nat) + " "@ + reason@,
        ),
        MappingReply::Unreadable { detail } => Some(
            "Failed to parse CMC mapping response: "@ + detail@,
        ),
        MappingReply::Catalogue(catalogue) => if catalogue.status.error_code == 0 {
            None
        } else {
            Some(
                "CMC API error: "@ + spec_error_message(catalogue.status.error_message)
                    + " (code: "@ + decimal(catalogue.status.error_code as nat) + ")"@,
            )
        },
    }
}

/// Loads the catalogue of the upstream: a catalogue without error replaces
/// the table; anything else leaves the table as it is and is reported.
pub fn fetch_cmc_mapping(mapping: &mut KeyedStore<u32>, reply: &MappingReply) -> (loaded: Result<
    (),
    String,
>)
    requires
        old(mapping).well_formed(),
    ensures
        final(mapping).well_formed(),
        match spec_mapping_failure(*reply) {
            Some(message) => {
                &&& loaded matches Err(text)
                &&& text@ == message
                &&& *final(mapping) == *old(mapping)
            },
            None => {
                &&& loaded is Ok
                &&& reply matches MappingReply::Catalogue(catalogue)
                &&& final(mapping)@ == spec_mapping_of(catalogue.data@)
            },
        },
{
    match reply {
        MappingReply::Failed { detail } => {
            let mut message = String::from_str("Failed to send CMC mapping request: ");
            message.append(detail.as_str());
            Err(message)
        },
        MappingReply::Refused { status, reason } => {
            let mut message = String::from_str("CMC mapping request failed with status: ");
            push_decimal(&mut message, *status as u64);
            message.append(" ");
            message.append(reason.as_str());
            Err(message)
        },
        MappingReply::Unreadable { detail } => {
            let mut message = String::from_str("Failed to parse CMC mapping response: ");
            message.append(detail.as_str());
            Err(message)
        },
        MappingReply::Catalogue(catalogue) => {
            if catalogue.status.error_code == 0 {
                *mapping = mapping_of(&catalogue.data);
                Ok(())
            } else {
                let mut message = String::from_str("CMC API error: ");
                match &catalogue.status.error_message {
                    Some(text) => {
                        message.append(text.as_str());
                    },
                    None => {
                        message.append("Unknown error");
                    },
                }
                message.append(" (code: ");
                push_decimal(&mut message, catalogue.status.error_code as u64);
                message.append(")");
                Err(message)
            }
        },
    }
}

} // verus!
