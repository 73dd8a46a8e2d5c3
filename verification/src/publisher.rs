//! What the publisher puts on the bus: for each kind of value, the topics,
//! the quality of service and the retention with which it is published.
//! Values arrive here already serialised; a value that could not be
//! serialised arrives as `None`.

use vstd::prelude::*;
use vstd::string::*;
use crate::topics::{
    historical_topic, price_topic, spec_historical_topic, spec_price_topic, LATEST_PRICES_TOPIC,
};

verus! {

/// Delivery guarantee of a message.
#[derive(Clone, Copy, Debug, PartialEq, Eq, Structural)]
pub enum QoS {
    AtMostOnce,
    AtLeastOnce,
    ExactlyOnce,
}

/// One message to publish.
#[derive(Debug)]
pub struct Publication {
    pub topic: String,
    pub qos: QoS,
    pub retain: bool,
    pub payload: String,
}

/// Model of a `Publication`: its texts as characters.
pub struct PublicationView {
    pub topic: Seq<char>,
    pub qos: QoS,
    pub retain: bool,
    pub payload: Seq<char>,
}

impl View for Publication {
    type V = PublicationView;

    open spec fn view(&self) -> PublicationView {
        PublicationView {
            topic: self.topic@,
            qos: self.qos,
            retain: self.retain,
            payload: self.payload@,
        }
    }
}

/// The models of a sequence of publications, in order.
pub open spec fn publications_view(publications: Seq<Publication>) -> Seq<PublicationView> {
    Seq::new(publications.len(), |i: int| publications[i]@)
}

/// One subscription to make.
#[derive(Debug)]
pub struct Subscription {
    pub topic: String,
    pub qos: QoS,
}

/// One instrument of a snapshot, as the publisher needs it: its symbol, and
/// its serialised form where serialising it succeeded.
#[derive(Debug)]
pub struct SerializedInstrument {
    pub symbol: String,
    pub payload: Option<String>,
}

/// The publication of the full snapshot.
pub open spec fn spec_latest_publication(payload: Seq<char>) -> PublicationView {
    PublicationView { topic: LATEST_PRICES_TOPIC@, qos: QoS::AtLeastOnce, retain: true, payload }
}

/// The publication of one instrument.
pub open spec fn spec_instrument_publication(symbol: Seq<char>, payload: Seq<char>) -> PublicationView {
    PublicationView {
        topic: spec_price_topic(symbol),
        qos: QoS::AtLeastOnce,
        retain: true,
        payload,
    }
}

/// The publications of the instruments of a snapshot, in order; an
/// instrument without serialised form is passed over.
pub open spec fn spec_instrument_publications(instruments: Seq<SerializedInstrument>) -> Seq<
    PublicationView,
>
    decreases instruments.len(),
{
    if instruments.len() == 0 {
        Seq::empty()
    } else {
        let before = spec_instrument_publications(instruments.drop_last());
        match instruments.last().payload {
            Some(payload) => before.push(
                spec_instrument_publication(instruments.last().symbol@, payload@),
            ),
            None => before,
        }
    }
}

/// The publications of a snapshot: the full snapshot first, then each
/// instrument. Nothing where the full snapshot has no serialised form.
pub open spec fn spec_snapshot_publications(
    snapshot_payload: Option<String>,
    instruments: Seq<SerializedInstrument>,
) -> Seq<PublicationView> {
    match snapshot_payload {
        Some(payload) => seq![spec_latest_publication(payload@)] + spec_instrument_publications(
            instruments,
        ),
        None => Seq::empty(),
    }
}

/// The publications of a snapshot: the full snapshot on the topic of the
/// latest prices, then each instrument on its own topic, all retained and
/// delivered at least once.
pub fn publish_crypto_data_to_mqtt(
    snapshot_payload: &Option<String>,
    instruments: &Vec<SerializedInstrument>,
) -> (publications: Vec<Publication>)
    ensures
        publications_view(publications@) == spec_snapshot_publications(
            *snapshot_payload,
            instruments@,
        ),
{
    let mut publications: Vec<Publication> = Vec::new();
    let payload = match snapshot_payload {
        Some(p) => p,
        None => {
            assert(publications_view(publications@) =~= Seq::<PublicationView>::empty());
            return publications;
        },
    };
    publications.push(
        Publication {
            topic: String::from_str(LATEST_PRICES_TOPIC),
            qos: QoS::AtLeastOnce,
            retain: true,
            payload: payload.clone(),
        },
    );
    let mut i: usize = 0;
    while i < instruments.len()
        invariant
            i <= instruments.len(),
            publications_view(publications@) == seq![spec_latest_publication(payload@)]
                + spec_instrument_publications(instruments@.take(i as int)),
        decreases instruments.len() - i,
    {
        let ghost before = publications_view(publications@);
        proof {
            let next = instruments@.take(i + 1);
            assert(next.drop_last() =~= instruments@.take(i as int));
            assert(next.last() == instruments@[i as int]);
        }
        match &instruments[i].payload {
            Some(p) => {
                publications.push(
                    Publication {
                        topic: price_topic(instruments[i].symbol.as_str()),
                        qos: QoS::AtLeastOnce,
                        retain: true,
                        payload: p.clone(),
                    },
                );
                assert(publications_view(publications@) =~= before.push(
                    spec_instrument_publication(instruments@[i as int].symbol@, p@),
                ));
            },
            None => {},
        }
        i = i + 1;
    }
    assert(instruments@.take(instruments.len() as int) =~= instruments@);
    publications
}

/// The publication of the series of `symbol` over `timeframe`.
pub open spec fn spec_history_publication(
    symbol: Seq<char>,
    timeframe: Seq<char>,
    payload: Seq<char>,
) -> PublicationView {
    PublicationView {
        topic: spec_historical_topic(symbol, timeframe),
        qos: QoS::AtMostOnce,
        retain: true,
        payload,
    }
}

/// The publication of a series: retained, delivered at most once, on the
/// topic of the normalised symbol and the timeframe. Nothing where the
/// series has no serialised form.
pub fn publish_historical_data_to_mqtt(symbol: &str, timeframe: &str, payload: Option<String>) -> (
    publication: Option<Publication>
)
    ensures
        match payload {
            Some(p) => publication matches Some(made) && made@ == spec_history_publication(
                symbol@,
                timeframe@,
                p@,
            ),
            None => publication is None,
        },
{
    match payload {
        Some(p) => Some(
            Publication {
                topic: historical_topic(symbol, timeframe),
                qos: QoS::AtMostOnce,
                retain: true,
                payload: p,
            },
        ),
        None => None,
    }
}

/// The publication that clears what the broker retains for `topic`.
pub open spec fn spec_clearing_publication(topic: Seq<char>) -> PublicationView {
    PublicationView { topic, qos: QoS::AtLeastOnce, retain: true, payload: Seq::empty() }
}

/// The publication that makes the broker drop what it retains for `topic`:
/// an empty payload, retained.
pub fn publish_empty_retained_message(topic: &str) -> (publication: Publication)
    ensures
        publication@ == spec_clearing_publication(topic@),
{
    Publication {
        topic: topic.to_owned(),
        qos: QoS::AtLeastOnce,
        retain: true,
        payload: String::new(),
    }
}

} // verus!
