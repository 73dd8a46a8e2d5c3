//! The one client of an embedding process. The process holds it in a slot
//! that is empty until the client is initialised; the functions here work
//! on that slot, which the caller guards.

use vstd::prelude::*;
use crate::client::{MQTTClient, MAX_RETRY_ATTEMPTS};
use crate::types::HistoricalDataResult;

verus! {

/// Puts a client that has seen nothing yet into the slot, in place of the
/// one that may be there.
pub fn init_mqtt_client(slot: &mut Option<MQTTClient>) -> (done: Result<(), String>)
    ensures
        done is Ok,
        *final(slot) matches Some(client) && {
            &&& client.well_formed()
            &&& client.latest_prices is None
            &&& client.historical_data@ == Map::<Seq<char>, HistoricalDataResult>::empty()
            &&& !client.is_connected
            &&& client.connection_attempts == 0
            &&& client.max_retry_attempts == MAX_RETRY_ATTEMPTS
            &&& !client.callback_registered
        },
{
    *slot = Some(MQTTClient::new());
    Ok(())
}

/// Applies `f` to the client in the slot, if there is one.
pub fn with_mqtt_client<T, F>(slot: &Option<MQTTClient>, f: F) -> (result: Option<T>) where
    F: FnOnce(&MQTTClient) -> T,

    requires
        slot matches Some(client) ==> f.requires((client,)),
    ensures
        match slot {
            Some(client) => result matches Some(value) && f.ensures((client,), value),
            None => result is None,
        },
{
    match slot {
        Some(client) => Some(f(client)),
        None => None,
    }
}

/// Whether there is a client in the slot and it is connected.
pub fn is_mqtt_connected(slot: &Option<MQTTClient>) -> (connected: bool)
    ensures
        connected == (slot matches Some(client) && client.is_connected),
{
    match slot {
        Some(client) => client.is_connected(),
        None => false,
    }
}

/// Resets the error counter of the client in the slot, if there is one.
pub fn reset_mqtt_connection_attempts(slot: &mut Option<MQTTClient>)
    ensures
        match *old(slot) {
            Some(client) => *final(slot) == Some(
                MQTTClient { connection_attempts: 0, ..client },
            ),
            None => *final(slot) is None,
        },
{
    match slot {
        Some(client) => {
            client.reset_connection_attempts();
        },
        None => {},
    }
}

} // verus!
