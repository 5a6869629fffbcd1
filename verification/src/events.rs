//! The three event handlers: each decodes one payload, asks the lifecycle
//! for the transition, and reports how it ended.

use crate::error::exit_code;
use crate::error::status_of;
use crate::error::LifecycleError;
use crate::error::Outcome;
use crate::error::StoreError;
use crate::lifecycle::Command;
use crate::machine::found;
use crate::machine::run;
use crate::payload::binding_of;
use crate::payload::data_of;
use crate::payload::decode_binding;
use crate::payload::decode_data;
use crate::payload::decode_registration;
use crate::payload::registration_of;
use crate::payload::BindingRecord;
use crate::payload::DataRecord;
use crate::payload::RegistrationRecord;
use crate::statement::Relation;
use crate::store::DeviceStore;
use crate::store::StoreView;
use vstd::prelude::*;

verus! {

/// Whether a device is registered: whether the registry has a row for it.
pub fn is_registered(store: &DeviceStore, device_id: &str) -> (present: Result<bool, StoreError>)
    ensures
        present == Ok::<bool, StoreError>(store@.registered(device_id@)),
{
    found(store.lookup(Relation::Registry, device_id))
}

/// Whether a device is bound: whether there is a binding row for it.
pub fn is_bound(store: &DeviceStore, device_id: &str) -> (present: Result<bool, StoreError>)
    ensures
        present == Ok::<bool, StoreError>(store@.bound(device_id@)),
{
    found(store.lookup(Relation::Binding, device_id))
}

/// Registers a device to a vehicle, if it is not registered yet.
pub fn register_device(
    store: &mut DeviceStore,
    device_id: &str,
    vehicle_id: &str,
) -> (outcome: Outcome)
    ensures
        (final(store)@, outcome) == old(store)@.register(device_id@, vehicle_id@),
{
    run(
        store,
        Command::Register(
            RegistrationRecord { device_id: device_id.to_owned(), vehicle_id: vehicle_id.to_owned() },
        ),
    )
}

/// Binds a registered device to a wallet where the flag is truthy, and
/// unbinds it where it is not.
pub fn set_binding(
    store: &mut DeviceStore,
    device_id: &str,
    owner_wallet: &str,
    binding_flag: &str,
) -> (outcome: Outcome)
    ensures
        (final(store)@, outcome) == old(store)@.set_binding(
            device_id@,
            owner_wallet@,
            binding_flag@,
        ),
{
    run(
        store,
        Command::SetBinding(
            BindingRecord {
                device_id: device_id.to_owned(),
                owner_wallet: owner_wallet.to_owned(),
                binding_flag: binding_flag.to_owned(),
            },
        ),
    )
}

/// Takes in a reading of a device that is registered and bound.
pub fn ingest_data(
    store: &mut DeviceStore,
    device_id: &str,
    message: &str,
    timestamp: &str,
) -> (outcome: Outcome)
    ensures
        (final(store)@, outcome) == old(store)@.ingest(device_id@, message@, timestamp@),
{
    run(
        store,
        Command::Ingest(
            DataRecord {
                device_id: device_id.to_owned(),
                message: message.to_owned(),
                timestamp: timestamp.to_owned(),
            },
        ),
    )
}

/// What a registration event does to a store: nothing where the payload
/// does not decode, else what the registration of the decoded record does.
pub open spec fn registration_event(store: StoreView, payload: Seq<u8>) -> (StoreView, Outcome) {
    match registration_of(payload) {
        Ok(record) => store.register(record.device_id, record.vehicle_id),
        Err(e) => (store, Err(LifecycleError::Decode(e))),
    }
}

/// What a binding event does to a store.
pub open spec fn binding_event(store: StoreView, payload: Seq<u8>) -> (StoreView, Outcome) {
    match binding_of(payload) {
        Ok(record) => store.set_binding(
            record.device_id,
            record.owner_wallet,
            record.binding_flag,
        ),
        Err(e) => (store, Err(LifecycleError::Decode(e))),
    }
}

/// What a data event does to a store.
pub open spec fn data_event(store: StoreView, payload: Seq<u8>) -> (StoreView, Outcome) {
    match data_of(payload) {
        Ok(record) => store.ingest(record.device_id, record.message, record.timestamp),
        Err(e) => (store, Err(LifecycleError::Decode(e))),
    }
}

/// Handles a registration event, and says why where it was not applied.
pub fn process_registration(store: &mut DeviceStore, payload: &[u8]) -> (outcome: Outcome)
    ensures
        (final(store)@, outcome) == registration_event(old(store)@, payload@),
{
    match decode_registration(payload) {
        Ok(record) => run(store, Command::Register(record)),
        Err(e) => Err(LifecycleError::Decode(e)),
    }
}

/// Handles a binding event, and says why where it was not applied.
pub fn process_binding(store: &mut DeviceStore, payload: &[u8]) -> (outcome: Outcome)
    ensures
        (final(store)@, outcome) == binding_event(old(store)@, payload@),
{
    match decode_binding(payload) {
        Ok(record) => run(store, Command::SetBinding(record)),
        Err(e) => Err(LifecycleError::Decode(e)),
    }
}

/// Handles a data event, and says why where it was not applied.
pub fn process_data(store: &mut DeviceStore, payload: &[u8]) -> (outcome: Outcome)
    ensures
        (final(store)@, outcome) == data_event(old(store)@, payload@),
{
    match decode_data(payload) {
        Ok(record) => run(store, Command::Ingest(record)),
        Err(e) => Err(LifecycleError::Decode(e)),
    }
}

/// Handles a registration event: 0 where the device was registered, -1
/// where the payload did not decode or the device was registered before.
pub fn handle_device_registered(store: &mut DeviceStore, payload: &[u8]) -> (code: i32)
    ensures
        final(store)@ == registration_event(old(store)@, payload@).0,
        code == status_of(registration_event(old(store)@, payload@).1),
{
    let outcome = process_registration(store, payload);
    exit_code(&outcome)
}

/// Handles a binding event: 0 where the device was bound or unbound, -1
/// where the payload did not decode or the device is not registered.
pub fn handle_device_binding(store: &mut DeviceStore, payload: &[u8]) -> (code: i32)
    ensures
        final(store)@ == binding_event(old(store)@, payload@).0,
        code == status_of(binding_event(old(store)@, payload@).1),
{
    let outcome = process_binding(store, payload);
    exit_code(&outcome)
}

/// Handles a data event: 0 where the reading was taken in, -1 where the
/// payload did not decode or the device is not registered and bound.
pub fn handle_device_data(store: &mut DeviceStore, payload: &[u8]) -> (code: i32)
    ensures
        final(store)@ == data_event(old(store)@, payload@).0,
        code == status_of(data_event(old(store)@, payload@).1),
{
    let outcome = process_data(store, payload);
    exit_code(&outcome)
}

} // verus!
