//! The lifecycle of a device: which of the three transitions is allowed in
//! which state, and what each one does to the store.
//!
//! A device is `Unknown` until it is registered, `Registered` while it has
//! no binding, and `Bound` while it has one. A registration is allowed only
//! from `Unknown`, a binding or an unbinding only from `Registered` or
//! `Bound`, and a reading only from `Bound`. A transition that is refused
//! changes nothing.

use crate::error::LifecycleError;
use crate::error::Outcome;
use crate::error::Rejection;
use crate::payload::truthy;
use crate::payload::BindingRecord;
use crate::payload::DataRecord;
use crate::payload::DataView;
use crate::payload::RegistrationRecord;
use crate::store::DeviceState;
use crate::store::StoreView;
use crate::store::lemma_data_for_after_append;
use vstd::prelude::*;

verus! {

/// A transition asked of the lifecycle.
#[derive(Debug, Clone, PartialEq, Eq)]
pub enum Command {
    /// Register a device to a vehicle.
    Register(RegistrationRecord),
    /// Bind a device to a wallet, or unbind it.
    SetBinding(BindingRecord),
    /// Take in a reading of a device.
    Ingest(DataRecord),
}

impl Command {
    /// The device that the command is about.
    pub open spec fn device(self) -> Seq<char> {
        match self {
            Command::Register(record) => record.device_id@,
            Command::SetBinding(record) => record.device_id@,
            Command::Ingest(record) => record.device_id@,
        }
    }

    /// The device that the command is about.
    pub fn device_id(&self) -> (device_id: &str)
        ensures
            device_id@ == self.device(),
    {
        match self {
            Command::Register(record) => record.device_id.as_str(),
            Command::SetBinding(record) => record.device_id.as_str(),
            Command::Ingest(record) => record.device_id.as_str(),
        }
    }
}

/// The outcome of a refused transition.
pub open spec fn rejected(reason: Rejection) -> Outcome {
    Err(LifecycleError::PreconditionRejected(reason))
}

impl StoreView {
    /// Registration: refused for a device that has a registry row, else
    /// the row is created.
    pub open spec fn register(self, device_id: Seq<char>, vehicle_id: Seq<char>) -> (
        StoreView,
        Outcome,
    ) {
        if self.registered(device_id) {
            (self, rejected(Rejection::AlreadyRegistered))
        } else {
            (self.with_registration(device_id, vehicle_id), Ok(()))
        }
    }

    /// Binding: refused for a device that has no registry row; else a
    /// truthy flag binds the device to the wallet, and any other flag
    /// removes its binding.
    pub open spec fn set_binding(
        self,
        device_id: Seq<char>,
        owner_wallet: Seq<char>,
        binding_flag: Seq<char>,
    ) -> (StoreView, Outcome) {
        if !self.registered(device_id) {
            (self, rejected(Rejection::NotRegistered))
        } else if truthy(binding_flag) {
            (self.with_binding(device_id, owner_wallet), Ok(()))
        } else {
            (self.without_binding(device_id), Ok(()))
        }
    }

    /// Ingestion: refused for a device that has no registry row, then for
    /// one that has no binding row; else the reading is appended to the
    /// log as it came.
    pub open spec fn ingest(self, device_id: Seq<char>, message: Seq<char>, timestamp: Seq<char>) -> (
        StoreView,
        Outcome,
    ) {
        if !self.registered(device_id) {
            (self, rejected(Rejection::NotRegistered))
        } else if !self.bound(device_id) {
            (self, rejected(Rejection::NotBound))
        } else {
            (self.with_data(DataView { device_id, message, timestamp }), Ok(()))
        }
    }

    /// The store after a command, and how the command ended.
    pub open spec fn apply(self, command: Command) -> (StoreView, Outcome) {
        match command {
            Command::Register(record) => self.register(record.device_id@, record.vehicle_id@),
            Command::SetBinding(record) => self.set_binding(
                record.device_id@,
                record.owner_wallet@,
                record.binding_flag@,
            ),
            Command::Ingest(record) => self.ingest(
                record.device_id@,
                record.message@,
                record.timestamp@,
            ),
        }
    }
}

/// The texts `true` and `True` ask for a bind, the text `false` for an
/// unbind.
pub proof fn lemma_flag_texts()
    ensures
        truthy("true"@),
        truthy("True"@),
        !truthy("false"@),
{
    reveal_strlit("true");
    reveal_strlit("True");
    reveal_strlit("false");
    assert("true"@.len() == 4);
    assert("True"@.len() == 4);
    assert("false"@.len() == 5);
}

/// A device that is not registered can be registered, and is `Registered`
/// with its vehicle afterwards. A second registration of the same device is
/// refused, whatever vehicle it names, and changes nothing.
pub proof fn law_register_once(
    store: StoreView,
    device_id: Seq<char>,
    vehicle_id: Seq<char>,
    other_vehicle: Seq<char>,
)
    requires
        store.coherent(),
        store.state_of(device_id) == DeviceState::Unknown,
    ensures
        store.register(device_id, vehicle_id).1 is Ok,
        store.register(device_id, vehicle_id).0.state_of(device_id) == DeviceState::Registered,
        store.register(device_id, vehicle_id).0.registry[device_id] == vehicle_id,
        store.register(device_id, vehicle_id).0.register(device_id, other_vehicle) == (
            store.register(device_id, vehicle_id).0,
            rejected(Rejection::AlreadyRegistered),
        ),
{
}

/// A binding with a truthy flag leaves a device that was `Registered` or
/// `Bound` in the state `Bound`, with the wallet of the event as its owner.
pub proof fn law_bind(
    store: StoreView,
    device_id: Seq<char>,
    owner_wallet: Seq<char>,
    binding_flag: Seq<char>,
)
    requires
        store.state_of(device_id) == DeviceState::Registered || store.state_of(device_id)
            == DeviceState::Bound,
        truthy(binding_flag),
    ensures
        store.set_binding(device_id, owner_wallet, binding_flag).1 is Ok,
        store.set_binding(device_id, owner_wallet, binding_flag).0.state_of(device_id)
            == DeviceState::Bound,
        store.set_binding(device_id, owner_wallet, binding_flag).0.binding[device_id]
            == owner_wallet,
{
}

/// A binding with a flag that is not truthy leaves a device that was
/// `Bound` in the state `Registered`, without a binding row, and changes
/// nothing for a device that was `Registered`.
pub proof fn law_unbind(
    store: StoreView,
    device_id: Seq<char>,
    owner_wallet: Seq<char>,
    binding_flag: Seq<char>,
)
    requires
        store.state_of(device_id) == DeviceState::Registered || store.state_of(device_id)
            == DeviceState::Bound,
        !truthy(binding_flag),
    ensures
        store.set_binding(device_id, owner_wallet, binding_flag).1 is Ok,
        store.set_binding(device_id, owner_wallet, binding_flag).0.state_of(device_id)
            == DeviceState::Registered,
        !store.set_binding(device_id, owner_wallet, binding_flag).0.bound(device_id),
        store.state_of(device_id) == DeviceState::Registered ==> store.set_binding(
            device_id,
            owner_wallet,
            binding_flag,
        ).0 == store,
{
    if store.state_of(device_id) == DeviceState::Registered {
        assert(store.binding.remove(device_id) =~= store.binding);
    }
}

/// The flag `true` binds a device that is `Registered` or `Bound` to the
/// wallet of the event, and the flag `false` leaves a device that was
/// `Bound` in the state `Registered`, without a binding row.
pub proof fn law_true_binds_and_false_unbinds(
    store: StoreView,
    device_id: Seq<char>,
    owner_wallet: Seq<char>,
)
    requires
        store.state_of(device_id) == DeviceState::Registered || store.state_of(device_id)
            == DeviceState::Bound,
    ensures
        store.set_binding(device_id, owner_wallet, "true"@).1 is Ok,
        store.set_binding(device_id, owner_wallet, "true"@).0.state_of(device_id)
            == DeviceState::Bound,
        store.set_binding(device_id, owner_wallet, "true"@).0.binding[device_id] == owner_wallet,
        store.state_of(device_id) == DeviceState::Bound ==> {
            &&& store.set_binding(device_id, owner_wallet, "false"@).1 is Ok
            &&& store.set_binding(device_id, owner_wallet, "false"@).0.state_of(device_id)
                == DeviceState::Registered
            &&& !store.set_binding(device_id, owner_wallet, "false"@).0.bound(device_id)
        },
{
    lemma_flag_texts();
}

/// A binding event that is sent again after it was applied is applied
/// again and leaves the store as the first one left it.
pub proof fn law_binding_absorbs_replay(
    store: StoreView,
    device_id: Seq<char>,
    owner_wallet: Seq<char>,
    binding_flag: Seq<char>,
)
    requires
        store.set_binding(device_id, owner_wallet, binding_flag).1 is Ok,
    ensures
        store.set_binding(device_id, owner_wallet, binding_flag).0.set_binding(
            device_id,
            owner_wallet,
            binding_flag,
        ) == store.set_binding(device_id, owner_wallet, binding_flag),
{
    let once = store.set_binding(device_id, owner_wallet, binding_flag).0;
    let twice = once.set_binding(device_id, owner_wallet, binding_flag).0;
    assert(twice.binding =~= once.binding);
}

/// A binding for a device that is `Unknown` is refused, whatever its flag,
/// and the device has no binding row afterwards.
pub proof fn law_binding_needs_registration(
    store: StoreView,
    device_id: Seq<char>,
    owner_wallet: Seq<char>,
    binding_flag: Seq<char>,
)
    requires
        store.coherent(),
        store.state_of(device_id) == DeviceState::Unknown,
    ensures
        store.set_binding(device_id, owner_wallet, binding_flag) == (
            store,
            rejected(Rejection::NotRegistered),
        ),
        !store.set_binding(device_id, owner_wallet, binding_flag).0.bound(device_id),
{
}

/// A reading is taken in exactly when its device is `Bound`. It then adds
/// one row to the log, with the message and the timestamp as they came,
/// which a lookup of the device's rows shows last; it changes no registry
/// or binding row, and so the state of no device.
pub proof fn law_ingest(
    store: StoreView,
    device_id: Seq<char>,
    message: Seq<char>,
    timestamp: Seq<char>,
)
    ensures
        store.ingest(device_id, message, timestamp).1 is Ok <==> store.state_of(device_id)
            == DeviceState::Bound,
        store.state_of(device_id) == DeviceState::Bound ==> {
            let row = DataView { device_id, message, timestamp };
            let after = store.ingest(device_id, message, timestamp).0;
            &&& after.data == store.data.push(row)
            &&& after.data_for(device_id) == store.data_for(device_id).push(row)
            &&& after.registry == store.registry
            &&& after.binding == store.binding
        },
        forall|other: Seq<char>|
            store.ingest(device_id, message, timestamp).0.state_of(other) == store.state_of(other),
{
    let row = DataView { device_id, message, timestamp };
    lemma_data_for_after_append(store, row, device_id);
}

/// A command that is refused changes nothing.
pub proof fn law_refusal_changes_nothing(store: StoreView, command: Command)
    requires
        store.apply(command).1 is Err,
    ensures
        store.apply(command).0 == store,
{
}

/// The outcome of a command is decided by the state of its device alone.
pub proof fn law_outcome_by_state(store: StoreView, command: Command)
    ensures
        store.apply(command).1 == match command {
            Command::Register(_) => if store.state_of(command.device()) == DeviceState::Unknown {
                Ok(())
            } else {
                rejected(Rejection::AlreadyRegistered)
            },
            Command::SetBinding(_) => if store.state_of(command.device()) == DeviceState::Unknown {
                rejected(Rejection::NotRegistered)
            } else {
                Ok(())
            },
            Command::Ingest(_) => match store.state_of(command.device()) {
                DeviceState::Unknown => rejected(Rejection::NotRegistered),
                DeviceState::Registered => rejected(Rejection::NotBound),
                DeviceState::Bound => Ok(()),
            },
        },
{
}

/// Commands keep a coherent store coherent.
pub proof fn law_coherence_is_kept(store: StoreView, command: Command)
    requires
        store.coherent(),
    ensures
        store.apply(command).0.coherent(),
{
}

/// No command removes or changes a registry row.
pub proof fn law_registry_is_permanent(store: StoreView, command: Command, device_id: Seq<char>)
    requires
        store.registered(device_id),
    ensures
        store.apply(command).0.registered(device_id),
        store.apply(command).0.registry[device_id] == store.registry[device_id],
{
}

/// No command removes or changes a data row: the log before is a prefix of
/// the log after.
pub proof fn law_data_only_grows(store: StoreView, command: Command)
    ensures
        store.data.is_prefix_of(store.apply(command).0.data),
{
}

} // verus!
