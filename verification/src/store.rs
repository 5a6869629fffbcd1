//! The device state store: the registry, the bindings and the data log,
//! held in memory, with the reads and writes that the lifecycle needs.
//!
//! The registry has at most one row for each device and a row, once there,
//! stays as it is. A binding row is there while the device is bound. The
//! data log only grows. A store is coherent when every binding and every
//! data row belongs to a registered device; every `DeviceStore` is.

use crate::error::Reply;
use crate::error::StoreError;
use crate::payload::DataRecord;
use crate::payload::DataView;
use crate::statement::Relation;
use crate::statement::Statement;
use crate::table::Table;
use crate::text::same_text;
use vstd::prelude::*;

verus! {

/// Where a device stands in its lifecycle.
#[derive(Debug, Clone, Copy, PartialEq, Eq, Structural)]
pub enum DeviceState {
    /// No registry row.
    Unknown,
    /// A registry row and no binding row.
    Registered,
    /// A registry row and a binding row.
    Bound,
}

/// What a store holds: the vehicle of each registered device, the owner's
/// wallet of each bound device, and the data rows in the order they came.
pub struct StoreView {
    pub registry: Map<Seq<char>, Seq<char>>,
    pub binding: Map<Seq<char>, Seq<char>>,
    pub data: Seq<DataView>,
}

impl StoreView {
    /// The store without any row.
    pub open spec fn empty() -> StoreView {
        StoreView { registry: Map::empty(), binding: Map::empty(), data: Seq::empty() }
    }

    /// Whether the registry has a row for the device.
    pub open spec fn registered(self, device_id: Seq<char>) -> bool {
        self.registry.contains_key(device_id)
    }

    /// Whether there is a binding row for the device.
    pub open spec fn bound(self, device_id: Seq<char>) -> bool {
        self.binding.contains_key(device_id)
    }

    /// The state that the rows give the device.
    pub open spec fn state_of(self, device_id: Seq<char>) -> DeviceState {
        if !self.registered(device_id) {
            DeviceState::Unknown
        } else if !self.bound(device_id) {
            DeviceState::Registered
        } else {
            DeviceState::Bound
        }
    }

    /// Every binding and every data row belongs to a registered device.
    pub open spec fn coherent(self) -> bool {
        &&& forall|device_id: Seq<char>|
            self.binding.contains_key(device_id) ==> self.registry.contains_key(device_id)
        &&& forall|i: int|
            0 <= i < self.data.len() ==> self.registry.contains_key(
                (#[trigger] self.data[i]).device_id,
            )
    }

    /// The data rows of one device, in the order they came.
    pub open spec fn data_for(self, device_id: Seq<char>) -> Seq<DataView> {
        self.data.filter(|row: DataView| row.device_id == device_id)
    }

    /// The store with a registry row put in.
    pub open spec fn with_registration(
        self,
        device_id: Seq<char>,
        vehicle_id: Seq<char>,
    ) -> StoreView {
        StoreView { registry: self.registry.insert(device_id, vehicle_id), ..self }
    }

    /// The store with the device bound to a wallet, whatever it was bound
    /// to before.
    pub open spec fn with_binding(self, device_id: Seq<char>, owner_wallet: Seq<char>) -> StoreView {
        StoreView { binding: self.binding.insert(device_id, owner_wallet), ..self }
    }

    /// The store with the device's binding row taken out, if it had one.
    pub open spec fn without_binding(self, device_id: Seq<char>) -> StoreView {
        StoreView { binding: self.binding.remove(device_id), ..self }
    }

    /// The store with one more data row at the end of the log.
    pub open spec fn with_data(self, row: DataView) -> StoreView {
        StoreView { data: self.data.push(row), ..self }
    }

    /// Whether a statement may be run: a registry row is created only for
    /// a device that has none, a binding row only for a registered device,
    /// a data row only for a device that is registered and bound.
    pub open spec fn admits(self, statement: Statement) -> bool {
        match statement {
            Statement::InsertRegistry { device_id, .. } => !self.registered(device_id@),
            Statement::InsertBinding { device_id, .. } => self.registered(device_id@),
            Statement::InsertData { device_id, .. } => self.registered(device_id@) && self.bound(
                device_id@,
            ),
            _ => true,
        }
    }

    /// The store after a statement has run.
    pub open spec fn after(self, statement: Statement) -> StoreView {
        match statement {
            Statement::Select { .. } => self,
            Statement::InsertRegistry { device_id, vehicle_id } => self.with_registration(
                device_id@,
                vehicle_id@,
            ),
            Statement::InsertBinding { device_id, owner_wallet } => self.with_binding(
                device_id@,
                owner_wallet@,
            ),
            Statement::DeleteBinding { device_id } => self.without_binding(device_id@),
            Statement::InsertData { device_id, message, timestamp } => self.with_data(
                DataView { device_id: device_id@, message: message@, timestamp: timestamp@ },
            ),
        }
    }

    /// The number of rows that a relation holds for a device.
    pub open spec fn count(self, relation: Relation, device_id: Seq<char>) -> nat {
        match relation {
            Relation::Registry => if self.registered(device_id) {
                1
            } else {
                0
            },
            Relation::Binding => if self.bound(device_id) {
                1
            } else {
                0
            },
            Relation::Data => self.data_for(device_id).len(),
        }
    }

    /// The number of rows that a statement matches: those a lookup finds,
    /// those a delete removes, and the one that an insert writes.
    pub open spec fn matched(self, statement: Statement) -> nat {
        match statement {
            Statement::Select { relation, device_id } => self.count(relation, device_id@),
            Statement::DeleteBinding { device_id } => self.count(Relation::Binding, device_id@),
            _ => 1,
        }
    }
}

/// Appending a row to the log appends it to the rows of its device, and
/// changes the rows of no other device.
pub proof fn lemma_data_for_after_append(store: StoreView, row: DataView, device_id: Seq<char>)
    ensures
        store.with_data(row).data_for(device_id) == if row.device_id == device_id {
            store.data_for(device_id).push(row)
        } else {
            store.data_for(device_id)
        },
{
    reveal(Seq::filter);
    assert(store.data.push(row).drop_last() =~= store.data);
}

/// A row of the registry.
#[derive(Debug, Clone, PartialEq, Eq)]
pub struct RegistryRow {
    pub device_id: String,
    pub vehicle_id: String,
    pub is_registered: bool,
}

/// A row of the bindings.
#[derive(Debug, Clone, PartialEq, Eq)]
pub struct BindingRow {
    pub device_id: String,
    pub owner_wallet: String,
    pub is_bound: bool,
}

/// The views of a sequence of data rows.
pub open spec fn data_views(rows: Seq<DataRecord>) -> Seq<DataView> {
    rows.map_values(|row: DataRecord| row@)
}

/// The three relations, held in memory.
pub struct DeviceStore {
    registry: Table,
    binding: Table,
    data: Vec<DataRecord>,
}

impl View for DeviceStore {
    type V = StoreView;

    closed spec fn view(&self) -> StoreView {
        StoreView {
            registry: self.registry@,
            binding: self.binding@,
            data: data_views(self.data@),
        }
    }
}

impl DeviceStore {
    /// What holds of every store: it is coherent.
    #[verifier::type_invariant]
    pub open spec fn is_coherent(self) -> bool {
        self@.coherent()
    }

    /// A store without any row.
    pub fn new() -> (store: DeviceStore)
        ensures
            store@ == StoreView::empty(),
    {
        let store = DeviceStore { registry: Table::new(), binding: Table::new(), data: Vec::new() };
        assert(store@.data =~= Seq::<DataView>::empty());
        store
    }

    /// Takes the relations out and leaves the store empty.
    fn take(&mut self) -> (parts: (Table, Table, Vec<DataRecord>))
        ensures
            final(self)@ == StoreView::empty(),
            parts.0@ == old(self)@.registry,
            parts.1@ == old(self)@.binding,
            data_views(parts.2@) == old(self)@.data,
    {
        let mut taken = DeviceStore::new();
        std::mem::swap(self, &mut taken);
        let DeviceStore { registry, binding, data } = taken;
        (registry, binding, data)
    }

    /// Whether the registry has a row for the device.
    pub fn has_registration(&self, device_id: &str) -> (found: bool)
        ensures
            found == self@.registered(device_id@),
    {
        self.registry.contains_key(device_id)
    }

    /// Whether there is a binding row for the device.
    pub fn has_binding(&self, device_id: &str) -> (found: bool)
        ensures
            found == self@.bound(device_id@),
    {
        self.binding.contains_key(device_id)
    }

    /// The state of a device.
    pub fn state_of(&self, device_id: &str) -> (state: DeviceState)
        ensures
            state == self@.state_of(device_id@),
    {
        if !self.registry.contains_key(device_id) {
            DeviceState::Unknown
        } else if !self.binding.contains_key(device_id) {
            DeviceState::Registered
        } else {
            DeviceState::Bound
        }
    }

    /// Creates the registry row of a device that has none. To look first
    /// is the caller's part.
    pub fn insert_registry(&mut self, device_id: &str, vehicle_id: &str)
        requires
            !old(self)@.registered(device_id@),
        ensures
            final(self)@ == old(self)@.with_registration(device_id@, vehicle_id@),
    {
        proof {
            use_type_invariant(&*self);
        }
        let (mut registry, binding, data) = self.take();
        registry.insert(device_id, vehicle_id);
        *self = DeviceStore { registry, binding, data };
    }

    /// Binds a registered device to a wallet; a binding that it had before
    /// is replaced.
    pub fn insert_binding(&mut self, device_id: &str, owner_wallet: &str)
        requires
            old(self)@.registered(device_id@),
        ensures
            final(self)@ == old(self)@.with_binding(device_id@, owner_wallet@),
    {
        proof {
            use_type_invariant(&*self);
        }
        let (registry, mut binding, data) = self.take();
        binding.insert(device_id, owner_wallet);
        *self = DeviceStore { registry, binding, data };
    }

    /// Removes the binding row of a device; nothing changes if it has none.
    pub fn delete_binding(&mut self, device_id: &str)
        ensures
            final(self)@ == old(self)@.without_binding(device_id@),
    {
        proof {
            use_type_invariant(&*self);
        }
        let (registry, mut binding, data) = self.take();
        binding.remove(device_id);
        *self = DeviceStore { registry, binding, data };
    }

    /// Appends a data row for a device that is registered and bound.
    pub fn insert_data(&mut self, device_id: &str, message: &str, timestamp: &str)
        requires
            old(self)@.registered(device_id@),
            old(self)@.bound(device_id@),
        ensures
            final(self)@ == old(self)@.with_data(
                DataView { device_id: device_id@, message: message@, timestamp: timestamp@ },
            ),
    {
        proof {
            use_type_invariant(&*self);
        }
        let row = DataRecord {
            device_id: device_id.to_owned(),
            message: message.to_owned(),
            timestamp: timestamp.to_owned(),
        };
        let (registry, binding, mut data) = self.take();
        data.push(row);
        assert(data_views(data@) =~= old(self)@.data.push(row@));
        *self = DeviceStore { registry, binding, data };
    }

    /// The registry row of a device, if it has one.
    pub fn registry_row(&self, device_id: &str) -> (row: Option<RegistryRow>)
        ensures
            match row {
                Some(row) => {
                    &&& self@.registered(device_id@)
                    &&& row.device_id@ == device_id@
                    &&& row.vehicle_id@ == self@.registry[device_id@]
                    &&& row.is_registered
                },
                None => !self@.registered(device_id@),
            },
    {
        match self.registry.get(device_id) {
            Some(vehicle_id) => Some(
                RegistryRow {
                    device_id: device_id.to_owned(),
                    vehicle_id: vehicle_id.to_owned(),
                    is_registered: true,
                },
            ),
            None => None,
        }
    }

    /// The binding row of a device, if it has one.
    pub fn binding_row(&self, device_id: &str) -> (row: Option<BindingRow>)
        ensures
            match row {
                Some(row) => {
                    &&& self@.bound(device_id@)
                    &&& row.device_id@ == device_id@
                    &&& row.owner_wallet@ == self@.binding[device_id@]
                    &&& row.is_bound
                },
                None => !self@.bound(device_id@),
            },
    {
        match self.binding.get(device_id) {
            Some(owner_wallet) => Some(
                BindingRow {
                    device_id: device_id.to_owned(),
                    owner_wallet: owner_wallet.to_owned(),
                    is_bound: true,
                },
            ),
            None => None,
        }
    }

    /// The number of registry rows.
    pub fn registry_len(&self) -> (count: usize)
        ensures
            self@.registry.dom().finite(),
            count == self@.registry.dom().len(),
    {
        self.registry.len()
    }

    /// The number of binding rows.
    pub fn binding_len(&self) -> (count: usize)
        ensures
            self@.binding.dom().finite(),
            count == self@.binding.dom().len(),
    {
        self.binding.len()
    }

    /// The number of data rows.
    pub fn data_len(&self) -> (count: usize)
        ensures
            count == self@.data.len(),
    {
        self.data.len()
    }

    /// The data rows of one device, in the order they came.
    pub fn data_rows(&self, device_id: &str) -> (rows: Vec<DataRecord>)
        ensures
            data_views(rows@) == self@.data_for(device_id@),
    {
        let mut rows: Vec<DataRecord> = Vec::new();
        let mut i: usize = 0;
        let ghost wanted = |row: DataView| row.device_id == device_id@;
        proof {
            reveal(Seq::filter);
            assert(data_views(rows@) =~= self@.data.take(0).filter(wanted));
        }
        while i < self.data.len()
            invariant
                i <= self.data.len(),
                wanted == |row: DataView| row.device_id == device_id@,
                data_views(rows@) == self@.data.take(i as int).filter(wanted),
            decreases self.data.len() - i,
        {
            let row = &self.data[i];
            proof {
                reveal(Seq::filter);
                let before = self@.data.take(i as int);
                let upto = self@.data.take(i + 1);
                assert(upto.drop_last() =~= before);
                assert(upto.last() == row@);
            }
            if same_text(row.device_id.as_str(), device_id) {
                let copy = DataRecord {
                    device_id: row.device_id.clone(),
                    message: row.message.clone(),
                    timestamp: row.timestamp.clone(),
                };
                let ghost earlier = rows@;
                rows.push(copy);
                assert(data_views(rows@) =~= data_views(earlier).push(row@));
            }
            i += 1;
        }
        assert(self@.data.take(i as int) =~= self@.data);
        rows
    }

    /// Looks up the rows of a device in one relation, and answers with
    /// their number.
    pub fn lookup(&self, relation: Relation, device_id: &str) -> (reply: Reply)
        ensures
            reply == Ok::<usize, StoreError>(self@.count(relation, device_id@) as usize),
    {
        let count: usize = match relation {
            Relation::Registry => if self.has_registration(device_id) {
                1
            } else {
                0
            },
            Relation::Binding => if self.has_binding(device_id) {
                1
            } else {
                0
            },
            Relation::Data => self.data_rows(device_id).len(),
        };
        Ok(count)
    }

    /// Runs a statement that the store admits, and answers with the number
    /// of rows that it matched. A store in memory has no faults.
    pub fn execute(&mut self, statement: &Statement) -> (reply: Reply)
        requires
            old(self)@.admits(*statement),
        ensures
            final(self)@ == old(self)@.after(*statement),
            reply == Ok::<usize, StoreError>(old(self)@.matched(*statement) as usize),
    {
        match statement {
            Statement::Select { relation, device_id } => self.lookup(*relation, device_id.as_str()),
            Statement::InsertRegistry { device_id, vehicle_id } => {
                self.insert_registry(device_id.as_str(), vehicle_id.as_str());
                Ok(1)
            },
            Statement::InsertBinding { device_id, owner_wallet } => {
                self.insert_binding(device_id.as_str(), owner_wallet.as_str());
                Ok(1)
            },
            Statement::DeleteBinding { device_id } => {
                let count: usize = if self.has_binding(device_id.as_str()) {
                    1
                } else {
                    0
                };
                self.delete_binding(device_id.as_str());
                Ok(count)
            },
            Statement::InsertData { device_id, message, timestamp } => {
                self.insert_data(device_id.as_str(), message.as_str(), timestamp.as_str());
                Ok(1)
            },
        }
    }
}

} // verus!
