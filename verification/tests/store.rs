use pebble_lifecycle::kv::WsFs;
use pebble_lifecycle::payload::DataRecord;
use pebble_lifecycle::statement::{Relation, Statement};
use pebble_lifecycle::store::{BindingRow, DeviceState, DeviceStore, RegistryRow};
use pebble_lifecycle::table::Table;

fn reading(device_id: &str, message: &str, timestamp: &str) -> DataRecord {
    DataRecord {
        device_id: device_id.to_string(),
        message: message.to_string(),
        timestamp: timestamp.to_string(),
    }
}

#[test]
fn a_new_table_is_empty() {
    let table = Table::new();
    assert_eq!(table.len(), 0);
    assert!(!table.contains_key("a"));
    assert_eq!(table.get("a"), None);
}

#[test]
fn a_table_keeps_one_text_for_each_key() {
    let mut table = Table::new();
    table.insert("a", "1");
    table.insert("b", "2");
    table.insert("a", "3");
    assert_eq!(table.len(), 2);
    assert_eq!(table.get("a"), Some("3"));
    assert_eq!(table.get("b"), Some("2"));
    assert!(table.contains_key("a"));
    assert!(!table.contains_key("c"));
    table.remove("a");
    assert_eq!(table.len(), 1);
    assert_eq!(table.get("a"), None);
    assert_eq!(table.get("b"), Some("2"));
    table.remove("a");
    table.remove("zz");
    assert_eq!(table.len(), 1);
    table.remove("b");
    assert_eq!(table.len(), 0);
}

#[test]
fn a_table_tells_keys_apart_by_their_characters() {
    let mut table = Table::new();
    table.insert("dev1", "a");
    table.insert("dev10", "b");
    table.insert("", "c");
    table.insert("Dev1", "d");
    assert_eq!(table.len(), 4);
    assert_eq!(table.get("dev1"), Some("a"));
    assert_eq!(table.get("dev10"), Some("b"));
    assert_eq!(table.get(""), Some("c"));
    assert_eq!(table.get("Dev1"), Some("d"));
    assert_eq!(table.get("dev"), None);
}

#[test]
fn a_new_store_has_no_rows() {
    let store = DeviceStore::new();
    assert_eq!(store.registry_len(), 0);
    assert_eq!(store.binding_len(), 0);
    assert_eq!(store.data_len(), 0);
    assert_eq!(store.state_of("dev1"), DeviceState::Unknown);
    assert!(!store.has_registration("dev1"));
    assert!(!store.has_binding("dev1"));
    assert_eq!(store.registry_row("dev1"), None);
    assert_eq!(store.binding_row("dev1"), None);
}

#[test]
fn the_store_writes_and_reads_rows() {
    let mut store = DeviceStore::new();
    store.insert_registry("dev1", "veh1");
    assert!(store.has_registration("dev1"));
    assert_eq!(store.state_of("dev1"), DeviceState::Registered);
    assert_eq!(
        store.registry_row("dev1"),
        Some(RegistryRow {
            device_id: "dev1".to_string(),
            vehicle_id: "veh1".to_string(),
            is_registered: true,
        })
    );
    store.insert_binding("dev1", "0xabc");
    assert!(store.has_binding("dev1"));
    assert_eq!(store.state_of("dev1"), DeviceState::Bound);
    assert_eq!(
        store.binding_row("dev1"),
        Some(BindingRow {
            device_id: "dev1".to_string(),
            owner_wallet: "0xabc".to_string(),
            is_bound: true,
        })
    );
    store.insert_data("dev1", "42", "100");
    store.insert_data("dev1", "43", "101");
    assert_eq!(store.data_len(), 2);
    assert_eq!(
        store.data_rows("dev1"),
        vec![reading("dev1", "42", "100"), reading("dev1", "43", "101")]
    );
    store.delete_binding("dev1");
    assert!(!store.has_binding("dev1"));
    assert_eq!(store.state_of("dev1"), DeviceState::Registered);
    store.delete_binding("dev1");
    store.delete_binding("dev7");
    assert_eq!(store.binding_len(), 0);
    assert_eq!(store.registry_len(), 1);
    assert_eq!(store.data_len(), 2);
}

#[test]
fn a_lookup_counts_the_rows_of_a_device() {
    let mut store = DeviceStore::new();
    assert_eq!(store.lookup(Relation::Registry, "dev1"), Ok(0));
    assert_eq!(store.lookup(Relation::Binding, "dev1"), Ok(0));
    assert_eq!(store.lookup(Relation::Data, "dev1"), Ok(0));
    store.insert_registry("dev1", "veh1");
    store.insert_registry("dev2", "veh2");
    store.insert_binding("dev1", "0xabc");
    store.insert_data("dev1", "42", "100");
    store.insert_data("dev1", "43", "101");
    assert_eq!(store.lookup(Relation::Registry, "dev1"), Ok(1));
    assert_eq!(store.lookup(Relation::Binding, "dev1"), Ok(1));
    assert_eq!(store.lookup(Relation::Data, "dev1"), Ok(2));
    assert_eq!(store.lookup(Relation::Registry, "dev2"), Ok(1));
    assert_eq!(store.lookup(Relation::Binding, "dev2"), Ok(0));
    assert_eq!(store.lookup(Relation::Data, "dev2"), Ok(0));
}

#[test]
fn the_store_runs_statements() {
    let mut store = DeviceStore::new();
    let select = |relation| Statement::Select { relation, device_id: "dev1".to_string() };
    assert_eq!(store.execute(&select(Relation::Registry)), Ok(0));
    assert_eq!(
        store.execute(&Statement::InsertRegistry {
            device_id: "dev1".to_string(),
            vehicle_id: "veh1".to_string(),
        }),
        Ok(1)
    );
    assert_eq!(store.execute(&select(Relation::Registry)), Ok(1));
    assert_eq!(store.execute(&select(Relation::Binding)), Ok(0));
    assert_eq!(store.execute(&Statement::DeleteBinding { device_id: "dev1".to_string() }), Ok(0));
    assert_eq!(
        store.execute(&Statement::InsertBinding {
            device_id: "dev1".to_string(),
            owner_wallet: "0xabc".to_string(),
        }),
        Ok(1)
    );
    assert_eq!(store.execute(&select(Relation::Binding)), Ok(1));
    assert_eq!(
        store.execute(&Statement::InsertData {
            device_id: "dev1".to_string(),
            message: "42".to_string(),
            timestamp: "100".to_string(),
        }),
        Ok(1)
    );
    assert_eq!(store.execute(&select(Relation::Data)), Ok(1));
    assert_eq!(store.data_rows("dev1"), vec![reading("dev1", "42", "100")]);
    assert_eq!(store.execute(&Statement::DeleteBinding { device_id: "dev1".to_string() }), Ok(1));
    assert_eq!(store.execute(&select(Relation::Binding)), Ok(0));
    assert_eq!(store.state_of("dev1"), DeviceState::Registered);
}

#[test]
fn a_stored_value_starts_empty() {
    let file = WsFs::new("witness");
    assert_eq!(file.name(), "witness");
    assert_eq!(file.value(), &[] as &[u8]);
    let mut buf = [7u8; 3];
    assert_eq!(file.read(&mut buf), 0);
    assert_eq!(buf, [7, 7, 7]);
}

#[test]
fn a_write_replaces_the_stored_value() {
    let mut file = WsFs::new("witness");
    assert_eq!(file.write(&[1, 2, 3]), 3);
    assert_eq!(file.value(), &[1, 2, 3]);
    assert_eq!(file.write(&[9]), 1);
    assert_eq!(file.value(), &[9]);
    assert_eq!(file.write(&[]), 0);
    assert_eq!(file.value(), &[] as &[u8]);
    assert_eq!(file.name(), "witness");
}

#[test]
fn a_read_copies_the_whole_value_to_the_front() {
    let mut file = WsFs::new("witness");
    file.load(vec![1, 2, 3]);
    let mut buf = [0u8; 5];
    assert_eq!(file.read(&mut buf), 3);
    assert_eq!(buf, [1, 2, 3, 0, 0]);
    let mut exact = [9u8; 3];
    assert_eq!(file.read(&mut exact), 3);
    assert_eq!(exact, [1, 2, 3]);
    assert_eq!(file.read(&mut buf), 3);
    assert_eq!(buf, [1, 2, 3, 0, 0]);
    file.load(vec![4]);
    assert_eq!(file.read(&mut buf), 1);
    assert_eq!(buf, [4, 2, 3, 0, 0]);
}
