use pebble_lifecycle::error::{LifecycleError, Rejection, StoreError};
use pebble_lifecycle::lifecycle::Command;
use pebble_lifecycle::machine::{found, Step, Transition};
use pebble_lifecycle::payload::{BindingRecord, DataRecord, RegistrationRecord};
use pebble_lifecycle::statement::{Param, Relation, Statement};

fn registration() -> RegistrationRecord {
    RegistrationRecord { device_id: "dev1".to_string(), vehicle_id: "veh1".to_string() }
}

fn binding(flag: &str) -> BindingRecord {
    BindingRecord {
        device_id: "dev1".to_string(),
        owner_wallet: "0xabc".to_string(),
        binding_flag: flag.to_string(),
    }
}

fn reading() -> DataRecord {
    DataRecord {
        device_id: "dev1".to_string(),
        message: "42".to_string(),
        timestamp: "100".to_string(),
    }
}

fn lookup(relation: Relation) -> Statement {
    Statement::Select { relation, device_id: "dev1".to_string() }
}

fn fault(message: &str) -> StoreError {
    StoreError { message: message.to_string() }
}

fn issued(step: Step) -> (Statement, Transition) {
    match step {
        Step::Issue { statement, next } => (statement, next),
        Step::Finish(outcome) => panic!("finished with {:?}", outcome),
    }
}

fn rejected(reason: Rejection) -> Step {
    Step::Finish(Err(LifecycleError::PreconditionRejected(reason)))
}

#[test]
fn a_reply_says_whether_a_row_was_found() {
    assert_eq!(found(Ok(0)), Ok(false));
    assert_eq!(found(Ok(1)), Ok(true));
    assert_eq!(found(Ok(27)), Ok(true));
    assert_eq!(found(Err(fault("no connection"))), Err(fault("no connection")));
}

#[test]
fn a_registration_looks_up_then_inserts() {
    let (statement, next) = issued(Transition::begin(Command::Register(registration())));
    assert_eq!(statement, lookup(Relation::Registry));
    assert_eq!(next, Transition::RegisterLookup(registration()));
    let (statement, next) = issued(next.advance(Ok(0)));
    assert_eq!(
        statement,
        Statement::InsertRegistry { device_id: "dev1".to_string(), vehicle_id: "veh1".to_string() }
    );
    assert_eq!(next, Transition::Writing);
    assert_eq!(next.advance(Ok(1)), Step::Finish(Ok(())));
}

#[test]
fn a_registration_of_a_registered_device_ends_at_the_lookup() {
    let (_, next) = issued(Transition::begin(Command::Register(registration())));
    assert_eq!(next.advance(Ok(1)), rejected(Rejection::AlreadyRegistered));
    let (_, next) = issued(Transition::begin(Command::Register(registration())));
    assert_eq!(next.advance(Ok(40)), rejected(Rejection::AlreadyRegistered));
}

#[test]
fn a_bind_looks_up_then_inserts() {
    for flag in ["true", "True"] {
        let (statement, next) = issued(Transition::begin(Command::SetBinding(binding(flag))));
        assert_eq!(statement, lookup(Relation::Registry));
        let (statement, next) = issued(next.advance(Ok(1)));
        assert_eq!(
            statement,
            Statement::InsertBinding {
                device_id: "dev1".to_string(),
                owner_wallet: "0xabc".to_string(),
            }
        );
        assert_eq!(next.advance(Ok(1)), Step::Finish(Ok(())));
    }
}

#[test]
fn an_unbind_looks_up_then_deletes() {
    for flag in ["false", "", "TRUE"] {
        let (_, next) = issued(Transition::begin(Command::SetBinding(binding(flag))));
        let (statement, next) = issued(next.advance(Ok(1)));
        assert_eq!(statement, Statement::DeleteBinding { device_id: "dev1".to_string() });
        assert_eq!(next.advance(Ok(0)), Step::Finish(Ok(())));
    }
}

#[test]
fn a_binding_of_an_unknown_device_ends_at_the_lookup() {
    for flag in ["true", "false"] {
        let (_, next) = issued(Transition::begin(Command::SetBinding(binding(flag))));
        assert_eq!(next.advance(Ok(0)), rejected(Rejection::NotRegistered));
    }
}

#[test]
fn a_reading_looks_up_twice_then_inserts() {
    let (statement, next) = issued(Transition::begin(Command::Ingest(reading())));
    assert_eq!(statement, lookup(Relation::Registry));
    assert_eq!(next, Transition::IngestRegistryLookup(reading()));
    let (statement, next) = issued(next.advance(Ok(1)));
    assert_eq!(statement, lookup(Relation::Binding));
    assert_eq!(next, Transition::IngestBindingLookup(reading()));
    let (statement, next) = issued(next.advance(Ok(1)));
    assert_eq!(
        statement,
        Statement::InsertData {
            device_id: "dev1".to_string(),
            message: "42".to_string(),
            timestamp: "100".to_string(),
        }
    );
    assert_eq!(next.advance(Ok(1)), Step::Finish(Ok(())));
}

#[test]
fn the_registry_is_asked_before_the_bindings() {
    let (_, next) = issued(Transition::begin(Command::Ingest(reading())));
    assert_eq!(next.advance(Ok(0)), rejected(Rejection::NotRegistered));
    let (_, next) = issued(Transition::begin(Command::Ingest(reading())));
    let (_, next) = issued(next.advance(Ok(1)));
    assert_eq!(next.advance(Ok(0)), rejected(Rejection::NotBound));
}

#[test]
fn a_fault_ends_the_transition_wherever_it_stands() {
    let gone = || Err(fault("fail to query sql"));
    let ended = || Step::Finish(Err(LifecycleError::Store(fault("fail to query sql"))));
    assert_eq!(Transition::RegisterLookup(registration()).advance(gone()), ended());
    assert_eq!(Transition::BindingLookup(binding("true")).advance(gone()), ended());
    assert_eq!(Transition::IngestRegistryLookup(reading()).advance(gone()), ended());
    assert_eq!(Transition::IngestBindingLookup(reading()).advance(gone()), ended());
    assert_eq!(Transition::Writing.advance(gone()), ended());
}

#[test]
fn a_fault_of_the_write_is_no_success() {
    let (_, next) = issued(Transition::begin(Command::Register(registration())));
    let (_, next) = issued(next.advance(Ok(0)));
    assert_eq!(
        next.advance(Err(fault("fail to exec sql"))),
        Step::Finish(Err(LifecycleError::Store(fault("fail to exec sql"))))
    );
}

#[test]
fn statements_have_their_text() {
    assert_eq!(
        lookup(Relation::Registry).sql(),
        "SELECT device_id FROM deviceregistry WHERE device_id = ?;"
    );
    assert_eq!(
        lookup(Relation::Binding).sql(),
        "SELECT device_id FROM devicebinding WHERE device_id = ?;"
    );
    assert_eq!(
        lookup(Relation::Data).sql(),
        "SELECT device_id FROM devicedata WHERE device_id = ?;"
    );
    assert_eq!(
        Statement::InsertRegistry { device_id: "d".to_string(), vehicle_id: "v".to_string() }.sql(),
        "INSERT INTO deviceregistry (device_id, vehicle_id, is_registered) VALUES (?,?,?);"
    );
    assert_eq!(
        Statement::InsertBinding { device_id: "d".to_string(), owner_wallet: "w".to_string() }
            .sql(),
        "INSERT INTO devicebinding (device_id, owner_wallet, is_bound) VALUES (?,?,?);"
    );
    assert_eq!(
        Statement::DeleteBinding { device_id: "d".to_string() }.sql(),
        "DELETE FROM devicebinding WHERE device_id = ?;"
    );
    assert_eq!(
        Statement::InsertData {
            device_id: "d".to_string(),
            message: "m".to_string(),
            timestamp: "t".to_string(),
        }
        .sql(),
        "INSERT INTO devicedata (device_id, data, timestamp) VALUES (?,?,?);"
    );
}

#[test]
fn statements_have_their_parameters() {
    let text = |s: &str| Param::Text(s.to_string());
    assert_eq!(lookup(Relation::Registry).params(), vec![text("dev1")]);
    assert_eq!(
        Statement::InsertRegistry { device_id: "d".to_string(), vehicle_id: "v".to_string() }
            .params(),
        vec![text("d"), text("v"), Param::Flag(true)]
    );
    assert_eq!(
        Statement::InsertBinding { device_id: "d".to_string(), owner_wallet: "w".to_string() }
            .params(),
        vec![text("d"), text("w"), Param::Flag(true)]
    );
    assert_eq!(Statement::DeleteBinding { device_id: "d".to_string() }.params(), vec![text("d")]);
    assert_eq!(
        Statement::InsertData {
            device_id: "d".to_string(),
            message: "m".to_string(),
            timestamp: "t".to_string(),
        }
        .params(),
        vec![text("d"), text("m"), text("t")]
    );
}

#[test]
fn statements_know_their_relation_and_device() {
    assert_eq!(Relation::Registry.table_name(), "deviceregistry");
    assert_eq!(Relation::Binding.table_name(), "devicebinding");
    assert_eq!(Relation::Data.table_name(), "devicedata");
    let select = lookup(Relation::Data);
    assert!(select.is_query());
    assert_eq!(select.relation(), Relation::Data);
    assert_eq!(select.device_id(), "dev1");
    let insert =
        Statement::InsertRegistry { device_id: "d".to_string(), vehicle_id: "v".to_string() };
    assert!(!insert.is_query());
    assert_eq!(insert.relation(), Relation::Registry);
    assert_eq!(insert.device_id(), "d");
    let insert =
        Statement::InsertBinding { device_id: "d".to_string(), owner_wallet: "w".to_string() };
    assert!(!insert.is_query());
    assert_eq!(insert.relation(), Relation::Binding);
    let delete = Statement::DeleteBinding { device_id: "d".to_string() };
    assert!(!delete.is_query());
    assert_eq!(delete.relation(), Relation::Binding);
    let insert = Statement::InsertData {
        device_id: "d".to_string(),
        message: "m".to_string(),
        timestamp: "t".to_string(),
    };
    assert!(!insert.is_query());
    assert_eq!(insert.relation(), Relation::Data);
}
