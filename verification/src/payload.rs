//! Decoding of event payloads into fixed records, one per kind of event.
//!
//! A payload is UTF-8 text that holds a JSON object. Each kind of event
//! requires a fixed set of members, all of them strings. A decode either
//! yields the whole record or names the first required member that is
//! absent or not a string; it never yields a partly filled record.

use crate::json::parse_value;
use crate::json::parsed_members;
use crate::json::string_member;
use crate::json::string_members;
use crate::json::utf8_text;
use crate::text::same_text;
use vstd::prelude::*;
use vstd::utf8::decode_utf8;
use vstd::utf8::valid_utf8;

verus! {

/// A member of a payload that some kind of event requires.
#[derive(Debug, Clone, Copy, PartialEq, Eq, Structural)]
pub enum Field {
    DeviceId,
    VehicleId,
    OwnerWallet,
    BindingFlag,
    Message,
    Timestamp,
}

impl Field {
    /// The key under which the member stands in a payload.
    pub open spec fn key_text(self) -> Seq<char> {
        match self {
            Field::DeviceId => "pebbleId"@,
            Field::VehicleId => "vehicleId"@,
            Field::OwnerWallet => "wallet"@,
            Field::BindingFlag => "isBound"@,
            Field::Message => "message"@,
            Field::Timestamp => "timestamp"@,
        }
    }

    /// The key under which the member stands in a payload.
    pub fn key(self) -> (key: &'static str)
        ensures
            key@ == self.key_text(),
    {
        match self {
            Field::DeviceId => "pebbleId",
            Field::VehicleId => "vehicleId",
            Field::OwnerWallet => "wallet",
            Field::BindingFlag => "isBound",
            Field::Message => "message",
            Field::Timestamp => "timestamp",
        }
    }
}

/// No two fields share a key.
pub proof fn lemma_keys_differ()
    ensures
        forall|a: Field, b: Field| a != b ==> a.key_text() != b.key_text(),
{
    reveal_strlit("pebbleId");
    reveal_strlit("vehicleId");
    reveal_strlit("wallet");
    reveal_strlit("isBound");
    reveal_strlit("message");
    reveal_strlit("timestamp");
    assert("pebbleId"@.len() == 8);
    assert("vehicleId"@.len() == 9 && "vehicleId"@[0] == 'v');
    assert("wallet"@.len() == 6);
    assert("isBound"@.len() == 7 && "isBound"@[0] == 'i');
    assert("message"@.len() == 7 && "message"@[0] == 'm');
    assert("timestamp"@.len() == 9 && "timestamp"@[0] == 't');
}

/// Why a payload could not be decoded.
#[derive(Debug, Clone, Copy, PartialEq, Eq, Structural)]
pub enum DecodeError {
    /// The payload is not UTF-8 text.
    InvalidEncoding,
    /// The text is not JSON.
    InvalidStructure,
    /// A required member is absent or is not a string.
    MissingField(Field),
}

/// The strings that a JSON object holds, by key.
pub type Members = Map<Seq<char>, Seq<char>>;

/// The string under the key of `field`, if there is one.
pub open spec fn member(members: Members, field: Field) -> Option<Seq<char>> {
    if members.contains_key(field.key_text()) {
        Some(members[field.key_text()])
    } else {
        None
    }
}

/// The string members of a payload: those of the JSON value that the text
/// parses to.
pub open spec fn members_of(payload: Seq<u8>) -> Result<Members, DecodeError> {
    if !valid_utf8(payload) {
        Err(DecodeError::InvalidEncoding)
    } else {
        match parsed_members(decode_utf8(payload)) {
            Some(members) => Ok(members),
            None => Err(DecodeError::InvalidStructure),
        }
    }
}

/// A result with its record replaced by the record's view.
pub open spec fn viewed<T: View>(decoded: Result<T, DecodeError>) -> Result<T::V, DecodeError> {
    match decoded {
        Ok(record) => Ok(record@),
        Err(e) => Err(e),
    }
}

/// The characters of an optional string.
pub open spec fn text_of(found: Option<&str>) -> Option<Seq<char>> {
    match found {
        Some(text) => Some(text@),
        None => None,
    }
}

/// Parses a payload as far as the JSON value.
fn parse(payload: &[u8]) -> (parsed: Result<serde_json::Value, DecodeError>)
    ensures
        match parsed {
            Ok(value) => members_of(payload@) == Ok::<Members, DecodeError>(string_members(value)),
            Err(e) => members_of(payload@) == Err::<Members, DecodeError>(e),
        },
{
    match utf8_text(payload) {
        Err(_) => Err(DecodeError::InvalidEncoding),
        Ok(text) => match parse_value(text) {
            Err(_) => Err(DecodeError::InvalidStructure),
            Ok(value) => Ok(value),
        },
    }
}

/// The string member of `value` that `field` names.
fn lookup<'a>(value: &'a serde_json::Value, field: Field) -> (found: Option<&'a str>)
    ensures
        text_of(found) == member(string_members(*value), field),
{
    string_member(value, field.key())
}

/// A registration event: a device and the vehicle it is registered to.
#[derive(Debug, Clone, PartialEq, Eq)]
pub struct RegistrationRecord {
    pub device_id: String,
    pub vehicle_id: String,
}

/// A registration record with its texts as characters.
pub struct RegistrationView {
    pub device_id: Seq<char>,
    pub vehicle_id: Seq<char>,
}

impl RegistrationView {
    /// The members that a payload holds for this record.
    pub open spec fn members(self) -> Members {
        Map::empty().insert(Field::DeviceId.key_text(), self.device_id).insert(
            Field::VehicleId.key_text(),
            self.vehicle_id,
        )
    }
}

impl View for RegistrationRecord {
    type V = RegistrationView;

    open spec fn view(&self) -> RegistrationView {
        RegistrationView { device_id: self.device_id@, vehicle_id: self.vehicle_id@ }
    }
}

/// The registration record that two looked-up members give.
pub open spec fn registration_from(
    device_id: Option<Seq<char>>,
    vehicle_id: Option<Seq<char>>,
) -> Result<RegistrationView, DecodeError> {
    match (device_id, vehicle_id) {
        (None, _) => Err(DecodeError::MissingField(Field::DeviceId)),
        (Some(_), None) => Err(DecodeError::MissingField(Field::VehicleId)),
        (Some(d), Some(v)) => Ok(RegistrationView { device_id: d, vehicle_id: v }),
    }
}

/// The registration record that the string members of an object give.
pub open spec fn registration_in(members: Members) -> Result<RegistrationView, DecodeError> {
    registration_from(member(members, Field::DeviceId), member(members, Field::VehicleId))
}

/// The registration record that a payload decodes to.
pub open spec fn registration_of(payload: Seq<u8>) -> Result<RegistrationView, DecodeError> {
    match members_of(payload) {
        Ok(members) => registration_in(members),
        Err(e) => Err(e),
    }
}

impl RegistrationRecord {
    /// Builds the record from its members as looked up, naming the first
    /// one that is missing.
    pub fn from_fields(device_id: Option<&str>, vehicle_id: Option<&str>) -> (decoded: Result<
        RegistrationRecord,
        DecodeError,
    >)
        ensures
            viewed(decoded) == registration_from(text_of(device_id), text_of(vehicle_id)),
    {
        let device_id = match device_id {
            Some(text) => text.to_owned(),
            None => return Err(DecodeError::MissingField(Field::DeviceId)),
        };
        let vehicle_id = match vehicle_id {
            Some(text) => text.to_owned(),
            None => return Err(DecodeError::MissingField(Field::VehicleId)),
        };
        Ok(RegistrationRecord { device_id, vehicle_id })
    }
}

/// Decodes the payload of a registration event.
pub fn decode_registration(payload: &[u8]) -> (decoded: Result<RegistrationRecord, DecodeError>)
    ensures
        viewed(decoded) == registration_of(payload@),
{
    match parse(payload) {
        Err(e) => Err(e),
        Ok(value) => RegistrationRecord::from_fields(
            lookup(&value, Field::DeviceId),
            lookup(&value, Field::VehicleId),
        ),
    }
}

/// Decoding recovers a registration record from any object that holds the
/// record's members, whatever else the object holds.
pub proof fn law_registration_round_trip(record: RegistrationView, members: Members)
    requires
        record.members().submap_of(members),
    ensures
        registration_in(members) == Ok::<RegistrationView, DecodeError>(record),
{
    lemma_keys_differ();
    assert(record.members().contains_key(Field::DeviceId.key_text()));
    assert(record.members().contains_key(Field::VehicleId.key_text()));
}

/// With exactly one member of a registration record taken out, decoding
/// fails and names that member.
pub proof fn law_registration_missing_field(record: RegistrationView, field: Field)
    requires
        field == Field::DeviceId || field == Field::VehicleId,
    ensures
        registration_in(record.members().remove(field.key_text())) == Err::<
            RegistrationView,
            DecodeError,
        >(DecodeError::MissingField(field)),
{
    lemma_keys_differ();
}

/// A binding event: a device, an owner's wallet, and whether the device is
/// to be bound to it or unbound.
#[derive(Debug, Clone, PartialEq, Eq)]
pub struct BindingRecord {
    pub device_id: String,
    pub owner_wallet: String,
    pub binding_flag: String,
}

/// A binding record with its texts as characters.
pub struct BindingView {
    pub device_id: Seq<char>,
    pub owner_wallet: Seq<char>,
    pub binding_flag: Seq<char>,
}

impl BindingView {
    /// The members that a payload holds for this record.
    pub open spec fn members(self) -> Members {
        Map::empty().insert(Field::DeviceId.key_text(), self.device_id).insert(
            Field::OwnerWallet.key_text(),
            self.owner_wallet,
        ).insert(Field::BindingFlag.key_text(), self.binding_flag)
    }
}

impl View for BindingRecord {
    type V = BindingView;

    open spec fn view(&self) -> BindingView {
        BindingView {
            device_id: self.device_id@,
            owner_wallet: self.owner_wallet@,
            binding_flag: self.binding_flag@,
        }
    }
}

/// Whether a binding flag asks for a bind: only `true` and `True` do, and
/// every other text asks for an unbind.
pub open spec fn truthy(flag: Seq<char>) -> bool {
    flag == "true"@ || flag == "True"@
}

/// Whether a binding flag asks for a bind.
pub fn is_truthy(flag: &str) -> (bind: bool)
    ensures
        bind == truthy(flag@),
{
    same_text(flag, "true") || same_text(flag, "True")
}

/// The binding record that three looked-up members give.
pub open spec fn binding_from(
    device_id: Option<Seq<char>>,
    owner_wallet: Option<Seq<char>>,
    binding_flag: Option<Seq<char>>,
) -> Result<BindingView, DecodeError> {
    match (device_id, owner_wallet, binding_flag) {
        (None, _, _) => Err(DecodeError::MissingField(Field::DeviceId)),
        (Some(_), None, _) => Err(DecodeError::MissingField(Field::OwnerWallet)),
        (Some(_), Some(_), None) => Err(DecodeError::MissingField(Field::BindingFlag)),
        (Some(d), Some(w), Some(f)) => Ok(
            BindingView { device_id: d, owner_wallet: w, binding_flag: f },
        ),
    }
}

/// The binding record that the string members of an object give.
pub open spec fn binding_in(members: Members) -> Result<BindingView, DecodeError> {
    binding_from(
        member(members, Field::DeviceId),
        member(members, Field::OwnerWallet),
        member(members, Field::BindingFlag),
    )
}

/// The binding record that a payload decodes to.
pub open spec fn binding_of(payload: Seq<u8>) -> Result<BindingView, DecodeError> {
    match members_of(payload) {
        Ok(members) => binding_in(members),
        Err(e) => Err(e),
    }
}

impl BindingRecord {
    /// Builds the record from its members as looked up, naming the first
    /// one that is missing.
    pub fn from_fields(
        device_id: Option<&str>,
        owner_wallet: Option<&str>,
        binding_flag: Option<&str>,
    ) -> (decoded: Result<BindingRecord, DecodeError>)
        ensures
            viewed(decoded) == binding_from(
                text_of(device_id),
                text_of(owner_wallet),
                text_of(binding_flag),
            ),
    {
        let device_id = match device_id {
            Some(text) => text.to_owned(),
            None => return Err(DecodeError::MissingField(Field::DeviceId)),
        };
        let owner_wallet = match owner_wallet {
            Some(text) => text.to_owned(),
            None => return Err(DecodeError::MissingField(Field::OwnerWallet)),
        };
        let binding_flag = match binding_flag {
            Some(text) => text.to_owned(),
            None => return Err(DecodeError::MissingField(Field::BindingFlag)),
        };
        Ok(BindingRecord { device_id, owner_wallet, binding_flag })
    }

    /// Whether the event asks for a bind rather than an unbind.
    pub fn binds(&self) -> (bind: bool)
        ensures
            bind == truthy(self@.binding_flag),
    {
        is_truthy(self.binding_flag.as_str())
    }
}

/// Decodes the payload of a binding event.
pub fn decode_binding(payload: &[u8]) -> (decoded: Result<BindingRecord, DecodeError>)
    ensures
        viewed(decoded) == binding_of(payload@),
{
    match parse(payload) {
        Err(e) => Err(e),
        Ok(value) => BindingRecord::from_fields(
            lookup(&value, Field::DeviceId),
            lookup(&value, Field::OwnerWallet),
            lookup(&value, Field::BindingFlag),
        ),
    }
}

/// Decoding recovers a binding record from any object that holds the
/// record's members, whatever else the object holds.
pub proof fn law_binding_round_trip(record: BindingView, members: Members)
    requires
        record.members().submap_of(members),
    ensures
        binding_in(members) == Ok::<BindingView, DecodeError>(record),
{
    lemma_keys_differ();
    assert(record.members().contains_key(Field::DeviceId.key_text()));
    assert(record.members().contains_key(Field::OwnerWallet.key_text()));
    assert(record.members().contains_key(Field::BindingFlag.key_text()));
}

/// With exactly one member of a binding record taken out, decoding fails
/// and names that member.
pub proof fn law_binding_missing_field(record: BindingView, field: Field)
    requires
        field == Field::DeviceId || field == Field::OwnerWallet || field == Field::BindingFlag,
    ensures
        binding_in(record.members().remove(field.key_text())) == Err::<BindingView, DecodeError>(
            DecodeError::MissingField(field),
        ),
{
    lemma_keys_differ();
}

/// A data event: a device, the reading it sent and the time it gave, both
/// kept as they came.
#[derive(Debug, Clone, PartialEq, Eq)]
pub struct DataRecord {
    pub device_id: String,
    pub message: String,
    pub timestamp: String,
}

/// A data record with its texts as characters.
pub struct DataView {
    pub device_id: Seq<char>,
    pub message: Seq<char>,
    pub timestamp: Seq<char>,
}

impl DataView {
    /// The members that a payload holds for this record.
    pub open spec fn members(self) -> Members {
        Map::empty().insert(Field::DeviceId.key_text(), self.device_id).insert(
            Field::Message.key_text(),
            self.message,
        ).insert(Field::Timestamp.key_text(), self.timestamp)
    }
}

impl View for DataRecord {
    type V = DataView;

    open spec fn view(&self) -> DataView {
        DataView {
            device_id: self.device_id@,
            message: self.message@,
            timestamp: self.timestamp@,
        }
    }
}

/// The data record that three looked-up members give.
pub open spec fn data_from(
    device_id: Option<Seq<char>>,
    message: Option<Seq<char>>,
    timestamp: Option<Seq<char>>,
) -> Result<DataView, DecodeError> {
    match (device_id, message, timestamp) {
        (None, _, _) => Err(DecodeError::MissingField(Field::DeviceId)),
        (Some(_), None, _) => Err(DecodeError::MissingField(Field::Message)),
        (Some(_), Some(_), None) => Err(DecodeError::MissingField(Field::Timestamp)),
        (Some(d), Some(m), Some(t)) => Ok(DataView { device_id: d, message: m, timestamp: t }),
    }
}

/// The data record that the string members of an object give.
pub open spec fn data_in(members: Members) -> Result<DataView, DecodeError> {
    data_from(
        member(members, Field::DeviceId),
        member(members, Field::Message),
        member(members, Field::Timestamp),
    )
}

/// The data record that a payload decodes to.
pub open spec fn data_of(payload: Seq<u8>) -> Result<DataView, DecodeError> {
    match members_of(payload) {
        Ok(members) => data_in(members),
        Err(e) => Err(e),
    }
}

impl DataRecord {
    /// Builds the record from its members as looked up, naming the first
    /// one that is missing.
    pub fn from_fields(
        device_id: Option<&str>,
        message: Option<&str>,
        timestamp: Option<&str>,
    ) -> (decoded: Result<DataRecord, DecodeError>)
        ensures
            viewed(decoded) == data_from(text_of(device_id), text_of(message), text_of(timestamp)),
    {
        let device_id = match device_id {
            Some(text) => text.to_owned(),
            None => return Err(DecodeError::MissingField(Field::DeviceId)),
        };
        let message = match message {
            Some(text) => text.to_owned(),
            None => return Err(DecodeError::MissingField(Field::Message)),
        };
        let timestamp = match timestamp {
            Some(text) => text.to_owned(),
            None => return Err(DecodeError::MissingField(Field::Timestamp)),
        };
        Ok(DataRecord { device_id, message, timestamp })
    }
}

/// Decodes the payload of a data event.
pub fn decode_data(payload: &[u8]) -> (decoded: Result<DataRecord, DecodeError>)
    ensures
        viewed(decoded) == data_of(payload@),
{
    match parse(payload) {
        Err(e) => Err(e),
        Ok(value) => DataRecord::from_fields(
            lookup(&value, Field::DeviceId),
            lookup(&value, Field::Message),
            lookup(&value, Field::Timestamp),
        ),
    }
}

/// Decoding recovers a data record from any object that holds the record's
/// members, whatever else the object holds.
pub proof fn law_data_round_trip(record: DataView, members: Members)
    requires
        record.members().submap_of(members),
    ensures
        data_in(members) == Ok::<DataView, DecodeError>(record),
{
    lemma_keys_differ();
    assert(record.members().contains_key(Field::DeviceId.key_text()));
    assert(record.members().contains_key(Field::Message.key_text()));
    assert(record.members().contains_key(Field::Timestamp.key_text()));
}

/// With exactly one member of a data record taken out, decoding fails and
/// names that member.
pub proof fn law_data_missing_field(record: DataView, field: Field)
    requires
        field == Field::DeviceId || field == Field::Message || field == Field::Timestamp,
    ensures
        data_in(record.members().remove(field.key_text())) == Err::<DataView, DecodeError>(
            DecodeError::MissingField(field),
        ),
{
    lemma_keys_differ();
}

} // verus!
