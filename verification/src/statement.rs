//! The statements that the lifecycle issues against a relational store:
//! point lookups, inserts and deletes, keyed by device, each with its
//! parameterised text and its parameters.

use vstd::prelude::*;
use vstd::string::StringExecFns;

verus! {

/// One of the three relations of the store.
#[derive(Debug, Clone, Copy, PartialEq, Eq, Structural)]
pub enum Relation {
    Registry,
    Binding,
    Data,
}

impl Relation {
    /// The name of the relation's table.
    pub open spec fn table_text(self) -> Seq<char> {
        match self {
            Relation::Registry => "deviceregistry"@,
            Relation::Binding => "devicebinding"@,
            Relation::Data => "devicedata"@,
        }
    }

    /// The name of the relation's table.
    pub fn table_name(self) -> (name: &'static str)
        ensures
            name@ == self.table_text(),
    {
        match self {
            Relation::Registry => "deviceregistry",
            Relation::Binding => "devicebinding",
            Relation::Data => "devicedata",
        }
    }
}

/// A value bound to a `?` of a statement.
#[derive(Debug, Clone, PartialEq, Eq)]
pub enum Param {
    Text(String),
    Flag(bool),
}

/// A parameter with its text as characters.
pub enum ParamView {
    Text(Seq<char>),
    Flag(bool),
}

impl View for Param {
    type V = ParamView;

    open spec fn view(&self) -> ParamView {
        match self {
            Param::Text(text) => ParamView::Text(text@),
            Param::Flag(flag) => ParamView::Flag(*flag),
        }
    }
}

/// The views of a sequence of parameters.
pub open spec fn param_views(params: Seq<Param>) -> Seq<ParamView> {
    params.map_values(|param: Param| param@)
}

/// A statement against the store.
#[derive(Debug, Clone, PartialEq, Eq)]
pub enum Statement {
    /// Look up the rows of a device in one relation.
    Select { relation: Relation, device_id: String },
    /// Create the registry row of a device.
    InsertRegistry { device_id: String, vehicle_id: String },
    /// Create the binding row of a device.
    InsertBinding { device_id: String, owner_wallet: String },
    /// Remove the binding row of a device.
    DeleteBinding { device_id: String },
    /// Append a data row.
    InsertData { device_id: String, message: String, timestamp: String },
}

impl Statement {
    /// Whether the statement only reads.
    pub open spec fn reads(self) -> bool {
        self is Select
    }

    /// The relation that the statement addresses.
    pub open spec fn target(self) -> Relation {
        match self {
            Statement::Select { relation, .. } => relation,
            Statement::InsertRegistry { .. } => Relation::Registry,
            Statement::InsertBinding { .. } => Relation::Binding,
            Statement::DeleteBinding { .. } => Relation::Binding,
            Statement::InsertData { .. } => Relation::Data,
        }
    }

    /// The device that the statement is keyed by.
    pub open spec fn device(self) -> Seq<char> {
        match self {
            Statement::Select { device_id, .. } => device_id@,
            Statement::InsertRegistry { device_id, .. } => device_id@,
            Statement::InsertBinding { device_id, .. } => device_id@,
            Statement::DeleteBinding { device_id } => device_id@,
            Statement::InsertData { device_id, .. } => device_id@,
        }
    }

    /// The text of the statement, with a `?` for each parameter.
    pub open spec fn sql_text(self) -> Seq<char> {
        match self {
            Statement::Select { relation, .. } => "SELECT device_id FROM "@ + relation.table_text()
                + " WHERE device_id = ?;"@,
            Statement::InsertRegistry { .. } => "INSERT INTO "@ + Relation::Registry.table_text()
                + " (device_id, vehicle_id, is_registered) VALUES (?,?,?);"@,
            Statement::InsertBinding { .. } => "INSERT INTO "@ + Relation::Binding.table_text()
                + " (device_id, owner_wallet, is_bound) VALUES (?,?,?);"@,
            Statement::DeleteBinding { .. } => "DELETE FROM "@ + Relation::Binding.table_text()
                + " WHERE device_id = ?;"@,
            Statement::InsertData { .. } => "INSERT INTO "@ + Relation::Data.table_text()
                + " (device_id, data, timestamp) VALUES (?,?,?);"@,
        }
    }

    /// The parameters of the statement, in the order of its `?`s.
    pub open spec fn param_list(self) -> Seq<ParamView> {
        match self {
            Statement::Select { device_id, .. } => seq![ParamView::Text(device_id@)],
            Statement::InsertRegistry { device_id, vehicle_id } => seq![
                ParamView::Text(device_id@),
                ParamView::Text(vehicle_id@),
                ParamView::Flag(true),
            ],
            Statement::InsertBinding { device_id, owner_wallet } => seq![
                ParamView::Text(device_id@),
                ParamView::Text(owner_wallet@),
                ParamView::Flag(true),
            ],
            Statement::DeleteBinding { device_id } => seq![ParamView::Text(device_id@)],
            Statement::InsertData { device_id, message, timestamp } => seq![
                ParamView::Text(device_id@),
                ParamView::Text(message@),
                ParamView::Text(timestamp@),
            ],
        }
    }

    /// Whether the statement only reads.
    pub fn is_query(&self) -> (reads: bool)
        ensures
            reads == self.reads(),
    {
        match self {
            Statement::Select { .. } => true,
            _ => false,
        }
    }

    /// The relation that the statement addresses.
    pub fn relation(&self) -> (relation: Relation)
        ensures
            relation == self.target(),
    {
        match self {
            Statement::Select { relation, .. } => *relation,
            Statement::InsertRegistry { .. } => Relation::Registry,
            Statement::InsertBinding { .. } => Relation::Binding,
            Statement::DeleteBinding { .. } => Relation::Binding,
            Statement::InsertData { .. } => Relation::Data,
        }
    }

    /// The device that the statement is keyed by.
    pub fn device_id(&self) -> (device_id: &str)
        ensures
            device_id@ == self.device(),
    {
        match self {
            Statement::Select { device_id, .. } => device_id.as_str(),
            Statement::InsertRegistry { device_id, .. } => device_id.as_str(),
            Statement::InsertBinding { device_id, .. } => device_id.as_str(),
            Statement::DeleteBinding { device_id } => device_id.as_str(),
            Statement::InsertData { device_id, .. } => device_id.as_str(),
        }
    }

    /// The text of the statement, with a `?` for each parameter.
    pub fn sql(&self) -> (text: String)
        ensures
            text@ == self.sql_text(),
    {
        let (head, tail) = match self {
            Statement::Select { .. } => ("SELECT device_id FROM ", " WHERE device_id = ?;"),
            Statement::InsertRegistry { .. } => (
                "INSERT INTO ",
                " (device_id, vehicle_id, is_registered) VALUES (?,?,?);",
            ),
            Statement::InsertBinding { .. } => (
                "INSERT INTO ",
                " (device_id, owner_wallet, is_bound) VALUES (?,?,?);",
            ),
            Statement::DeleteBinding { .. } => ("DELETE FROM ", " WHERE device_id = ?;"),
            Statement::InsertData { .. } => (
                "INSERT INTO ",
                " (device_id, data, timestamp) VALUES (?,?,?);",
            ),
        };
        let mut text = String::from_str(head);
        text.append(self.relation().table_name());
        text.append(tail);
        text
    }

    /// The parameters of the statement, in the order of its `?`s.
    pub fn params(&self) -> (params: Vec<Param>)
        ensures
            param_views(params@) == self.param_list(),
    {
        let mut params: Vec<Param> = Vec::new();
        match self {
            Statement::Select { device_id, .. } => {
                params.push(Param::Text(device_id.clone()));
            },
            Statement::InsertRegistry { device_id, vehicle_id } => {
                params.push(Param::Text(device_id.clone()));
                params.push(Param::Text(vehicle_id.clone()));
                params.push(Param::Flag(true));
            },
            Statement::InsertBinding { device_id, owner_wallet } => {
                params.push(Param::Text(device_id.clone()));
                params.push(Param::Text(owner_wallet.clone()));
                params.push(Param::Flag(true));
            },
            Statement::DeleteBinding { device_id } => {
                params.push(Param::Text(device_id.clone()));
            },
            Statement::InsertData { device_id, message, timestamp } => {
                params.push(Param::Text(device_id.clone()));
                params.push(Param::Text(message.clone()));
                params.push(Param::Text(timestamp.clone()));
            },
        }
        assert(param_views(params@) =~= self.param_list());
        params
    }
}

} // verus!
