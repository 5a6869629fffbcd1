//! A transition in flight against a store that is reached by statements.
//!
//! The store may be anywhere: the lifecycle says which statement to issue
//! next, the caller runs it and hands back the reply, and the lifecycle
//! reads the reply and goes on or finishes. Whether the device is
//! registered is looked up first, then whether it is bound, then the write
//! is issued; the first lookup that fails the rule decides the refusal, and
//! a fault of the store ends the transition at once.

use crate::error::LifecycleError;
use crate::error::Outcome;
use crate::error::Rejection;
use crate::error::Reply;
use crate::error::StoreError;
use crate::lifecycle::rejected;
use crate::lifecycle::Command;
use crate::payload::truthy;
use crate::payload::BindingRecord;
use crate::payload::DataRecord;
use crate::payload::RegistrationRecord;
use crate::statement::Relation;
use crate::statement::Statement;
use crate::store::DeviceStore;
use crate::store::StoreView;
use vstd::prelude::*;

verus! {

/// What a transition waits for.
#[derive(Debug, Clone, PartialEq, Eq)]
pub enum Transition {
    /// A registration waits to hear whether the device is registered.
    RegisterLookup(RegistrationRecord),
    /// A binding waits to hear whether the device is registered.
    BindingLookup(BindingRecord),
    /// A reading waits to hear whether the device is registered.
    IngestRegistryLookup(DataRecord),
    /// A reading of a registered device waits to hear whether the device
    /// is bound.
    IngestBindingLookup(DataRecord),
    /// The write was issued; its reply ends the transition.
    Writing,
}

/// What the caller is to do next.
#[derive(Debug, PartialEq, Eq)]
pub enum Step {
    /// Run the statement and hand its reply to `next`.
    Issue { statement: Statement, next: Transition },
    /// The transition is over.
    Finish(Outcome),
}

/// What a lookup found, read from its reply: a row where any row matched.
pub open spec fn found_in(reply: Reply) -> Result<bool, StoreError> {
    match reply {
        Ok(count) => Ok(count > 0),
        Err(fault) => Err(fault),
    }
}

/// What a lookup found, read from its reply. A fault stays a fault: it
/// does not count as "no row".
pub fn found(reply: Reply) -> (present: Result<bool, StoreError>)
    ensures
        present == found_in(reply),
{
    match reply {
        Ok(count) => Ok(count > 0),
        Err(fault) => Err(fault),
    }
}

/// The outcome of a transition that a fault of the store ended.
pub open spec fn faulted(fault: StoreError) -> Outcome {
    Err(LifecycleError::Store(fault))
}

/// The lookup of a device in a relation.
pub open spec fn lookup_of(relation: Relation, device_id: String) -> Statement {
    Statement::Select { relation, device_id }
}

impl Transition {
    /// The first step of a command: the lookup of its device in the
    /// registry.
    pub open spec fn first_step(command: Command) -> Step {
        match command {
            Command::Register(record) => Step::Issue {
                statement: lookup_of(Relation::Registry, record.device_id),
                next: Transition::RegisterLookup(record),
            },
            Command::SetBinding(record) => Step::Issue {
                statement: lookup_of(Relation::Registry, record.device_id),
                next: Transition::BindingLookup(record),
            },
            Command::Ingest(record) => Step::Issue {
                statement: lookup_of(Relation::Registry, record.device_id),
                next: Transition::IngestRegistryLookup(record),
            },
        }
    }

    /// The step that follows a reply.
    pub open spec fn next_step(self, reply: Reply) -> Step {
        match found_in(reply) {
            Err(fault) => Step::Finish(faulted(fault)),
            Ok(present) => match self {
                Transition::RegisterLookup(record) => if present {
                    Step::Finish(rejected(Rejection::AlreadyRegistered))
                } else {
                    Step::Issue {
                        statement: Statement::InsertRegistry {
                            device_id: record.device_id,
                            vehicle_id: record.vehicle_id,
                        },
                        next: Transition::Writing,
                    }
                },
                Transition::BindingLookup(record) => if !present {
                    Step::Finish(rejected(Rejection::NotRegistered))
                } else if truthy(record.binding_flag@) {
                    Step::Issue {
                        statement: Statement::InsertBinding {
                            device_id: record.device_id,
                            owner_wallet: record.owner_wallet,
                        },
                        next: Transition::Writing,
                    }
                } else {
                    Step::Issue {
                        statement: Statement::DeleteBinding { device_id: record.device_id },
                        next: Transition::Writing,
                    }
                },
                Transition::IngestRegistryLookup(record) => if !present {
                    Step::Finish(rejected(Rejection::NotRegistered))
                } else {
                    Step::Issue {
                        statement: lookup_of(Relation::Binding, record.device_id),
                        next: Transition::IngestBindingLookup(record),
                    }
                },
                Transition::IngestBindingLookup(record) => if !present {
                    Step::Finish(rejected(Rejection::NotBound))
                } else {
                    Step::Issue {
                        statement: Statement::InsertData {
                            device_id: record.device_id,
                            message: record.message,
                            timestamp: record.timestamp,
                        },
                        next: Transition::Writing,
                    }
                },
                Transition::Writing => Step::Finish(Ok(())),
            },
        }
    }

    /// Starts the transition that a command asks for.
    pub fn begin(command: Command) -> (step: Step)
        ensures
            step == Transition::first_step(command),
    {
        match command {
            Command::Register(record) => Step::Issue {
                statement: Statement::Select {
                    relation: Relation::Registry,
                    device_id: record.device_id.clone(),
                },
                next: Transition::RegisterLookup(record),
            },
            Command::SetBinding(record) => Step::Issue {
                statement: Statement::Select {
                    relation: Relation::Registry,
                    device_id: record.device_id.clone(),
                },
                next: Transition::BindingLookup(record),
            },
            Command::Ingest(record) => Step::Issue {
                statement: Statement::Select {
                    relation: Relation::Registry,
                    device_id: record.device_id.clone(),
                },
                next: Transition::IngestRegistryLookup(record),
            },
        }
    }

    /// Reads the reply to the statement that was issued last, and says
    /// what follows.
    pub fn advance(self, reply: Reply) -> (step: Step)
        ensures
            step == self.next_step(reply),
    {
        let present = match found(reply) {
            Err(fault) => return Step::Finish(Err(LifecycleError::Store(fault))),
            Ok(present) => present,
        };
        match self {
            Transition::RegisterLookup(record) => {
                if present {
                    Step::Finish(Err(LifecycleError::PreconditionRejected(Rejection::AlreadyRegistered)))
                } else {
                    Step::Issue {
                        statement: Statement::InsertRegistry {
                            device_id: record.device_id,
                            vehicle_id: record.vehicle_id,
                        },
                        next: Transition::Writing,
                    }
                }
            },
            Transition::BindingLookup(record) => {
                if !present {
                    Step::Finish(Err(LifecycleError::PreconditionRejected(Rejection::NotRegistered)))
                } else if record.binds() {
                    Step::Issue {
                        statement: Statement::InsertBinding {
                            device_id: record.device_id,
                            owner_wallet: record.owner_wallet,
                        },
                        next: Transition::Writing,
                    }
                } else {
                    Step::Issue {
                        statement: Statement::DeleteBinding { device_id: record.device_id },
                        next: Transition::Writing,
                    }
                }
            },
            Transition::IngestRegistryLookup(record) => {
                if !present {
                    Step::Finish(Err(LifecycleError::PreconditionRejected(Rejection::NotRegistered)))
                } else {
                    Step::Issue {
                        statement: Statement::Select {
                            relation: Relation::Binding,
                            device_id: record.device_id.clone(),
                        },
                        next: Transition::IngestBindingLookup(record),
                    }
                }
            },
            Transition::IngestBindingLookup(record) => {
                if !present {
                    Step::Finish(Err(LifecycleError::PreconditionRejected(Rejection::NotBound)))
                } else {
                    Step::Issue {
                        statement: Statement::InsertData {
                            device_id: record.device_id,
                            message: record.message,
                            timestamp: record.timestamp,
                        },
                        next: Transition::Writing,
                    }
                }
            },
            Transition::Writing => Step::Finish(Ok(())),
        }
    }
}

impl Step {
    /// An upper bound on the statements still to be issued.
    pub open spec fn remaining(self) -> nat {
        match self {
            Step::Finish(_) => 0,
            Step::Issue { next, .. } => match next {
                Transition::Writing => 1,
                Transition::IngestBindingLookup(_) => 2,
                _ => 3,
            },
        }
    }

    /// Whether the step is one that the lifecycle takes for `command`, with
    /// the store at `now` after it was at `start`: a finished transition
    /// has done what the command asks, and a transition in flight has left
    /// the store as it was until its write.
    pub open spec fn on_course(self, command: Command, start: StoreView, now: StoreView) -> bool {
        match self {
            Step::Finish(outcome) => (now, outcome) == start.apply(command),
            Step::Issue { statement, next } => match next {
                Transition::RegisterLookup(record) => {
                    &&& command == Command::Register(record)
                    &&& statement == lookup_of(Relation::Registry, record.device_id)
                    &&& now == start
                },
                Transition::BindingLookup(record) => {
                    &&& command == Command::SetBinding(record)
                    &&& statement == lookup_of(Relation::Registry, record.device_id)
                    &&& now == start
                },
                Transition::IngestRegistryLookup(record) => {
                    &&& command == Command::Ingest(record)
                    &&& statement == lookup_of(Relation::Registry, record.device_id)
                    &&& now == start
                },
                Transition::IngestBindingLookup(record) => {
                    &&& command == Command::Ingest(record)
                    &&& statement == lookup_of(Relation::Binding, record.device_id)
                    &&& now == start
                    &&& start.registered(record.device_id@)
                },
                Transition::Writing => {
                    &&& now.admits(statement)
                    &&& (now.after(statement), Ok::<(), LifecycleError>(())) == start.apply(command)
                },
            },
        }
    }
}

/// The first step of a command is on course.
pub proof fn law_first_step_on_course(command: Command, start: StoreView)
    ensures
        Transition::first_step(command).on_course(command, start, start),
{
}

/// Against a store that runs each statement as the model says, every step
/// that is on course issues a statement that the store admits, and the
/// step that follows its reply is on course again and nearer to the end.
pub proof fn law_steps_stay_on_course(
    statement: Statement,
    next: Transition,
    command: Command,
    start: StoreView,
    now: StoreView,
)
    requires
        (Step::Issue { statement, next }).on_course(command, start, now),
    ensures
        now.admits(statement),
        next.next_step(Ok(now.matched(statement) as usize)).on_course(
            command,
            start,
            now.after(statement),
        ),
        next.next_step(Ok(now.matched(statement) as usize)).remaining() < (Step::Issue {
            statement,
            next,
        }).remaining(),
{
}

/// Whatever the transition waits for, a fault of the store ends it at
/// once, with that fault.
pub proof fn law_fault_ends_transition(transition: Transition, fault: StoreError)
    ensures
        transition.next_step(Err(fault)) == Step::Finish(faulted(fault)),
{
}

/// A transition issues at most one write, and nothing after it: the reply
/// to the write ends the transition.
pub proof fn law_write_comes_last(transition: Transition, reply: Reply)
    ensures
        transition.next_step(reply) matches Step::Issue { statement, next } ==> (!statement.reads()
            ==> next is Writing),
        Transition::Writing.next_step(reply) == Step::Finish(
            match reply {
                Ok(_) => Ok(()),
                Err(fault) => faulted(fault),
            },
        ),
{
}

/// Runs a command against a store in memory, statement by statement.
pub fn run(store: &mut DeviceStore, command: Command) -> (outcome: Outcome)
    ensures
        (final(store)@, outcome) == old(store)@.apply(command),
{
    let ghost start = store@;
    let ghost asked = command;
    let mut step = Transition::begin(command);
    proof {
        law_first_step_on_course(asked, start);
    }
    loop
        invariant
            start == old(store)@,
            asked == command,
            step.on_course(asked, start, store@),
        decreases step.remaining(),
    {
        match step {
            Step::Finish(outcome) => {
                return outcome;
            },
            Step::Issue { statement, next } => {
                proof {
                    law_steps_stay_on_course(statement, next, asked, start, store@);
                }
                let reply = store.execute(&statement);
                step = next.advance(reply);
            },
        }
    }
}

} // verus!
