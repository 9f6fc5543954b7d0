//! The lifecycle orchestrator: a state machine that decides every step of a
//! create/drop/force-drop call. The embedding application performs the
//! connects and executes and feeds each result back as an [`Event`]; the
//! orchestrator redirects the connection parameters, renders the statement,
//! and delivers exactly one final outcome.

use vstd::prelude::*;
use vstd::string::StringExecFns;
use crate::errors::CustomError;
use crate::template::{get_sql_statement, quote_identifier, spec_quoted, spec_statement, Action};

verus! {

/// Name of the always-present administrative database used as the connection
/// target while the lifecycle statement runs.
pub open spec fn spec_admin_db() -> Seq<char> {
    "postgres"@
}

/// Connection parameters as the orchestration logic sees them. The target
/// database name is redirected to the administrative database for the
/// duration of the DDL call and then back to the target name; every other
/// field is left alone.
pub struct ConnectionParameters {
    /// Server host name or address.
    pub host: String,
    /// Server port.
    pub port: u16,
    /// User name credential.
    pub user: String,
    /// Password credential.
    pub password: String,
    /// Target database name.
    pub dbname: String,
}

/// Phase of a lifecycle call.
#[derive(Clone, Copy, Debug)]
pub enum Phase {
    /// Connecting to the administrative database.
    AdminConnect,
    /// Executing the rendered DDL statement over the admin connection.
    Execute,
    /// A final outcome has been delivered.
    Done,
}

/// What the embedding application reports back to the orchestrator.
pub enum Event {
    /// The administrative connection was established.
    Connected,
    /// The administrative connection failed, with the normalized error.
    ConnectFailed(CustomError),
    /// The statement executed, affecting this many rows.
    Executed(u64),
    /// The statement failed, with the normalized error.
    ExecuteFailed(CustomError),
}

/// What the orchestrator asks the embedding application to do next.
pub enum Step {
    /// Execute this statement over the administrative connection.
    Execute(String),
    /// The call is over; deliver this outcome to the caller exactly once.
    Finished(Result<u64, CustomError>),
}

/// One database-lifecycle call: which action, on which (possibly quoted)
/// name, and how far it has come.
pub struct Orchestrator {
    /// The action being performed.
    pub action: Action,
    /// The effective database name, already in quoted form when quoting was
    /// requested.
    pub db_name: String,
    /// Current phase of the call.
    pub phase: Phase,
}

impl Orchestrator {
    /// The effective name is never empty.
    pub open spec fn wf(self) -> bool {
        self.db_name@.len() > 0
    }

    /// Starts a lifecycle call: fixes the effective database name (quoting it
    /// on request) and redirects the connection parameters at the
    /// administrative database, where the first step is to connect.
    pub fn new(
        action: Action,
        db_name: &str,
        quote_name: bool,
        params: &mut ConnectionParameters,
    ) -> (r: Orchestrator)
        requires
            db_name@.len() > 0,
        ensures
            r.wf(),
            r.action == action,
            r.phase is AdminConnect,
            r.db_name@ == if quote_name {
                spec_quoted(db_name@)
            } else {
                db_name@
            },
            final(params).dbname@ == spec_admin_db(),
            final(params).host == old(params).host,
            final(params).port == old(params).port,
            final(params).user == old(params).user,
            final(params).password == old(params).password,
    {
        params.dbname = String::from_str("postgres");
        let name = if quote_name {
            quote_identifier(db_name)
        } else {
            String::from_str(db_name)
        };
        Orchestrator { action, db_name: name, phase: Phase::AdminConnect }
    }

    /// One transition of the lifecycle state machine. A connect result is
    /// expected exactly in the admin-connect phase and an execute result
    /// exactly in the execute phase; a finished call takes no further event.
    ///
    /// On a successful connect the connection parameters are redirected back
    /// at the target database, so that after the call they point where the
    /// caller intended, and the rendered statement is handed out for
    /// execution. Every failure is delivered as an outcome carrying the
    /// normalized error unchanged, never swallowed.
    pub fn step(&mut self, params: &mut ConnectionParameters, event: Event) -> (r: Step)
        requires
            old(self).wf(),
            old(self).phase is AdminConnect <==> (event is Connected || event is ConnectFailed),
            old(self).phase is Execute <==> (event is Executed || event is ExecuteFailed),
        ensures
            final(self).wf(),
            final(self).action == old(self).action,
            final(self).db_name == old(self).db_name,
            event is Connected ==> {
                &&& final(self).phase is Execute
                &&& (r matches Step::Execute(stmt)
                    && stmt@ == spec_statement(old(self).action, old(self).db_name@))
                &&& final(params).dbname == old(self).db_name
                &&& final(params).host == old(params).host
                &&& final(params).port == old(params).port
                &&& final(params).user == old(params).user
                &&& final(params).password == old(params).password
            },
            (event matches Event::ConnectFailed(e) ==> {
                &&& final(self).phase is Done
                &&& r == Step::Finished(Result::<u64, CustomError>::Err(e))
                &&& *final(params) == *old(params)
            }),
            (event matches Event::Executed(n) ==> {
                &&& final(self).phase is Done
                &&& r == Step::Finished(Result::<u64, CustomError>::Ok(n))
                &&& *final(params) == *old(params)
            }),
            (event matches Event::ExecuteFailed(e) ==> {
                &&& final(self).phase is Done
                &&& r == Step::Finished(Result::<u64, CustomError>::Err(e))
                &&& *final(params) == *old(params)
            }),
    {
        match event {
            Event::Connected => {
                let stmt = get_sql_statement(self.action, self.db_name.as_str());
                params.dbname = self.db_name.clone();
                self.phase = Phase::Execute;
                Step::Execute(stmt)
            },
            Event::ConnectFailed(e) => {
                self.phase = Phase::Done;
                Step::Finished(Result::Err(e))
            },
            Event::Executed(n) => {
                self.phase = Phase::Done;
                Step::Finished(Result::Ok(n))
            },
            Event::ExecuteFailed(e) => {
                self.phase = Phase::Done;
                Step::Finished(Result::Err(e))
            },
        }
    }
}

} // verus!
