//! The database commands of the command line: what each one asks for.
use vstd::prelude::*;

verus! {

/// The databases that a shell can be opened on.
#[derive(Debug, Clone, Copy, PartialEq, Eq, Structural)]
pub enum DatabaseType {
    Cockroachdb,
    Redis,
    Clickhouse,
    WorkflowData,
    WorkflowInternal,
}

/// The shells that serve the databases. The two workflow databases share
/// one, which is told which of them to open.
#[derive(Debug, Clone, Copy, PartialEq, Eq, Structural)]
pub enum ShellKind {
    Cockroachdb,
    Redis,
    Clickhouse,
    WorkflowSqlite { internal: bool },
}

impl DatabaseType {
    /// The shell that serves this database.
    pub open spec fn shell_kind_spec(self) -> ShellKind {
        match self {
            DatabaseType::Cockroachdb => ShellKind::Cockroachdb,
            DatabaseType::Redis => ShellKind::Redis,
            DatabaseType::Clickhouse => ShellKind::Clickhouse,
            DatabaseType::WorkflowData => ShellKind::WorkflowSqlite { internal: false },
            DatabaseType::WorkflowInternal => ShellKind::WorkflowSqlite { internal: true },
        }
    }

    /// The shell that serves this database.
    pub fn shell_kind(&self) -> (kind: ShellKind)
        ensures
            kind == self.shell_kind_spec(),
    {
        match self {
            DatabaseType::Cockroachdb => ShellKind::Cockroachdb,
            DatabaseType::Redis => ShellKind::Redis,
            DatabaseType::Clickhouse => ShellKind::Clickhouse,
            DatabaseType::WorkflowData => ShellKind::WorkflowSqlite { internal: false },
            DatabaseType::WorkflowInternal => ShellKind::WorkflowSqlite { internal: true },
        }
    }
}

/// What a shell is opened for: a service, and the query to run on it. Without
/// a query the shell is interactive.
pub struct ShellQuery {
    pub svc: String,
    pub query: Option<String>,
}

/// A database command. `M` is the command of a migration.
pub enum SubCommand<M> {
    Migrate { command: M },
    Shell { database_type: DatabaseType, service: String, query: Option<String> },
}

/// What has to be done for a database command.
pub enum Action<M> {
    /// Run the migration command.
    Migrate { command: M },
    /// Open the shell of the given kind for the queries, in their order.
    OpenShell { kind: ShellKind, queries: Vec<ShellQuery> },
}

impl<M> SubCommand<M> {
    /// What this command asks for: a migration is handed on as it is; a
    /// shell is opened with the shell of the database, for the one query of
    /// the command.
    pub open spec fn plan_spec(self, action: Action<M>) -> bool {
        match self {
            SubCommand::Migrate { command } => action == (Action::Migrate { command }),
            SubCommand::Shell { database_type, service, query } => {
                &&& action is OpenShell
                &&& action->kind == database_type.shell_kind_spec()
                &&& action->queries@.len() == 1
                &&& action->queries@[0].svc == service
                &&& action->queries@[0].query == query
            },
        }
    }

    /// Decides what has to be done for this command.
    pub fn plan(self) -> (action: Action<M>)
        ensures
            self.plan_spec(action),
    {
        match self {
            SubCommand::Migrate { command } => Action::Migrate { command },
            SubCommand::Shell { database_type, service, query } => {
                let mut queries: Vec<ShellQuery> = Vec::new();
                queries.push(ShellQuery { svc: service, query });
                Action::OpenShell { kind: database_type.shell_kind(), queries }
            },
        }
    }
}

} // verus!
