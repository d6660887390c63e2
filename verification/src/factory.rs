//! Choosing and opening the coordination authority backend.
use vstd::prelude::*;

use crate::git_shared_refs::GitSharedRefsCoordinationAuthorityStore;

verus! {

/// Which backend holds the coordination authority.
#[derive(Debug, Clone, PartialEq, Eq)]
pub enum CoordinationAuthorityBackendConfig {
    GitSharedRefs,
    Sqlite { db_path: String },
    Postgres { connection_url: String },
}

impl CoordinationAuthorityBackendConfig {
    /// The default backend: git shared refs.
    pub fn default_config() -> (c: Self)
        ensures
            c == CoordinationAuthorityBackendConfig::GitSharedRefs,
    {
        CoordinationAuthorityBackendConfig::GitSharedRefs
    }
}

impl Default for CoordinationAuthorityBackendConfig {
    fn default() -> (c: Self)
        ensures
            c == CoordinationAuthorityBackendConfig::GitSharedRefs,
    {
        CoordinationAuthorityBackendConfig::GitSharedRefs
    }
}

/// Why an authority backend could not be opened.
#[derive(Debug, Clone, PartialEq, Eq)]
pub struct CoordinationAuthorityOpenError {
    message: String,
}

impl CoordinationAuthorityOpenError {
    pub closed spec fn spec_message(&self) -> Seq<char> {
        self.message@
    }

    /// The error's text.
    pub fn message(&self) -> (m: &str)
        ensures
            m@ == self.spec_message(),
    {
        self.message.as_str()
    }
}

/// The text of the error for a SQLite backend.
pub open spec fn sqlite_unimplemented_message(db_path: Seq<char>) -> Seq<char> {
    "sqlite-backed coordination authority is not implemented yet (configured db path: "@ + db_path
        + ")"@
}

/// The text of the error for a Postgres backend.
pub open spec fn postgres_unimplemented_message(connection_url: Seq<char>) -> Seq<char> {
    "postgres-backed coordination authority is not implemented yet (configured connection: "@
        + connection_url + ")"@
}

fn postgres_unimplemented(connection_url: &str) -> (e: CoordinationAuthorityOpenError)
    ensures
        e.spec_message() == postgres_unimplemented_message(connection_url@),
{
    let mut message = String::from_str(
        "postgres-backed coordination authority is not implemented yet (configured connection: ",
    );
    message.append(connection_url);
    message.append(")");
    CoordinationAuthorityOpenError { message }
}

/// What opening an authority under `config` gives: the shared-ref store of
/// the workspace, or the error for a backend that is not implemented.
pub open spec fn open_outcome(
    root: Seq<char>,
    config: CoordinationAuthorityBackendConfig,
    r: Result<GitSharedRefsCoordinationAuthorityStore, CoordinationAuthorityOpenError>,
) -> bool {
    match config {
        CoordinationAuthorityBackendConfig::GitSharedRefs => r matches Ok(s) && s.spec_root() == root,
        CoordinationAuthorityBackendConfig::Sqlite { db_path } => r matches Err(e)
            && e.spec_message() == sqlite_unimplemented_message(db_path@),
        CoordinationAuthorityBackendConfig::Postgres { connection_url } => r matches Err(e)
            && e.spec_message() == postgres_unimplemented_message(connection_url@),
    }
}

/// Opens the authority of the workspace at `root` under `config`.  Only the
/// shared-ref backend is implemented.
pub fn open_coordination_authority_store(
    root: &str,
    config: &CoordinationAuthorityBackendConfig,
) -> (r: Result<GitSharedRefsCoordinationAuthorityStore, CoordinationAuthorityOpenError>)
    ensures
        open_outcome(root@, *config, r),
{
    match config {
        CoordinationAuthorityBackendConfig::GitSharedRefs => Ok(
            GitSharedRefsCoordinationAuthorityStore::new(root),
        ),
        CoordinationAuthorityBackendConfig::Sqlite { db_path } => {
            let mut message = String::from_str(
                "sqlite-backed coordination authority is not implemented yet (configured db path: ",
            );
            message.append(db_path.as_str());
            message.append(")");
            Err(CoordinationAuthorityOpenError { message })
        },
        CoordinationAuthorityBackendConfig::Postgres { connection_url } => Err(
            postgres_unimplemented(connection_url.as_str()),
        ),
    }
}

/// Opens authorities under one backend configuration.
#[derive(Debug, Clone, PartialEq, Eq)]
pub struct CoordinationAuthorityStoreProvider {
    config: CoordinationAuthorityBackendConfig,
}

impl CoordinationAuthorityStoreProvider {
    pub closed spec fn spec_config(&self) -> CoordinationAuthorityBackendConfig {
        self.config
    }

    pub fn new(config: CoordinationAuthorityBackendConfig) -> (p: Self)
        ensures
            p.spec_config() == config,
    {
        CoordinationAuthorityStoreProvider { config }
    }

    pub fn config(&self) -> (c: &CoordinationAuthorityBackendConfig)
        ensures
            *c == self.spec_config(),
    {
        &self.config
    }

    /// Opens the authority of the workspace at `root` under this provider's
    /// configuration.
    pub fn open(&self, root: &str) -> (r: Result<
        GitSharedRefsCoordinationAuthorityStore,
        CoordinationAuthorityOpenError,
    >)
        ensures
            open_outcome(root@, self.spec_config(), r),
    {
        open_coordination_authority_store(root, &self.config)
    }
}

impl Default for CoordinationAuthorityStoreProvider {
    fn default() -> (p: Self)
        ensures
            p.spec_config() == CoordinationAuthorityBackendConfig::GitSharedRefs,
    {
        CoordinationAuthorityStoreProvider::new(CoordinationAuthorityBackendConfig::GitSharedRefs)
    }
}

/// The provider of the default backend.
pub fn default_coordination_authority_store_provider() -> (p: CoordinationAuthorityStoreProvider)
    ensures
        p.spec_config() == CoordinationAuthorityBackendConfig::GitSharedRefs,
{
    CoordinationAuthorityStoreProvider::new(CoordinationAuthorityBackendConfig::default_config())
}

/// Opens the authority of the workspace at `root` with the default backend.
pub fn open_default_coordination_authority_store(root: &str) -> (r: Result<
    GitSharedRefsCoordinationAuthorityStore,
    CoordinationAuthorityOpenError,
>)
    ensures
        r matches Ok(s) && s.spec_root() == root@,
{
    default_coordination_authority_store_provider().open(root)
}

/// A Postgres authority database; none can be opened yet.
#[derive(Debug, Clone, PartialEq, Eq)]
pub struct PostgresCoordinationAuthorityDb {
    connection_url: String,
}

impl PostgresCoordinationAuthorityDb {
    pub closed spec fn spec_connection_url(&self) -> Seq<char> {
        self.connection_url@
    }

    /// Opening always fails: the backend is not implemented.
    pub fn open(_root: &str, connection_url: &str) -> (r: Result<Self, CoordinationAuthorityOpenError>)
        ensures
            r matches Err(e) && e.spec_message() == postgres_unimplemented_message(connection_url@),
    {
        Err(postgres_unimplemented(connection_url))
    }

    /// The error every operation of this database answers with.
    pub fn not_implemented(&self) -> (e: CoordinationAuthorityOpenError)
        ensures
            e.spec_message() == postgres_unimplemented_message(self.spec_connection_url()),
    {
        postgres_unimplemented(self.connection_url.as_str())
    }
}

/// Opening a Postgres-backed authority always fails.
pub fn open_postgres_coordination_authority_store(root: &str, connection_url: &str) -> (r: Result<
    PostgresCoordinationAuthorityDb,
    CoordinationAuthorityOpenError,
>)
    ensures
        r matches Err(e) && e.spec_message() == postgres_unimplemented_message(connection_url@),
{
    PostgresCoordinationAuthorityDb::open(root, connection_url)
}

} // verus!
