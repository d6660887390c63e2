use prism_core::factory::{
    default_coordination_authority_store_provider, open_coordination_authority_store,
    CoordinationAuthorityBackendConfig, CoordinationAuthorityStoreProvider,
};

#[test]
fn default_backend_config_is_git_shared_refs() {
    assert_eq!(
        CoordinationAuthorityBackendConfig::default(),
        CoordinationAuthorityBackendConfig::GitSharedRefs
    );
}

#[test]
fn default_provider_uses_default_backend_config() {
    let provider = default_coordination_authority_store_provider();
    assert_eq!(
        provider.config(),
        &CoordinationAuthorityBackendConfig::GitSharedRefs
    );
}

#[test]
fn provider_opens_using_its_config() {
    let provider = CoordinationAuthorityStoreProvider::new(CoordinationAuthorityBackendConfig::Sqlite {
        db_path: "coordination-authority.db".to_string(),
    });
    let error = match provider.open(".") {
        Ok(_) => panic!("sqlite backend should not open yet"),
        Err(error) => error,
    };
    assert!(error
        .message()
        .contains("sqlite-backed coordination authority is not implemented yet"));
}

#[test]
fn opening_sqlite_backend_is_explicitly_unimplemented() {
    let error = match open_coordination_authority_store(
        ".",
        &CoordinationAuthorityBackendConfig::Sqlite {
            db_path: "coordination-authority.db".to_string(),
        },
    ) {
        Ok(_) => panic!("sqlite backend should not open yet"),
        Err(error) => error,
    };
    assert!(error
        .message()
        .contains("sqlite-backed coordination authority is not implemented yet"));
}

#[test]
fn opening_postgres_backend_is_explicitly_unimplemented() {
    let error = match open_coordination_authority_store(
        ".",
        &CoordinationAuthorityBackendConfig::Postgres {
            connection_url: "postgres://localhost/prism".to_string(),
        },
    ) {
        Ok(_) => panic!("postgres backend should not open yet"),
        Err(error) => error,
    };
    assert!(error
        .message()
        .contains("postgres-backed coordination authority is not implemented yet"));
}

#[test]
fn opening_git_shared_refs_backend_keeps_the_root() {
    let store = open_coordination_authority_store(
        "/work/repo",
        &CoordinationAuthorityBackendConfig::GitSharedRefs,
    )
    .expect("shared-ref backend opens");
    assert_eq!(store.root(), "/work/repo");
}

#[test]
fn sqlite_open_error_names_the_configured_path() {
    let error = open_coordination_authority_store(
        ".",
        &CoordinationAuthorityBackendConfig::Sqlite {
            db_path: "db/authority.db".to_string(),
        },
    )
    .err()
    .expect("sqlite backend should not open yet");
    assert_eq!(
        error.message(),
        "sqlite-backed coordination authority is not implemented yet (configured db path: db/authority.db)"
    );
}
