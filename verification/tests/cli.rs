use uquery::cli::{LogLevel, Options, UQ_CREATE_AWS_CREDENTIAL_CHAIN, UQ_START_UI_SERVER};

#[test]
fn init_query_empty() {
    let options: Options = Options {
        port: 8080,
        addr: "".to_string(),
        verbose: 3,
        gcs_key_id: None,
        gcs_secret: None,
        db_file: None,
        cors_enabled: false,
        aws_credential_chain: false,
        duckdb_ui: false,
        duckdb_ui_port: 14213,
    };
    assert!(options.init_script().is_empty())
}

#[test]
fn init_query_gcs() {
    let options: Options = Options {
        port: 8080,
        addr: "".to_string(),
        verbose: 3,
        gcs_key_id: Some("key_id".to_string()),
        gcs_secret: Some("secret".to_string()),
        db_file: None,
        cors_enabled: false,
        aws_credential_chain: false,
        duckdb_ui: false,
        duckdb_ui_port: 14213,
    };
    assert_eq!(
        options.init_script()[0],
        "CREATE SECRET gcs_secret ( TYPE GCS, KEY_ID 'key_id', SECRET 'secret');"
    );
}

#[test]
fn init_query_aws() {
    let options: Options = Options {
        port: 8080,
        addr: "".to_string(),
        verbose: 3,
        gcs_key_id: None,
        gcs_secret: None,
        db_file: None,
        cors_enabled: false,
        aws_credential_chain: true,
        duckdb_ui: false,
        duckdb_ui_port: 14213,
    };
    assert_eq!(options.init_script()[0], UQ_CREATE_AWS_CREDENTIAL_CHAIN);
}

#[test]
fn init_query_was_gcs() {
    let options: Options = Options {
        port: 8080,
        addr: "".to_string(),
        verbose: 3,
        gcs_key_id: Some("key_id2".to_string()),
        gcs_secret: Some("secret2".to_string()),
        db_file: None,
        cors_enabled: false,
        aws_credential_chain: true,
        duckdb_ui: false,
        duckdb_ui_port: 14213,
    };
    assert_eq!(
        options.init_script()[0],
        "CREATE SECRET gcs_secret ( TYPE GCS, KEY_ID 'key_id2', SECRET 'secret2');"
    );
    assert_eq!(options.init_script()[1], UQ_CREATE_AWS_CREDENTIAL_CHAIN);
}

#[test]
fn init_duckdb_ui() {
    let options: Options = Options {
        port: 8080,
        addr: "".to_string(),
        verbose: 3,
        gcs_key_id: None,
        gcs_secret: None,
        db_file: None,
        cors_enabled: false,
        aws_credential_chain: false,
        duckdb_ui: true,
        duckdb_ui_port: 14213,
    };
    assert_eq!(options.init_script()[0], UQ_START_UI_SERVER);
}

fn plain_options() -> Options {
    Options {
        port: 8080,
        addr: "0.0.0.0".to_string(),
        verbose: 0,
        gcs_key_id: None,
        gcs_secret: None,
        db_file: None,
        cors_enabled: false,
        aws_credential_chain: false,
        duckdb_ui: false,
        duckdb_ui_port: 14213,
    }
}

#[test]
fn init_script_keeps_the_order_of_all_four() {
    let mut options = plain_options();
    options.gcs_key_id = Some("k".to_string());
    options.gcs_secret = Some("s".to_string());
    options.aws_credential_chain = true;
    options.db_file = Some("tests/test.db".to_string());
    options.duckdb_ui = true;
    let script = options.init_script();
    assert_eq!(
        script,
        vec![
            "CREATE SECRET gcs_secret ( TYPE GCS, KEY_ID 'k', SECRET 's');".to_string(),
            "CREATE SECRET aws_secret ( TYPE S3, PROVIDER CREDENTIAL_CHAIN);".to_string(),
            "ATTACH 'tests/test.db' as uquery_attached_db (READ_ONLY);".to_string(),
            "CALL start_ui_server();".to_string(),
        ]
    );
}

#[test]
fn init_script_attaches_read_only() {
    let mut options = plain_options();
    options.db_file = Some("/data/my file.db".to_string());
    assert_eq!(
        options.init_script(),
        vec!["ATTACH '/data/my file.db' as uquery_attached_db (READ_ONLY);".to_string()]
    );
    assert!(options.attached());
}

#[test]
fn init_script_needs_key_and_secret_together() {
    let mut options = plain_options();
    options.gcs_key_id = Some("key_id".to_string());
    assert!(options.init_script().is_empty());
    let mut options = plain_options();
    options.gcs_secret = Some("secret".to_string());
    assert!(options.init_script().is_empty());
}

#[test]
fn init_script_sets_key_and_secret_as_given() {
    let mut options = plain_options();
    options.gcs_key_id = Some("".to_string());
    options.gcs_secret = Some("it's".to_string());
    assert_eq!(
        options.init_script(),
        vec!["CREATE SECRET gcs_secret ( TYPE GCS, KEY_ID '', SECRET 'it's');".to_string()]
    );
}

#[test]
fn listen_address_joins_host_and_port() {
    let mut options = plain_options();
    assert_eq!(options.listen_address(), "0.0.0.0:8080");
    options.addr = "localhost".to_string();
    options.port = 0;
    assert_eq!(options.listen_address(), "localhost:0");
    options.port = 65535;
    assert_eq!(options.listen_address(), "localhost:65535");
    options.port = 7;
    assert_eq!(options.listen_address(), "localhost:7");
    options.port = 10;
    assert_eq!(options.listen_address(), "localhost:10");
    options.port = 1009;
    assert_eq!(options.listen_address(), "localhost:1009");
}

#[test]
fn log_level_follows_the_verbose_count() {
    let mut options = plain_options();
    assert_eq!(options.log_level(), LogLevel::Info);
    options.verbose = 1;
    assert_eq!(options.log_level(), LogLevel::Debug);
    options.verbose = 2;
    assert_eq!(options.log_level(), LogLevel::Trace);
    options.verbose = 255;
    assert_eq!(options.log_level(), LogLevel::Trace);
}

#[test]
fn nothing_is_attached_without_a_database_file() {
    assert!(!plain_options().attached());
}

#[test]
fn defaults_are_those_of_the_command_line() {
    assert_eq!(uquery::cli::DEFAULT_PORT, 8080);
    assert_eq!(uquery::cli::DEFAULT_ADDR, "0.0.0.0");
    assert_eq!(uquery::cli::DEFAULT_UI_PORT, 14213);
    assert_eq!(uquery::cli::UQ_ATTACHED_DB_NAME, "uquery_attached_db");
}
