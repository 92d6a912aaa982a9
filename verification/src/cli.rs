//! The server's options and what follows from them: the statements run on
//! the engine at startup, the address to listen on, and how much is logged.

use crate::text::{decimal, push_decimal, texts};
use vstd::prelude::*;

verus! {

/// The name under which a database file is attached.
pub const UQ_ATTACHED_DB_NAME: &'static str = "uquery_attached_db";

/// The statement that takes AWS credentials from the credential chain.
pub const UQ_CREATE_AWS_CREDENTIAL_CHAIN: &'static str =
    "CREATE SECRET aws_secret ( TYPE S3, PROVIDER CREDENTIAL_CHAIN);";

/// The statement that starts the engine's UI server.
pub const UQ_START_UI_SERVER: &'static str = "CALL start_ui_server();";

/// The modules whose logging is switched off whatever the verbosity.
pub const UQ_LOG_FILTER: &'static str = "pingora_core=off,pingora_pool=off,pingora_proxy=off";

/// The port listened on unless another is given.
pub const DEFAULT_PORT: u16 = 8080;

/// The address listened on unless another is given.
pub const DEFAULT_ADDR: &'static str = "0.0.0.0";

/// The port of the engine's UI unless another is given.
pub const DEFAULT_UI_PORT: u16 = 14213;

/// How much is logged.
#[derive(Clone, Copy, Debug, PartialEq, Eq, Structural)]
pub enum LogLevel {
    Info,
    Debug,
    Trace,
}

/// What the server is started with.
#[derive(Clone, Debug, PartialEq, Eq)]
pub struct Options {
    /// Port to listen on
    pub port: u16,
    /// Address to listen on
    pub addr: String,
    /// Verbose mode: how often the flag was given.
    pub verbose: u8,
    /// Google Cloud Storage key id
    pub gcs_key_id: Option<String>,
    /// Google Cloud Storage secret
    pub gcs_secret: Option<String>,
    /// Database file to attach in read only mode and use as default
    pub db_file: Option<String>,
    /// Enable permissive CORS
    pub cors_enabled: bool,
    /// Enable the AWS credential chain
    pub aws_credential_chain: bool,
    /// Enable the engine's UI proxy
    pub duckdb_ui: bool,
    /// Port of the engine's UI
    pub duckdb_ui_port: u16,
}

/// The statement that stores a Google Cloud Storage key. Key and secret are
/// set between the quotes as they are.
pub open spec fn gcs_secret_statement(key: Seq<char>, secret: Seq<char>) -> Seq<char> {
    "CREATE SECRET gcs_secret ( TYPE GCS, KEY_ID '"@ + key + "', SECRET '"@ + secret + "');"@
}

/// The statement that attaches a database file, read only, under
/// [`UQ_ATTACHED_DB_NAME`].
pub open spec fn attach_statement(db_file: Seq<char>) -> Seq<char> {
    "ATTACH '"@ + db_file + "' as "@ + UQ_ATTACHED_DB_NAME@ + " (READ_ONLY);"@
}

/// One statement if `present`, none if not.
pub open spec fn statement_if(present: bool, statement: Seq<char>) -> Seq<Seq<char>> {
    if present {
        seq![statement]
    } else {
        Seq::empty()
    }
}

/// The log level for a count of verbose flags.
pub open spec fn level_of(verbose: u8) -> LogLevel {
    if verbose == 0 {
        LogLevel::Info
    } else if verbose == 1 {
        LogLevel::Debug
    } else {
        LogLevel::Trace
    }
}

impl Options {
    /// The startup script: the Google Cloud Storage secret if both key and
    /// secret are given, the AWS credential chain if enabled, the attachment
    /// of the database file if one is given, and the start of the UI server
    /// if enabled, in this order.
    pub open spec fn script(&self) -> Seq<Seq<char>> {
        statement_if(
            self.gcs_key_id is Some && self.gcs_secret is Some,
            gcs_secret_statement(self.gcs_key_id->0@, self.gcs_secret->0@),
        ) + statement_if(self.aws_credential_chain, UQ_CREATE_AWS_CREDENTIAL_CHAIN@)
            + statement_if(self.db_file is Some, attach_statement(self.db_file->0@))
            + statement_if(self.duckdb_ui, UQ_START_UI_SERVER@)
    }

    /// The address to bind: host and port, joined by a colon.
    pub open spec fn address(&self) -> Seq<char> {
        self.addr@ + ":"@ + decimal(self.port as nat)
    }

    /// The statements to run on the engine's connection before it serves.
    pub fn init_script(&self) -> (r: Vec<String>)
        ensures
            texts(r@) == self.script(),
    {
        let mut init_script: Vec<String> = Vec::new();
        assert(texts(init_script@) =~= Seq::<Seq<char>>::empty());
        match (&self.gcs_key_id, &self.gcs_secret) {
            (Some(key), Some(secret)) => {
                let mut statement = String::from_str(
                    "CREATE SECRET gcs_secret ( TYPE GCS, KEY_ID '",
                );
                statement.append(key.as_str());
                statement.append("', SECRET '");
                statement.append(secret.as_str());
                statement.append("');");
                init_script.push(statement);
            },
            _ => {},
        }
        assert(texts(init_script@) =~= statement_if(
            self.gcs_key_id is Some && self.gcs_secret is Some,
            gcs_secret_statement(self.gcs_key_id->0@, self.gcs_secret->0@),
        ));
        let ghost first = texts(init_script@);
        if self.aws_credential_chain {
            init_script.push(String::from_str(UQ_CREATE_AWS_CREDENTIAL_CHAIN));
        }
        assert(texts(init_script@) =~= first + statement_if(
            self.aws_credential_chain,
            UQ_CREATE_AWS_CREDENTIAL_CHAIN@,
        ));
        let ghost second = texts(init_script@);
        match &self.db_file {
            Some(db_file) => {
                let mut statement = String::from_str("ATTACH '");
                statement.append(db_file.as_str());
                statement.append("' as ");
                statement.append(UQ_ATTACHED_DB_NAME);
                statement.append(" (READ_ONLY);");
                init_script.push(statement);
            },
            None => {},
        }
        assert(texts(init_script@) =~= second + statement_if(
            self.db_file is Some,
            attach_statement(self.db_file->0@),
        ));
        let ghost third = texts(init_script@);
        if self.duckdb_ui {
            init_script.push(String::from_str(UQ_START_UI_SERVER));
        }
        assert(texts(init_script@) =~= third + statement_if(self.duckdb_ui, UQ_START_UI_SERVER@));
        init_script
    }

    /// The address to listen on.
    pub fn listen_address(&self) -> (r: String)
        ensures
            r@ == self.address(),
    {
        let mut address = self.addr.clone();
        address.append(":");
        push_decimal(&mut address, self.port);
        address
    }

    /// Whether a database file is attached at startup, so that every
    /// connection is to use it as its default catalog.
    pub fn attached(&self) -> (r: bool)
        ensures
            r == (self.db_file is Some),
    {
        self.db_file.is_some()
    }

    /// How much is logged: informational messages by default, debugging
    /// messages with one verbose flag, everything with more.
    pub fn log_level(&self) -> (r: LogLevel)
        ensures
            r == level_of(self.verbose),
    {
        if self.verbose == 0 {
            LogLevel::Info
        } else if self.verbose == 1 {
            LogLevel::Debug
        } else {
            LogLevel::Trace
        }
    }
}

} // verus!
