//! Settings of the application, and what is derived from them.

use vstd::prelude::*;
use vstd::string::StringExecFns;

use crate::domain::subscriber_email::{email_rejection, email_syntax_ok, SubscriberEmail};
use crate::domain::validation_error::ValidationError;
use crate::email_client::{send_path, url_join, EmailClient};
use crate::text::{decimal, push_char, push_decimal};

verus! {

/// App-wide configuration.
#[derive(Debug)]
pub struct Settings {
    pub database: DatabaseSettings,
    pub application: ApplicationSettings,
    pub email_client: EmailClientSettings,
}

/// Where the application listens, and the URL under which its users reach
/// it.
#[derive(Debug)]
pub struct ApplicationSettings {
    pub host: String,
    pub port: u16,
    pub base_url: String,
}

impl ApplicationSettings {
    /// The address to listen on: host and port, with a colon between them.
    pub open spec fn spec_address(self) -> Seq<char> {
        self.host@.push(':') + decimal(self.port as nat)
    }

    /// The address to listen on: host and port, with a colon between them.
    pub fn address(&self) -> (address: String)
        ensures
            address@ == self.spec_address(),
    {
        let mut address = self.host.clone();
        push_char(&mut address, ':');
        push_decimal(&mut address, self.port);
        address
    }
}

/// Settings needed for connecting to the database. The password is not among
/// them: the host program keeps it and adds it to the connection itself.
#[derive(Debug)]
pub struct DatabaseSettings {
    pub username: String,
    pub port: u16,
    pub host: String,
    pub database_name: String,
    pub require_ssl: bool,
}

/// Whether a connection must be encrypted.
#[derive(Clone, Copy, Debug, PartialEq, Eq, Structural)]
pub enum SslMode {
    /// Encrypt, or do not connect.
    Require,
    /// Encrypt where the server allows it.
    Prefer,
}

/// How to connect to a database server, and to which database on it, if
/// any.
#[derive(Debug)]
pub struct ConnectOptions {
    pub host: String,
    pub username: String,
    pub port: u16,
    pub ssl_mode: SslMode,
    pub database: Option<String>,
}

impl DatabaseSettings {
    /// The mode that these settings ask for.
    pub open spec fn spec_ssl_mode(self) -> SslMode {
        if self.require_ssl {
            SslMode::Require
        } else {
            SslMode::Prefer
        }
    }

    /// How to connect to the configured database.
    pub fn database_connection(&self) -> (options: ConnectOptions)
        ensures
            options.host@ == self.host@,
            options.username@ == self.username@,
            options.port == self.port,
            options.ssl_mode == self.spec_ssl_mode(),
            options.database matches Some(name) && name@ == self.database_name@,
    {
        let instance = self.instance_connection();
        ConnectOptions {
            host: instance.host,
            username: instance.username,
            port: instance.port,
            ssl_mode: instance.ssl_mode,
            database: Some(self.database_name.clone()),
        }
    }

    /// How to connect to the server without naming a database, for work that
    /// belongs to no database in particular, such as creating one.
    pub fn instance_connection(&self) -> (options: ConnectOptions)
        ensures
            options.host@ == self.host@,
            options.username@ == self.username@,
            options.port == self.port,
            options.ssl_mode == self.spec_ssl_mode(),
            options.database is None,
    {
        let ssl_mode = if self.require_ssl {
            SslMode::Require
        } else {
            SslMode::Prefer
        };
        ConnectOptions {
            host: self.host.clone(),
            username: self.username.clone(),
            port: self.port,
            ssl_mode,
            database: None,
        }
    }
}

/// Configuration for the email client. The provider's credential is not
/// among it: the host program keeps it and adds it to each request itself.
#[derive(Debug)]
pub struct EmailClientSettings {
    pub base_url: String,
    pub sender_email: String,
    pub timeout_milliseconds: u64,
}

/// Why no email client can be made of the settings.
#[derive(Debug)]
pub enum EmailClientError {
    /// The sender's address is no valid email address.
    InvalidSender(ValidationError),
    /// The base URL is no URL that emails can be posted under.
    InvalidBaseUrl,
}

impl EmailClientSettings {
    /// Parses and validates the email address to use as the sender.
    pub fn sender(&self) -> (r: Result<SubscriberEmail, ValidationError>)
        ensures
            r is Ok <==> email_syntax_ok(self.sender_email@),
            r matches Ok(email) ==> email@ == self.sender_email@,
            r matches Err(e) ==> e.value@ == self.sender_email@ && e.reason@ == email_rejection(),
    {
        SubscriberEmail::parse(self.sender_email.clone())
    }

    /// The time allowed for one request to the provider, in milliseconds.
    pub fn timeout(&self) -> (milliseconds: u64)
        ensures
            milliseconds == self.timeout_milliseconds,
    {
        self.timeout_milliseconds
    }

    /// Makes the email client that these settings describe. The sender is
    /// validated here, once; an invalid sender is reported before an invalid
    /// base URL.
    pub fn client(&self) -> (r: Result<EmailClient, EmailClientError>)
        ensures
            r is Ok <==> email_syntax_ok(self.sender_email@) && url_join(
                self.base_url@,
                send_path(),
            ) is Some,
            r matches Ok(client) ==> {
                &&& Some(client.endpoint()) == url_join(self.base_url@, send_path())
                &&& client.sender() == self.sender_email@
                &&& client.timeout() == self.timeout_milliseconds
            },
            r matches Err(e) ==> if email_syntax_ok(self.sender_email@) {
                e is InvalidBaseUrl
            } else {
                e matches EmailClientError::InvalidSender(cause) && cause.value@
                    == self.sender_email@ && cause.reason@ == email_rejection()
            },
    {
        let sender = match self.sender() {
            Ok(sender) => sender,
            Err(e) => {
                return Err(EmailClientError::InvalidSender(e));
            },
        };
        match EmailClient::new(self.base_url.as_str(), sender, self.timeout_milliseconds) {
            Some(client) => Ok(client),
            None => Err(EmailClientError::InvalidBaseUrl),
        }
    }
}

/// The environment that the application runs in.
#[derive(Clone, Copy, Debug, PartialEq, Eq, Structural)]
pub enum Environment {
    Local,
    Production,
}

impl TryFrom<String> for Environment {
    type Error = String;

    /// The environment named by `value`, in whatever case it is written.
    fn try_from(value: String) -> (r: Result<Environment, String>)
        ensures
            is_environment_result(r, environment_named(lowercase(value@))),
    {
        Environment::from_lowercase(to_lowercase(value.as_str()))
    }
}

/// The conversion is described by the contract of `try_from` itself, over the
/// view of the error; no value-for-value description is claimed beside it.
impl vstd::std_specs::convert::TryFromSpecImpl<String> for Environment {
    open spec fn obeys_try_from_spec() -> bool {
        false
    }

    open spec fn try_from_spec(value: String) -> Result<Environment, String> {
        arbitrary()
    }
}

/// `text` in lower case, as Unicode maps each character.
pub uninterp spec fn lowercase(text: Seq<char>) -> Seq<char>;

/// `str::to_lowercase` gives the lower-case form of a text. Trusted: the
/// mapping is std's and depends on the text alone.
#[verifier::external_body]
fn to_lowercase(text: &str) -> (lowered: String)
    ensures
        lowered@ == lowercase(text@),
{
    text.to_lowercase()
}

/// What is said of a text that names no environment.
pub open spec fn unsupported_environment(name: Seq<char>) -> Seq<char> {
    name + " is not a supported environment. Use either `local` or `production`"@
}

/// The environment that `name` stands for, where `name` is in lower case
/// already, or the complaint that it stands for none.
pub open spec fn environment_named(name: Seq<char>) -> Result<Environment, Seq<char>> {
    if name == "local"@ {
        Ok(Environment::Local)
    } else if name == "production"@ {
        Ok(Environment::Production)
    } else {
        Err(unsupported_environment(name))
    }
}

/// Whether `r` is `expected`, the error taken by its view.
pub open spec fn is_environment_result(
    r: Result<Environment, String>,
    expected: Result<Environment, Seq<char>>,
) -> bool {
    match r {
        Ok(environment) => expected == Ok::<Environment, Seq<char>>(environment),
        Err(complaint) => expected == Err::<Environment, Seq<char>>(complaint@),
    }
}

impl Environment {
    /// The name of the environment, which is also the name of its settings
    /// file.
    pub open spec fn spec_as_str(self) -> Seq<char> {
        match self {
            Environment::Local => "local"@,
            Environment::Production => "production"@,
        }
    }

    /// The name of the environment, which is also the name of its settings
    /// file.
    pub fn as_str(&self) -> (name: &'static str)
        ensures
            name@ == self.spec_as_str(),
    {
        match self {
            Environment::Local => "local",
            Environment::Production => "production",
        }
    }

    /// The environment named by `name`, a text in lower case.
    pub fn from_lowercase(name: String) -> (r: Result<Environment, String>)
        ensures
            is_environment_result(r, environment_named(name@)),
    {
        if name == String::from_str("local") {
            Ok(Environment::Local)
        } else if name == String::from_str("production") {
            Ok(Environment::Production)
        } else {
            let mut complaint = name;
            complaint.append(" is not a supported environment. Use either `local` or `production`");
            Err(complaint)
        }
    }

    /// The environment to run in, given what the environment variable holds:
    /// the local one where the variable is not set.
    pub fn from_variable(variable: Option<String>) -> (r: Result<Environment, String>)
        ensures
            match variable {
                Some(value) => is_environment_result(r, environment_named(lowercase(value@))),
                None => r == Ok::<Environment, String>(Environment::Local),
            },
    {
        match variable {
            Some(value) => Environment::try_from(value),
            None => Ok(Environment::Local),
        }
    }

    /// Each environment is found again by its own name, if the name is
    /// handed over in lower case as it is.
    pub proof fn name_round_trip(self)
        ensures
            environment_named(self.spec_as_str()) == Ok::<Environment, Seq<char>>(self),
    {
        reveal_strlit("local");
        reveal_strlit("production");
        assert("local"@.len() != "production"@.len());
    }
}

} // verus!
