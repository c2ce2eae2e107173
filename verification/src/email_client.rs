//! The mail dispatcher: what is sent to the mail provider for one email, and
//! what the provider's reply means.

use url::Url;
use vstd::prelude::*;
use vstd::string::StringExecFns;

use crate::domain::subscriber_email::SubscriberEmail;

verus! {

/// The serialisation of the URL that `reference` resolves to against the URL
/// written as `base`; `None` where `base` is no absolute URL or the reference
/// cannot be resolved against it.
pub uninterp spec fn url_join(base: Seq<char>, reference: Seq<char>) -> Option<Seq<char>>;

/// `url::Url::join`, on a base given as text: the base is read with
/// `url::Url::parse`, the reference is resolved against it, and the result is
/// handed back in its serialised form. Trusted: the result is the crate's and
/// depends on the two texts alone; it is `None` where either step fails.
#[verifier::external_body]
fn join_url(base: &str, reference: &str) -> (r: Option<String>)
    ensures
        r is Some <==> url_join(base@, reference@) is Some,
        r matches Some(u) ==> url_join(base@, reference@) == Some(u@),
{
    match Url::parse(base) {
        Ok(parsed) => match parsed.join(reference) {
            Ok(joined) => Some(String::from(joined)),
            Err(_) => None,
        },
        Err(_) => None,
    }
}

/// The path, relative to the provider's base URL, that emails are posted to.
pub open spec fn send_path() -> Seq<char> {
    "email"@
}

/// The name of the header that carries the provider's credential.
pub open spec fn credential_header_name() -> Seq<char> {
    "X-Provider-Token"@
}

/// The body of the request that asks the provider to send one email.
#[derive(Debug)]
pub struct SendEmailRequest {
    pub from: String,
    pub to: String,
    pub subject: String,
    pub html_body: String,
    pub text_body: String,
}

/// One request to the mail provider, ready to be made: a POST of `body` to
/// `url`, with the credential in the header named `credential_header`, given up
/// after `timeout_milliseconds`.
#[derive(Debug)]
pub struct OutboundRequest {
    pub url: String,
    pub credential_header: String,
    pub timeout_milliseconds: u64,
    pub body: SendEmailRequest,
}

/// How one request to the provider ended.
#[derive(Clone, Copy, Debug, PartialEq, Eq, Structural)]
pub enum Reply {
    /// The provider answered, with this HTTP status.
    Status(u16),
    /// No answer came within the timeout.
    TimedOut,
    /// The request could not be made or the connection broke.
    Failed,
}

/// Why an email was not handed over to the provider.
#[derive(Clone, Copy, Debug, PartialEq, Eq, Structural)]
pub enum DispatchError {
    /// The provider was not reached, or did not answer in time.
    Transport,
    /// The provider answered with this status, which is no success.
    Status(u16),
}

/// Whether an HTTP status is a success: any of 200 to 299.
pub open spec fn is_success(status: u16) -> bool {
    200 <= status <= 299
}

/// What a reply means for the caller.
pub open spec fn outcome_of(reply: Reply) -> Result<(), DispatchError> {
    match reply {
        Reply::Status(status) => if is_success(status) {
            Ok(())
        } else {
            Err(DispatchError::Status(status))
        },
        Reply::TimedOut => Err(DispatchError::Transport),
        Reply::Failed => Err(DispatchError::Transport),
    }
}

/// A client of the mail provider, which sends emails on our behalf.
#[derive(Debug)]
pub struct EmailClient {
    sender: SubscriberEmail,
    endpoint: String,
    timeout_milliseconds: u64,
}

impl EmailClient {
    /// The address that emails are sent from.
    pub closed spec fn sender(self) -> Seq<char> {
        self.sender@
    }

    /// The URL that emails are posted to.
    pub closed spec fn endpoint(self) -> Seq<char> {
        self.endpoint@
    }

    /// The time allowed for one request and its reply.
    pub closed spec fn timeout(self) -> u64 {
        self.timeout_milliseconds
    }

    /// Creates a client that sends from `sender` through the provider at
    /// `base_url`, allowing `timeout_milliseconds` for each request. There is no
    /// client where `base_url` is not a URL that the send path resolves against.
    pub fn new(base_url: &str, sender: SubscriberEmail, timeout_milliseconds: u64) -> (r: Option<
        EmailClient,
    >)
        ensures
            r is Some <==> url_join(base_url@, send_path()) is Some,
            r matches Some(client) ==> {
                &&& Some(client.endpoint()) == url_join(base_url@, send_path())
                &&& client.sender() == sender@
                &&& client.timeout() == timeout_milliseconds
            },
    {
        match join_url(base_url, "email") {
            Some(endpoint) => Some(EmailClient { sender, endpoint, timeout_milliseconds }),
            None => None,
        }
    }

    /// Prepares the sending of one email to `recipient`: the single request to
    /// make. Nothing is sent here, and nothing is tried twice.
    pub fn send_email(
        &self,
        recipient: SubscriberEmail,
        subject: &str,
        html_content: &str,
        text_content: &str,
    ) -> (request: OutboundRequest)
        ensures
            request.url@ == self.endpoint(),
            request.credential_header@ == credential_header_name(),
            request.timeout_milliseconds == self.timeout(),
            request.body.from@ == self.sender(),
            request.body.to@ == recipient@,
            request.body.subject@ == subject@,
            request.body.html_body@ == html_content@,
            request.body.text_body@ == text_content@,
    {
        OutboundRequest {
            url: self.endpoint.clone(),
            credential_header: String::from_str("X-Provider-Token"),
            timeout_milliseconds: self.timeout_milliseconds,
            body: SendEmailRequest {
                from: String::from_str(self.sender.as_ref()),
                to: String::from_str(recipient.as_ref()),
                subject: String::from_str(subject),
                html_body: String::from_str(html_content),
                text_body: String::from_str(text_content),
            },
        }
    }

    /// Reads the reply to a request: success is a status from 200 to 299, and
    /// a timeout counts as any other failure of the transport.
    pub fn outcome(reply: Reply) -> (r: Result<(), DispatchError>)
        ensures
            r == outcome_of(reply),
    {
        match reply {
            Reply::Status(status) => {
                if 200 <= status && status <= 299 {
                    Ok(())
                } else {
                    Err(DispatchError::Status(status))
                }
            },
            Reply::TimedOut => Err(DispatchError::Transport),
            Reply::Failed => Err(DispatchError::Transport),
        }
    }
}

} // verus!
