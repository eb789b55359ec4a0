//! The mail dispatcher's side of the library: how it is configured, whether it
//! takes messages, and which messages get a second attempt.
//!
//! The dispatcher works in passes. At the start of a pass it makes one more
//! attempt at every message that failed during the pass before, and forgets
//! them whatever comes of it. Then it takes one fresh message and attempts it;
//! if that fails, the message waits for the next pass. So a message is
//! attempted at most twice, and nothing survives a restart.

use vstd::prelude::*;
use vstd::string::StringExecFns;

verus! {

/// How many messages may wait to be taken by the dispatcher.
pub const MAIL_QUEUE_CAPACITY: usize = 1024;

/// Where and as whom the dispatcher delivers.
#[derive(Debug, Clone, PartialEq, Eq)]
pub struct MailerConfig {
    pub host: String,
    pub port: Option<u16>,
    pub user: String,
    pub password: String,
}

/// What the verification link is built from. Each setting may be missing.
#[derive(Debug, Clone, PartialEq, Eq)]
pub struct LinkSettings {
    /// The address that mail is sent from.
    pub gmail_user: Option<String>,
    pub server_protocol: Option<String>,
    pub server_domain: Option<String>,
    pub server_port: Option<String>,
}

/// The mail that carries the verification link.
#[derive(Debug, Clone, PartialEq, Eq)]
pub struct VerificationMail {
    pub from_name: String,
    pub from_address: String,
    pub to_address: String,
    pub subject: String,
    /// The body, as HTML.
    pub body: String,
    /// The token that the link in the body carries.
    pub token: String,
}

/// Whether `lettre::Address` can be read from the text.
pub uninterp spec fn address_accepted(text: Seq<char>) -> bool;

/// Reads the text as a `lettre::Address`, which splits it at the last `@` and
/// checks the user part and the domain part. The answer depends on the text
/// alone.
#[verifier::external_body]
pub(crate) fn is_address(text: &str) -> (r: bool)
    ensures
        r == address_accepted(text@),
{
    text.parse::<lettre::Address>().is_ok()
}

/// The link that verifies an e-mail address.
pub open spec fn verification_link(
    protocol: Seq<char>,
    domain: Seq<char>,
    port: Seq<char>,
    token: Seq<char>,
) -> Seq<char> {
    protocol + "://"@ + domain + ":"@ + port + "/api/v1/auth/verify?email_key="@ + token
}

/// The body of the mail that carries the link: the link, shown as the token.
pub open spec fn verification_body(
    protocol: Seq<char>,
    domain: Seq<char>,
    port: Seq<char>,
    token: Seq<char>,
) -> Seq<char> {
    "\n    <h1>Your verification URL is below</h1>\n    <a href=\""@ + verification_link(
        protocol,
        domain,
        port,
        token,
    ) + "\">"@ + token
        + "</a>\n    <h2>If you weren't expecting this email, you can ignore it.</h2>\n    "@
}

/// Writes the link that verifies an e-mail address.
pub fn write_verification_link(protocol: &str, domain: &str, port: &str, token: &str) -> (r: String)
    ensures
        r@ == verification_link(protocol@, domain@, port@, token@),
{
    let link = String::from_str(protocol);
    let link = link.concat("://");
    let link = link.concat(domain);
    let link = link.concat(":");
    let link = link.concat(port);
    let link = link.concat("/api/v1/auth/verify?email_key=");
    link.concat(token)
}

/// Writes the body of the mail that carries the link.
pub fn write_verification_body(protocol: &str, domain: &str, port: &str, token: &str) -> (r: String)
    ensures
        r@ == verification_body(protocol@, domain@, port@, token@),
{
    let link = write_verification_link(protocol, domain, port, token);
    let body = String::from_str("\n    <h1>Your verification URL is below</h1>\n    <a href=\"");
    let body = body.concat(link.as_str());
    let body = body.concat("\">");
    let body = body.concat(token);
    body.concat("</a>\n    <h2>If you weren't expecting this email, you can ignore it.</h2>\n    ")
}

/// Why a message was not taken.
#[derive(Debug, Clone, Copy, PartialEq, Eq, Structural)]
pub enum MailerError {
    /// The dispatcher has not been started.
    NotStarted,
}

/// The dispatcher as the rest of the program sees it: configured, and started
/// or not.
pub struct Mailer {
    config: MailerConfig,
    started: bool,
}

/// The messages that wait for their second attempt, oldest first.
pub struct RetryQueue<M> {
    failed: Vec<M>,
}

impl Mailer {
    /// A dispatcher that has not been started.
    pub fn new(config: MailerConfig) -> (r: Mailer)
        ensures
            !r.is_started(),
            r.config() == config,
    {
        Mailer { config, started: false }
    }

    /// Whether the dispatcher has been started.
    pub closed spec fn is_started(&self) -> bool {
        self.started
    }

    /// The configuration it was made with.
    pub closed spec fn config(&self) -> MailerConfig {
        self.config
    }

    /// Where and as whom the dispatcher delivers.
    pub fn settings(&self) -> (r: &MailerConfig)
        ensures
            *r == self.config(),
    {
        &self.config
    }

    /// Starts the dispatcher. From now on it takes messages.
    pub fn start(&mut self)
        ensures
            final(self).is_started(),
            final(self).config() == old(self).config(),
    {
        self.started = true;
    }

    /// Stops the dispatcher. Stopping one that was never started does nothing.
    pub fn stop(&mut self)
        ensures
            !final(self).is_started(),
            final(self).config() == old(self).config(),
    {
        self.started = false;
    }

    /// Whether a message can be handed over: only a started dispatcher takes
    /// one.
    pub fn queue_mail(&self) -> (r: Result<(), MailerError>)
        ensures
            r is Ok <==> self.is_started(),
            r matches Err(e) ==> e == MailerError::NotStarted,
    {
        if self.started {
            Ok(())
        } else {
            Err(MailerError::NotStarted)
        }
    }
}

impl<M> RetryQueue<M> {
    /// A queue in which nothing waits.
    pub fn new() -> (r: RetryQueue<M>)
        ensures
            r.waiting() == Seq::<M>::empty(),
    {
        RetryQueue { failed: Vec::new() }
    }

    /// The messages that wait for their second attempt, oldest first.
    pub closed spec fn waiting(&self) -> Seq<M> {
        self.failed@
    }

    /// How many messages wait.
    pub fn len(&self) -> (r: usize)
        ensures
            r == self.waiting().len(),
    {
        self.failed.len()
    }

    /// Starts a pass: hands out every waiting message for its second attempt,
    /// oldest first, and keeps none of them.
    pub fn begin_pass(&mut self) -> (retries: Vec<M>)
        ensures
            retries@ == old(self).waiting(),
            final(self).waiting() == Seq::<M>::empty(),
    {
        let mut retries: Vec<M> = Vec::new();
        std::mem::swap(&mut self.failed, &mut retries);
        retries
    }

    /// Records what became of the first attempt at a fresh message: a message
    /// that was delivered is done with, one that failed waits for the next
    /// pass, behind those that already wait.
    pub fn settle(&mut self, message: M, delivered: bool)
        ensures
            final(self).waiting() == (if delivered {
                old(self).waiting()
            } else {
                old(self).waiting().push(message)
            }),
    {
        if !delivered {
            self.failed.push(message);
        }
    }
}

} // verus!
