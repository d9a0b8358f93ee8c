//! The course of a run, as a function from the stage reached and the event
//! that came in to the stage that follows and the action to take.
//!
//! A run begins with `begin` and takes one step with each call of `advance`.
//! It ends when the action is `Action::Halt`.

use vstd::prelude::*;
use crate::config::{
    generate_config, load, loaded_record, loaded_view, resolved_host, ConfigError, StoreError,
    UserDetails, UserDetailsView,
};
use crate::email::{
    composed, composed_view, mailbox_syntax, AddressParseError, DeliveryError, MessageView,
    OutboundMessage,
};
use crate::input::{affirmative, is_affirmative, text_view};

verus! {

/// What the operator asked for on the command line, each value as given.
#[derive(Debug, PartialEq, Eq)]
pub struct Request {
    pub recipient: Option<String>,
    pub subject: Option<String>,
    pub body: Option<String>,
    pub file: Option<String>,
}

/// What a `Request` holds, with each text as a sequence of characters.
pub struct RequestView {
    pub recipient: Option<Seq<char>>,
    pub subject: Option<Seq<char>>,
    pub body: Option<Seq<char>>,
    pub file: Option<Seq<char>>,
}

impl View for Request {
    type V = RequestView;

    open spec fn view(&self) -> RequestView {
        RequestView {
            recipient: text_view(self.recipient),
            subject: text_view(self.subject),
            body: text_view(self.body),
            file: text_view(self.file),
        }
    }
}

/// Why the content of the message could not be acquired.
#[derive(Clone, Copy, Debug, PartialEq, Eq, Structural)]
pub enum InputError {
    /// The file named for the body could not be read.
    FileUnreadable,
    /// No temporary file could be made for the editor.
    TempFileUnavailable,
    /// The editor could not be started.
    EditorLaunch,
    /// The temporary file could not be read back.
    TempFileUnreadable,
}

/// The content of a message, before the sender is known.
#[derive(Debug, PartialEq, Eq)]
pub struct Draft {
    pub to: String,
    pub subject: String,
    pub body: String,
}

/// What a `Draft` holds, with each text as a sequence of characters.
pub struct DraftView {
    pub to: Seq<char>,
    pub subject: Seq<char>,
    pub body: Seq<char>,
}

impl View for Draft {
    type V = DraftView;

    open spec fn view(&self) -> DraftView {
        DraftView { to: self.to@, subject: self.subject@, body: self.body@ }
    }
}

/// A question put to the operator, answered by one line.
#[derive(Clone, Copy, Debug, PartialEq, Eq, Structural)]
pub enum Prompt {
    /// The operator's own mail address.
    Address,
    /// The secret that goes with the address.
    Password,
    /// The relay host; a blank answer stands for the default.
    Host,
    /// The address the message is for.
    Recipient,
    /// The subject of the message.
    Subject,
    /// The body of the message, on one line.
    Body,
    /// Whether to send the message.
    Confirm,
}

/// Why a run was given up before anything was sent.
#[derive(Clone, Copy, Debug, PartialEq, Eq, Structural)]
pub enum Failure {
    Config(ConfigError),
    Input(InputError),
    Address(AddressParseError),
    /// The generated record could not be stored.
    Store(StoreError),
    /// An event came in that the stage was not waiting for.
    UnexpectedEvent,
}

/// How a run ended.
#[derive(Debug, PartialEq, Eq)]
pub enum Outcome {
    ConfigGenerated,
    Sent,
    NotSent,
    DeliveryFailed(DeliveryError),
    Failed(Failure),
}

/// What an `Outcome` holds, with each text as a sequence of characters.
pub enum OutcomeView {
    ConfigGenerated,
    Sent,
    NotSent,
    DeliveryFailed(Seq<char>),
    Failed(Failure),
}

impl View for Outcome {
    type V = OutcomeView;

    open spec fn view(&self) -> OutcomeView {
        match self {
            Outcome::ConfigGenerated => OutcomeView::ConfigGenerated,
            Outcome::Sent => OutcomeView::Sent,
            Outcome::NotSent => OutcomeView::NotSent,
            Outcome::DeliveryFailed(error) => OutcomeView::DeliveryFailed(error.diagnostic@),
            Outcome::Failed(failure) => OutcomeView::Failed(*failure),
        }
    }
}

/// What has happened outside, as the answer to the last action.
#[derive(Debug, PartialEq, Eq)]
pub enum Event {
    /// Whether the configuration file exists.
    Presence(bool),
    /// The operator's response to a prompt, as `clean_line` gives it.
    Line(String),
    /// Whether the generated record was stored, or what went wrong.
    Written(Result<(), StoreError>),
    /// The values given on the command line.
    Arguments(Request),
    /// The content of the file named for the body, if it could be read.
    BodyFile(Option<String>),
    /// The text the operator left in the editor, or what went wrong.
    Edited(Result<String, InputError>),
    /// The text of the configuration file, if it could be read.
    ConfigText(Option<String>),
    /// How the one delivery attempt went.
    Delivered(Result<(), DeliveryError>),
}

/// What an `Event` holds, with each text as a sequence of characters.
pub enum EventView {
    Presence(bool),
    Line(Seq<char>),
    Written(Option<StoreError>),
    Arguments(RequestView),
    BodyFile(Option<Seq<char>>),
    Edited(Result<Seq<char>, InputError>),
    ConfigText(Option<Seq<char>>),
    Delivered(Option<Seq<char>>),
}

impl View for Event {
    type V = EventView;

    open spec fn view(&self) -> EventView {
        match self {
            Event::Presence(present) => EventView::Presence(*present),
            Event::Line(line) => EventView::Line(line@),
            Event::Written(Ok(_)) => EventView::Written(None),
            Event::Written(Err(error)) => EventView::Written(Some(*error)),
            Event::Arguments(request) => EventView::Arguments(request@),
            Event::BodyFile(content) => EventView::BodyFile(text_view(*content)),
            Event::Edited(Ok(body)) => EventView::Edited(Ok(body@)),
            Event::Edited(Err(error)) => EventView::Edited(Err(*error)),
            Event::ConfigText(content) => EventView::ConfigText(text_view(*content)),
            Event::Delivered(Ok(_)) => EventView::Delivered(None),
            Event::Delivered(Err(error)) => EventView::Delivered(Some(error.diagnostic@)),
        }
    }
}

/// What is to be done outside next.
#[derive(Debug, PartialEq, Eq)]
pub enum Action {
    /// Find out whether the configuration file exists.
    CheckConfig,
    /// Put the question to the operator and read one line.
    Prompt(Prompt),
    /// Store the record as the configuration file.
    WriteConfig(UserDetails),
    /// Read the command line.
    ReadArguments,
    /// Read the file at this path.
    ReadBodyFile(String),
    /// Let the operator write the body in an editor.
    EditBody,
    /// Read the configuration file.
    ReadConfig,
    /// Make the one delivery attempt.
    Send { record: UserDetails, message: OutboundMessage },
    /// Report the outcome and end the run.
    Halt(Outcome),
}

/// What an `Action` holds, with each text as a sequence of characters.
pub enum ActionView {
    CheckConfig,
    Prompt(Prompt),
    WriteConfig(UserDetailsView),
    ReadArguments,
    ReadBodyFile(Seq<char>),
    EditBody,
    ReadConfig,
    Send { record: UserDetailsView, message: MessageView },
    Halt(OutcomeView),
}

impl View for Action {
    type V = ActionView;

    open spec fn view(&self) -> ActionView {
        match self {
            Action::CheckConfig => ActionView::CheckConfig,
            Action::Prompt(prompt) => ActionView::Prompt(*prompt),
            Action::WriteConfig(record) => ActionView::WriteConfig(record@),
            Action::ReadArguments => ActionView::ReadArguments,
            Action::ReadBodyFile(path) => ActionView::ReadBodyFile(path@),
            Action::EditBody => ActionView::EditBody,
            Action::ReadConfig => ActionView::ReadConfig,
            Action::Send { record, message } => ActionView::Send {
                record: record@,
                message: message@,
            },
            Action::Halt(outcome) => ActionView::Halt(outcome@),
        }
    }
}

/// Where a run stands: what it is waiting for, and what it has gathered.
#[derive(Debug, PartialEq, Eq)]
pub enum Stage {
    /// Waiting to learn whether the configuration file exists.
    AwaitPresence,
    /// Generating a record: waiting for the address.
    AwaitAddress,
    /// Generating a record: waiting for the secret.
    AwaitPassword { email: String },
    /// Generating a record: waiting for the relay host.
    AwaitHost { email: String, password: String },
    /// Waiting to learn whether the generated record was stored.
    AwaitWrite,
    /// Waiting for the command line.
    AwaitArguments,
    /// Waiting for the content of the file named for the body.
    AwaitBodyFile { to: String, subject: String },
    /// Waiting for the body typed at the prompt.
    AwaitBodyLine { to: String, subject: String },
    /// Asking for everything: waiting for the recipient.
    AwaitRecipient,
    /// Asking for everything: waiting for the subject.
    AwaitSubject { to: String },
    /// Asking for everything: waiting for the body from the editor.
    AwaitEditor { to: String, subject: String },
    /// The content is complete; waiting for the text of the configuration
    /// file.
    AwaitCredentials { draft: Draft },
    /// The message is composed; waiting for the answer to `Prompt::Confirm`.
    AwaitConfirmation { record: UserDetails, message: OutboundMessage },
    /// The message was handed over; waiting to learn how the delivery went.
    AwaitDelivery,
    /// The run has ended.
    Done,
}

/// What a `Stage` holds, with each text as a sequence of characters.
pub enum StageView {
    AwaitPresence,
    AwaitAddress,
    AwaitPassword { email: Seq<char> },
    AwaitHost { email: Seq<char>, password: Seq<char> },
    AwaitWrite,
    AwaitArguments,
    AwaitBodyFile { to: Seq<char>, subject: Seq<char> },
    AwaitBodyLine { to: Seq<char>, subject: Seq<char> },
    AwaitRecipient,
    AwaitSubject { to: Seq<char> },
    AwaitEditor { to: Seq<char>, subject: Seq<char> },
    AwaitCredentials { draft: DraftView },
    AwaitConfirmation { record: UserDetailsView, message: MessageView },
    AwaitDelivery,
    Done,
}

impl View for Stage {
    type V = StageView;

    open spec fn view(&self) -> StageView {
        match self {
            Stage::AwaitPresence => StageView::AwaitPresence,
            Stage::AwaitAddress => StageView::AwaitAddress,
            Stage::AwaitPassword { email } => StageView::AwaitPassword { email: email@ },
            Stage::AwaitHost { email, password } => StageView::AwaitHost {
                email: email@,
                password: password@,
            },
            Stage::AwaitWrite => StageView::AwaitWrite,
            Stage::AwaitArguments => StageView::AwaitArguments,
            Stage::AwaitBodyFile { to, subject } => StageView::AwaitBodyFile {
                to: to@,
                subject: subject@,
            },
            Stage::AwaitBodyLine { to, subject } => StageView::AwaitBodyLine {
                to: to@,
                subject: subject@,
            },
            Stage::AwaitRecipient => StageView::AwaitRecipient,
            Stage::AwaitSubject { to } => StageView::AwaitSubject { to: to@ },
            Stage::AwaitEditor { to, subject } => StageView::AwaitEditor {
                to: to@,
                subject: subject@,
            },
            Stage::AwaitCredentials { draft } => StageView::AwaitCredentials { draft: draft@ },
            Stage::AwaitConfirmation { record, message } => StageView::AwaitConfirmation {
                record: record@,
                message: message@,
            },
            Stage::AwaitDelivery => StageView::AwaitDelivery,
            Stage::Done => StageView::Done,
        }
    }
}

impl InputError {
    /// The wording of the diagnostic.
    pub open spec fn message_text(self) -> Seq<char> {
        match self {
            InputError::FileUnreadable => "Failed to read file"@,
            InputError::TempFileUnavailable => "Failed to create temporary file"@,
            InputError::EditorLaunch => "Failed to open editor"@,
            InputError::TempFileUnreadable => "Failed to read temporary file"@,
        }
    }

    /// The diagnostic shown to the operator.
    pub fn message(&self) -> (text: &'static str)
        ensures
            text@ == self.message_text(),
    {
        match self {
            InputError::FileUnreadable => "Failed to read file",
            InputError::TempFileUnavailable => "Failed to create temporary file",
            InputError::EditorLaunch => "Failed to open editor",
            InputError::TempFileUnreadable => "Failed to read temporary file",
        }
    }
}

impl Prompt {
    /// The wording of the question.
    pub open spec fn wording(self) -> Seq<char> {
        match self {
            Prompt::Address => "Enter your email address:"@,
            Prompt::Password => "Enter your email password:"@,
            Prompt::Host => "Enter your email host (default: smtp.gmail.com):"@,
            Prompt::Recipient => "Enter the email of the recipient:"@,
            Prompt::Subject => "Enter the subject of the email:"@,
            Prompt::Body => "Enter the email body:"@,
            Prompt::Confirm => "Send the mail? (Y/n)"@,
        }
    }

    /// The question as the operator reads it.
    pub fn text(&self) -> (text: &'static str)
        ensures
            text@ == self.wording(),
    {
        match self {
            Prompt::Address => "Enter your email address:",
            Prompt::Password => "Enter your email password:",
            Prompt::Host => "Enter your email host (default: smtp.gmail.com):",
            Prompt::Recipient => "Enter the email of the recipient:",
            Prompt::Subject => "Enter the subject of the email:",
            Prompt::Body => "Enter the email body:",
            Prompt::Confirm => "Send the mail? (Y/n)",
        }
    }
}

impl Failure {
    /// The wording of the diagnostic.
    pub open spec fn message_text(self) -> Seq<char> {
        match self {
            Failure::Config(error) => error.message_text(),
            Failure::Input(error) => error.message_text(),
            Failure::Address(AddressParseError::Sender) => "Invalid sender address"@,
            Failure::Address(AddressParseError::Recipient) => "Invalid recipient address"@,
            Failure::Store(error) => error.message_text(),
            Failure::UnexpectedEvent => "Unexpected event"@,
        }
    }

    /// The diagnostic shown to the operator.
    pub fn message(&self) -> (text: &'static str)
        ensures
            text@ == self.message_text(),
    {
        match self {
            Failure::Config(error) => error.message(),
            Failure::Input(error) => error.message(),
            Failure::Address(AddressParseError::Sender) => "Invalid sender address",
            Failure::Address(AddressParseError::Recipient) => "Invalid recipient address",
            Failure::Store(error) => error.message(),
            Failure::UnexpectedEvent => "Unexpected event",
        }
    }
}

impl OutcomeView {
    /// Whether the run was given up. A delivery that the relay refused is
    /// reported and is no such failure: the run still ends normally.
    pub open spec fn fatal(self) -> bool {
        self is Failed
    }

    /// Whether the report belongs on the error channel.
    pub open spec fn erroneous(self) -> bool {
        self is Failed || self is DeliveryFailed
    }

    /// The report shown to the operator when the run ends.
    pub open spec fn report_text(self) -> Seq<char> {
        match self {
            OutcomeView::ConfigGenerated =>
                "Config file generated successfully!\nRe-run emu to send an email"@,
            OutcomeView::Sent => "Email sent successfully!"@,
            OutcomeView::NotSent => "Email not sent."@,
            OutcomeView::DeliveryFailed(diagnostic) => "Error sending email: "@ + diagnostic,
            OutcomeView::Failed(failure) => failure.message_text(),
        }
    }
}

impl Outcome {
    /// Whether the run was given up.
    pub fn is_fatal(&self) -> (fatal: bool)
        ensures
            fatal == self@.fatal(),
    {
        match self {
            Outcome::Failed(_) => true,
            _ => false,
        }
    }

    /// Whether the report belongs on the error channel.
    pub fn is_error(&self) -> (erroneous: bool)
        ensures
            erroneous == self@.erroneous(),
    {
        match self {
            Outcome::Failed(_) => true,
            Outcome::DeliveryFailed(_) => true,
            _ => false,
        }
    }

    /// The report shown to the operator when the run ends.
    pub fn report(&self) -> (text: String)
        ensures
            text@ == self@.report_text(),
    {
        match self {
            Outcome::ConfigGenerated =>
                "Config file generated successfully!\nRe-run emu to send an email".to_owned(),
            Outcome::Sent => "Email sent successfully!".to_owned(),
            Outcome::NotSent => "Email not sent.".to_owned(),
            Outcome::DeliveryFailed(error) => "Error sending email: ".to_owned().concat(
                error.diagnostic.as_str(),
            ),
            Outcome::Failed(failure) => failure.message().to_owned(),
        }
    }
}

/// The end of a run with the given outcome.
pub open spec fn halted(outcome: OutcomeView) -> (StageView, ActionView) {
    (StageView::Done, ActionView::Halt(outcome))
}

/// The end of a run that is given up.
pub open spec fn failed(failure: Failure) -> (StageView, ActionView) {
    halted(OutcomeView::Failed(failure))
}

/// The step taken once it is known whether the configuration file exists:
/// with the file the run goes on to the command line, without it a record
/// is generated at once, beginning with the question for the address.
pub open spec fn config_step(present: bool) -> (StageView, ActionView) {
    if present {
        (StageView::AwaitArguments, ActionView::ReadArguments)
    } else {
        (StageView::AwaitAddress, ActionView::Prompt(Prompt::Address))
    }
}

/// The step taken once the content of the message is complete: the
/// credentials are read next.
pub open spec fn drafted(draft: DraftView) -> (StageView, ActionView) {
    (StageView::AwaitCredentials { draft }, ActionView::ReadConfig)
}

/// The subject of a message composed from the command line: the one given,
/// or the empty one.
pub open spec fn subject_of(request: RequestView) -> Seq<char> {
    match request.subject {
        Some(subject) => subject,
        None => Seq::empty(),
    }
}

/// How the content of the message is acquired. Without a recipient on the
/// command line everything is asked for, and nothing else that was given is
/// looked at. With one, the body is the literal text if there is one, else
/// the content of the file named, else the answer to a prompt.
pub open spec fn acquisition(request: RequestView) -> (StageView, ActionView) {
    match request.recipient {
        None => (StageView::AwaitRecipient, ActionView::Prompt(Prompt::Recipient)),
        Some(to) => match request.body {
            Some(body) => drafted(DraftView { to, subject: subject_of(request), body }),
            None => match request.file {
                Some(path) => (
                    StageView::AwaitBodyFile { to, subject: subject_of(request) },
                    ActionView::ReadBodyFile(path),
                ),
                None => (
                    StageView::AwaitBodyLine { to, subject: subject_of(request) },
                    ActionView::Prompt(Prompt::Body),
                ),
            },
        },
    }
}

/// The step taken once the message has been composed, or could not be: a
/// message is put before the operator for confirmation, an address error
/// ends the run.
pub open spec fn proposal(
    record: UserDetailsView,
    composed: Result<MessageView, AddressParseError>,
) -> (StageView, ActionView) {
    match composed {
        Ok(message) => (
            StageView::AwaitConfirmation { record, message },
            ActionView::Prompt(Prompt::Confirm),
        ),
        Err(error) => failed(Failure::Address(error)),
    }
}

/// The step taken once the credentials have been loaded, or could not be:
/// with them the message is composed, the sender being the address of the
/// record; a configuration error ends the run.
pub open spec fn credentials_step(
    draft: DraftView,
    loaded: Result<UserDetailsView, ConfigError>,
) -> (StageView, ActionView) {
    match loaded {
        Ok(record) => proposal(
            record,
            composed(record.email, draft.to, draft.subject, draft.body),
        ),
        Err(error) => failed(Failure::Config(error)),
    }
}

/// The transitions of a run: for each stage and each event, the stage that
/// follows and the action to take. An event that the stage does not wait
/// for ends the run.
pub open spec fn step(stage: StageView, event: EventView) -> (StageView, ActionView) {
    match (stage, event) {
        (StageView::AwaitPresence, EventView::Presence(present)) => config_step(present),
        (StageView::AwaitAddress, EventView::Line(email)) => (
            StageView::AwaitPassword { email },
            ActionView::Prompt(Prompt::Password),
        ),
        (StageView::AwaitPassword { email }, EventView::Line(password)) => (
            StageView::AwaitHost { email, password },
            ActionView::Prompt(Prompt::Host),
        ),
        (StageView::AwaitHost { email, password }, EventView::Line(host)) => (
            StageView::AwaitWrite,
            ActionView::WriteConfig(UserDetailsView { password, email, host: resolved_host(host) }),
        ),
        (StageView::AwaitWrite, EventView::Written(report)) => match report {
            None => halted(OutcomeView::ConfigGenerated),
            Some(error) => failed(Failure::Store(error)),
        },
        (StageView::AwaitArguments, EventView::Arguments(request)) => acquisition(request),
        (StageView::AwaitBodyFile { to, subject }, EventView::BodyFile(content)) => match content {
            Some(body) => drafted(DraftView { to, subject, body }),
            None => failed(Failure::Input(InputError::FileUnreadable)),
        },
        (StageView::AwaitBodyLine { to, subject }, EventView::Line(body)) => drafted(
            DraftView { to, subject, body },
        ),
        (StageView::AwaitRecipient, EventView::Line(to)) => (
            StageView::AwaitSubject { to },
            ActionView::Prompt(Prompt::Subject),
        ),
        (StageView::AwaitSubject { to }, EventView::Line(subject)) => (
            StageView::AwaitEditor { to, subject },
            ActionView::EditBody,
        ),
        (StageView::AwaitEditor { to, subject }, EventView::Edited(edited)) => match edited {
            Ok(body) => drafted(DraftView { to, subject, body }),
            Err(error) => failed(Failure::Input(error)),
        },
        (StageView::AwaitCredentials { draft }, EventView::ConfigText(content)) => match content {
            Some(text) => credentials_step(draft, loaded_record(text)),
            None => failed(Failure::Config(ConfigError::Unreadable)),
        },
        (StageView::AwaitConfirmation { record, message }, EventView::Line(answer)) => {
            if affirmative(answer) {
                (StageView::AwaitDelivery, ActionView::Send { record, message })
            } else {
                halted(OutcomeView::NotSent)
            }
        },
        (StageView::AwaitDelivery, EventView::Delivered(report)) => match report {
            None => halted(OutcomeView::Sent),
            Some(diagnostic) => halted(OutcomeView::DeliveryFailed(diagnostic)),
        },
        _ => failed(Failure::UnexpectedEvent),
    }
}

fn halt(outcome: Outcome) -> (next: (Stage, Action))
    ensures
        (next.0@, next.1@) == halted(outcome@),
{
    (Stage::Done, Action::Halt(outcome))
}

fn fail(failure: Failure) -> (next: (Stage, Action))
    ensures
        (next.0@, next.1@) == failed(failure),
{
    halt(Outcome::Failed(failure))
}

fn draft(to: String, subject: String, body: String) -> (next: (Stage, Action))
    ensures
        (next.0@, next.1@) == drafted(DraftView { to: to@, subject: subject@, body: body@ }),
{
    (Stage::AwaitCredentials { draft: Draft { to, subject, body } }, Action::ReadConfig)
}

/// Where every run starts: with the question whether the configuration
/// file exists.
pub fn begin() -> (first: (Stage, Action))
    ensures
        first.0@ == StageView::AwaitPresence,
        first.1@ == ActionView::CheckConfig,
{
    (Stage::AwaitPresence, Action::CheckConfig)
}

/// Decides how to go on once it is known whether the configuration file
/// exists.
pub fn handle_config(present: bool) -> (next: (Stage, Action))
    ensures
        (next.0@, next.1@) == config_step(present),
{
    if present {
        (Stage::AwaitArguments, Action::ReadArguments)
    } else {
        (Stage::AwaitAddress, Action::Prompt(Prompt::Address))
    }
}

/// Decides from the command line how the content of the message is
/// acquired.
pub fn acquire(request: Request) -> (next: (Stage, Action))
    ensures
        (next.0@, next.1@) == acquisition(request@),
{
    let Request { recipient, subject, body, file } = request;
    match recipient {
        None => (Stage::AwaitRecipient, Action::Prompt(Prompt::Recipient)),
        Some(to) => {
            let subject = match subject {
                Some(subject) => subject,
                None => String::new(),
            };
            match body {
                Some(body) => draft(to, subject, body),
                None => match file {
                    Some(path) => (
                        Stage::AwaitBodyFile { to, subject },
                        Action::ReadBodyFile(path),
                    ),
                    None => (
                        Stage::AwaitBodyLine { to, subject },
                        Action::Prompt(Prompt::Body),
                    ),
                },
            }
        },
    }
}

/// Decides how to go on once the message has been composed, or could not
/// be.
pub fn propose(record: UserDetails, composed: Result<OutboundMessage, AddressParseError>) -> (next:
    (Stage, Action))
    ensures
        (next.0@, next.1@) == proposal(record@, composed_view(composed)),
{
    match composed {
        Ok(message) => (
            Stage::AwaitConfirmation { record, message },
            Action::Prompt(Prompt::Confirm),
        ),
        Err(error) => fail(Failure::Address(error)),
    }
}

/// Prepares the sending of a message: composes it, the sender being the
/// address of the record, and puts it before the operator for confirmation.
/// Nothing is sent before the operator has answered.
pub fn send_email(user_details: UserDetails, to_email: &str, subject: &str, body: &str) -> (next: (
    Stage,
    Action,
))
    ensures
        (next.0@, next.1@) == proposal(
            user_details@,
            composed(user_details@.email, to_email@, subject@, body@),
        ),
{
    let composed = OutboundMessage::compose(user_details.email.as_str(), to_email, subject, body);
    propose(user_details, composed)
}

/// Decides how to go on once the credentials have been loaded, or could
/// not be.
pub fn with_credentials(draft: Draft, loaded: Result<UserDetails, ConfigError>) -> (next: (
    Stage,
    Action,
))
    ensures
        (next.0@, next.1@) == credentials_step(draft@, loaded_view(loaded)),
{
    match loaded {
        Ok(record) => send_email(
            record,
            draft.to.as_str(),
            draft.subject.as_str(),
            draft.body.as_str(),
        ),
        Err(error) => fail(Failure::Config(error)),
    }
}

// One function for each stage: the step that the stage takes on an event.

fn after_presence(event: Event) -> (next: (Stage, Action))
    ensures
        (next.0@, next.1@) == step(StageView::AwaitPresence, event@),
{
    match event {
        Event::Presence(present) => handle_config(present),
        _ => fail(Failure::UnexpectedEvent),
    }
}

fn after_address(event: Event) -> (next: (Stage, Action))
    ensures
        (next.0@, next.1@) == step(StageView::AwaitAddress, event@),
{
    match event {
        Event::Line(email) => (Stage::AwaitPassword { email }, Action::Prompt(Prompt::Password)),
        _ => fail(Failure::UnexpectedEvent),
    }
}

fn after_password(email: String, event: Event) -> (next: (Stage, Action))
    ensures
        (next.0@, next.1@) == step(StageView::AwaitPassword { email: email@ }, event@),
{
    match event {
        Event::Line(password) => (
            Stage::AwaitHost { email, password },
            Action::Prompt(Prompt::Host),
        ),
        _ => fail(Failure::UnexpectedEvent),
    }
}

fn after_host(email: String, password: String, event: Event) -> (next: (Stage, Action))
    ensures
        (next.0@, next.1@) == step(
            StageView::AwaitHost { email: email@, password: password@ },
            event@,
        ),
{
    match event {
        Event::Line(host) => (
            Stage::AwaitWrite,
            Action::WriteConfig(generate_config(email, password, host)),
        ),
        _ => fail(Failure::UnexpectedEvent),
    }
}

fn after_write(event: Event) -> (next: (Stage, Action))
    ensures
        (next.0@, next.1@) == step(StageView::AwaitWrite, event@),
{
    match event {
        Event::Written(Ok(_)) => halt(Outcome::ConfigGenerated),
        Event::Written(Err(error)) => fail(Failure::Store(error)),
        _ => fail(Failure::UnexpectedEvent),
    }
}

fn after_arguments(event: Event) -> (next: (Stage, Action))
    ensures
        (next.0@, next.1@) == step(StageView::AwaitArguments, event@),
{
    match event {
        Event::Arguments(request) => acquire(request),
        _ => fail(Failure::UnexpectedEvent),
    }
}

fn after_body_file(to: String, subject: String, event: Event) -> (next: (Stage, Action))
    ensures
        (next.0@, next.1@) == step(
            StageView::AwaitBodyFile { to: to@, subject: subject@ },
            event@,
        ),
{
    match event {
        Event::BodyFile(Some(body)) => draft(to, subject, body),
        Event::BodyFile(None) => fail(Failure::Input(InputError::FileUnreadable)),
        _ => fail(Failure::UnexpectedEvent),
    }
}

fn after_body_line(to: String, subject: String, event: Event) -> (next: (Stage, Action))
    ensures
        (next.0@, next.1@) == step(
            StageView::AwaitBodyLine { to: to@, subject: subject@ },
            event@,
        ),
{
    match event {
        Event::Line(body) => draft(to, subject, body),
        _ => fail(Failure::UnexpectedEvent),
    }
}

fn after_recipient(event: Event) -> (next: (Stage, Action))
    ensures
        (next.0@, next.1@) == step(StageView::AwaitRecipient, event@),
{
    match event {
        Event::Line(to) => (Stage::AwaitSubject { to }, Action::Prompt(Prompt::Subject)),
        _ => fail(Failure::UnexpectedEvent),
    }
}

fn after_subject(to: String, event: Event) -> (next: (Stage, Action))
    ensures
        (next.0@, next.1@) == step(StageView::AwaitSubject { to: to@ }, event@),
{
    match event {
        Event::Line(subject) => (Stage::AwaitEditor { to, subject }, Action::EditBody),
        _ => fail(Failure::UnexpectedEvent),
    }
}

fn after_editor(to: String, subject: String, event: Event) -> (next: (Stage, Action))
    ensures
        (next.0@, next.1@) == step(StageView::AwaitEditor { to: to@, subject: subject@ }, event@),
{
    match event {
        Event::Edited(Ok(body)) => draft(to, subject, body),
        Event::Edited(Err(error)) => fail(Failure::Input(error)),
        _ => fail(Failure::UnexpectedEvent),
    }
}

fn after_config_text(draft: Draft, event: Event) -> (next: (Stage, Action))
    ensures
        (next.0@, next.1@) == step(StageView::AwaitCredentials { draft: draft@ }, event@),
{
    match event {
        Event::ConfigText(Some(text)) => with_credentials(draft, load(text.as_str())),
        Event::ConfigText(None) => fail(Failure::Config(ConfigError::Unreadable)),
        _ => fail(Failure::UnexpectedEvent),
    }
}

fn after_confirmation(record: UserDetails, message: OutboundMessage, event: Event) -> (next: (
    Stage,
    Action,
))
    ensures
        (next.0@, next.1@) == step(
            StageView::AwaitConfirmation { record: record@, message: message@ },
            event@,
        ),
        next.1 matches Action::Send { message, .. } ==> OutboundMessage::deliverable(message@),
{
    match event {
        Event::Line(answer) => if is_affirmative(answer.as_str()) {
            proof {
                use_type_invariant(&message);
            }
            (Stage::AwaitDelivery, Action::Send { record, message })
        } else {
            halt(Outcome::NotSent)
        },
        _ => fail(Failure::UnexpectedEvent),
    }
}

fn after_delivery(event: Event) -> (next: (Stage, Action))
    ensures
        (next.0@, next.1@) == step(StageView::AwaitDelivery, event@),
{
    match event {
        Event::Delivered(Ok(_)) => halt(Outcome::Sent),
        Event::Delivered(Err(error)) => halt(Outcome::DeliveryFailed(error)),
        _ => fail(Failure::UnexpectedEvent),
    }
}

/// Takes one step of a run: given the stage and what has happened outside,
/// returns the stage that follows and the action to take next.
pub fn advance(stage: Stage, event: Event) -> (next: (Stage, Action))
    ensures
        (next.0@, next.1@) == step(stage@, event@),
        next.1 matches Action::Send { message, .. } ==> OutboundMessage::deliverable(message@),
{
    match stage {
        Stage::AwaitPresence => after_presence(event),
        Stage::AwaitAddress => after_address(event),
        Stage::AwaitPassword { email } => after_password(email, event),
        Stage::AwaitHost { email, password } => after_host(email, password, event),
        Stage::AwaitWrite => after_write(event),
        Stage::AwaitArguments => after_arguments(event),
        Stage::AwaitBodyFile { to, subject } => after_body_file(to, subject, event),
        Stage::AwaitBodyLine { to, subject } => after_body_line(to, subject, event),
        Stage::AwaitRecipient => after_recipient(event),
        Stage::AwaitSubject { to } => after_subject(to, event),
        Stage::AwaitEditor { to, subject } => after_editor(to, subject, event),
        Stage::AwaitCredentials { draft } => after_config_text(draft, event),
        Stage::AwaitConfirmation { record, message } => after_confirmation(record, message, event),
        Stage::AwaitDelivery => after_delivery(event),
        Stage::Done => fail(Failure::UnexpectedEvent),
    }
}

/// How many steps a run can still take from a stage, at most.
pub open spec fn steps_left(stage: StageView) -> nat {
    match stage {
        StageView::AwaitPresence => 8,
        StageView::AwaitArguments => 7,
        StageView::AwaitRecipient => 6,
        StageView::AwaitSubject { .. } => 5,
        StageView::AwaitEditor { .. } => 4,
        StageView::AwaitBodyFile { .. } => 4,
        StageView::AwaitBodyLine { .. } => 4,
        StageView::AwaitAddress => 4,
        StageView::AwaitCredentials { .. } => 3,
        StageView::AwaitPassword { .. } => 3,
        StageView::AwaitConfirmation { .. } => 2,
        StageView::AwaitHost { .. } => 2,
        StageView::AwaitDelivery => 1,
        StageView::AwaitWrite => 1,
        StageView::Done => 0,
    }
}

/// A run never goes back: every step from a stage other than the last
/// leaves fewer steps to take, so a run ends after eight steps at most.
/// The run has ended exactly when the action is to halt.
pub proof fn lemma_run_ends(stage: StageView, event: EventView)
    ensures
        stage !is Done ==> steps_left(step(stage, event).0) < steps_left(stage),
        stage is Done ==> step(stage, event).0 is Done,
        step(stage, event).1 is Halt <==> step(stage, event).0 is Done,
{
}

/// A delivery is attempted only on the operator's assent: the action is to
/// send only where the run was waiting for the confirmation and the answer
/// is affirmative, and what is sent is the message that was put before the
/// operator, with the credentials that were loaded.
pub proof fn lemma_send_needs_assent(stage: StageView, event: EventView)
    requires
        step(stage, event).1 is Send,
    ensures
        stage matches StageView::AwaitConfirmation { record, message }
            && event matches EventView::Line(answer)
            && affirmative(answer)
            && step(stage, event) == (
            StageView::AwaitDelivery,
            ActionView::Send { record, message },
        ),
{
}

/// An answer that is not affirmative ends the run with nothing sent.
pub proof fn lemma_decline_sends_nothing(
    record: UserDetailsView,
    message: MessageView,
    answer: Seq<char>,
)
    requires
        !affirmative(answer),
    ensures
        step(StageView::AwaitConfirmation { record, message }, EventView::Line(answer)) == halted(
            OutcomeView::NotSent,
        ),
{
}

/// There is one delivery attempt and no other: whatever comes of it, the
/// run ends, and a refusal by the relay is reported without making the run
/// a failure.
pub proof fn lemma_one_attempt(event: EventView)
    ensures
        step(StageView::AwaitDelivery, event).0 is Done,
        step(StageView::AwaitDelivery, event).1 matches ActionView::Halt(outcome) && (
        event is Delivered ==> !outcome.fatal()),
{
}

/// With a recipient and a literal body on the command line the body of the
/// message is the literal one, whether or not a file was named as well, and
/// no file is read.
pub proof fn lemma_literal_body_wins(request: RequestView)
    requires
        request.recipient is Some,
        request.body is Some,
    ensures
        step(StageView::AwaitArguments, EventView::Arguments(request)) == drafted(
            DraftView {
                to: request.recipient->0,
                subject: subject_of(request),
                body: request.body->0,
            },
        ),
{
}

/// A file is read for the body only where the command line names a
/// recipient and that file, and no literal body.
pub proof fn lemma_file_read_needs_request(stage: StageView, event: EventView)
    requires
        step(stage, event).1 is ReadBodyFile,
    ensures
        stage is AwaitArguments,
        event matches EventView::Arguments(request) && request.recipient is Some && request.body
            is None && request.file == Some(step(stage, event).1->ReadBodyFile_0),
{
}

/// Without a recipient on the command line nothing else that was given
/// there counts: the run asks for the recipient, and goes on as it would
/// for any other command line without one.
pub proof fn lemma_interactive_ignores_arguments(request: RequestView, other: RequestView)
    requires
        request.recipient is None,
        other.recipient is None,
    ensures
        step(StageView::AwaitArguments, EventView::Arguments(request)) == (
            StageView::AwaitRecipient,
            ActionView::Prompt(Prompt::Recipient),
        ),
        step(StageView::AwaitArguments, EventView::Arguments(request)) == step(
            StageView::AwaitArguments,
            EventView::Arguments(other),
        ),
{
}

/// In a run without a recipient on the command line the message is made of
/// the three responses alone: the two answers and the text from the editor,
/// each unchanged.
pub proof fn lemma_interactive_draft(to: Seq<char>, subject: Seq<char>, body: Seq<char>)
    ensures
        step(StageView::AwaitRecipient, EventView::Line(to)) == (
            StageView::AwaitSubject { to },
            ActionView::Prompt(Prompt::Subject),
        ),
        step(StageView::AwaitSubject { to }, EventView::Line(subject)) == (
            StageView::AwaitEditor { to, subject },
            ActionView::EditBody,
        ),
        step(StageView::AwaitEditor { to, subject }, EventView::Edited(Ok(body))) == drafted(
            DraftView { to, subject, body },
        ),
{
}

/// With the credentials loaded, the message put before the operator is the
/// draft unchanged, sent from the address of the record. It is put there
/// only where both addresses parse; where one does not, the run ends
/// before the operator is asked.
pub proof fn lemma_draft_becomes_message(draft: DraftView, record: UserDetailsView)
    ensures
        mailbox_syntax(record.email) && mailbox_syntax(draft.to) ==> credentials_step(
            draft,
            Ok(record),
        ) == (
            StageView::AwaitConfirmation {
                record,
                message: MessageView {
                    from: record.email,
                    to: draft.to,
                    subject: draft.subject,
                    body: draft.body,
                },
            },
            ActionView::Prompt(Prompt::Confirm),
        ),
        !mailbox_syntax(record.email) ==> credentials_step(draft, Ok(record)) == failed(
            Failure::Address(AddressParseError::Sender),
        ),
        mailbox_syntax(record.email) && !mailbox_syntax(draft.to) ==> credentials_step(
            draft,
            Ok(record),
        ) == failed(Failure::Address(AddressParseError::Recipient)),
{
}

/// The actions that a run takes from a stage on, one for each event that
/// comes in.
pub open spec fn run_actions(stage: StageView, events: Seq<EventView>) -> Seq<ActionView>
    decreases events.len(),
{
    if events.len() == 0 {
        Seq::empty()
    } else {
        seq![step(stage, events.first()).1] + run_actions(
            step(stage, events.first()).0,
            events.drop_first(),
        )
    }
}

/// How many of the actions are delivery attempts.
pub open spec fn deliveries(actions: Seq<ActionView>) -> nat
    decreases actions.len(),
{
    if actions.len() == 0 {
        0
    } else if actions.first() is Send {
        1 + deliveries(actions.drop_first())
    } else {
        deliveries(actions.drop_first())
    }
}

/// Once the message has been handed over, or the run has ended, no
/// delivery is attempted, whatever events come in.
pub proof fn lemma_no_delivery_after_the_attempt(stage: StageView, events: Seq<EventView>)
    requires
        stage is AwaitDelivery || stage is Done,
    ensures
        deliveries(run_actions(stage, events)) == 0,
    decreases events.len(),
{
    if events.len() > 0 {
        let rest = run_actions(step(stage, events.first()).0, events.drop_first());
        lemma_no_delivery_after_the_attempt(step(stage, events.first()).0, events.drop_first());
        assert(run_actions(stage, events).drop_first() =~= rest);
    }
}

/// No run attempts more than one delivery, wherever it stands and whatever
/// events come in.
pub proof fn lemma_at_most_one_delivery(stage: StageView, events: Seq<EventView>)
    ensures
        deliveries(run_actions(stage, events)) <= 1,
    decreases events.len(),
{
    if events.len() > 0 {
        let next = step(stage, events.first());
        let rest = run_actions(next.0, events.drop_first());
        assert(run_actions(stage, events).drop_first() =~= rest);
        if next.1 is Send {
            lemma_no_delivery_after_the_attempt(next.0, events.drop_first());
        } else {
            lemma_at_most_one_delivery(next.0, events.drop_first());
        }
    }
}

/// After an answer to the confirmation that is not affirmative no delivery
/// is ever attempted, whatever events come in afterwards.
pub proof fn lemma_no_delivery_after_decline(
    record: UserDetailsView,
    message: MessageView,
    answer: Seq<char>,
    later: Seq<EventView>,
)
    requires
        !affirmative(answer),
    ensures
        deliveries(
            run_actions(
                StageView::AwaitConfirmation { record, message },
                seq![EventView::Line(answer)] + later,
            ),
        ) == 0,
{
    let stage = StageView::AwaitConfirmation { record, message };
    let events = seq![EventView::Line(answer)] + later;
    assert(events.drop_first() =~= later);
    lemma_no_delivery_after_the_attempt(StageView::Done, later);
    assert(run_actions(stage, events).drop_first() =~= run_actions(StageView::Done, later));
}

/// The stage that a run has reached from a stage once the events have come
/// in.
pub open spec fn stage_after(stage: StageView, events: Seq<EventView>) -> StageView
    decreases events.len(),
{
    if events.len() == 0 {
        stage
    } else {
        stage_after(step(stage, events.first()).0, events.drop_first())
    }
}

/// Every run ends: each event uses up one of the steps that are left, so
/// after as many events as there were steps left the run is over.
pub proof fn lemma_run_is_bounded(stage: StageView, events: Seq<EventView>)
    ensures
        stage_after(stage, events) is Done || steps_left(stage_after(stage, events))
            + events.len() <= steps_left(stage),
        events.len() >= steps_left(stage) ==> stage_after(stage, events) is Done,
    decreases events.len(),
{
    if events.len() > 0 {
        lemma_run_ends(stage, events.first());
        lemma_run_is_bounded(step(stage, events.first()).0, events.drop_first());
    }
}

/// From the beginning a run is over after eight events at most.
pub proof fn lemma_run_takes_eight_steps_at_most(events: Seq<EventView>)
    requires
        events.len() >= 8,
    ensures
        stage_after(StageView::AwaitPresence, events) is Done,
{
    lemma_run_is_bounded(StageView::AwaitPresence, events);
}

/// Without a configuration file a record is generated at once: the run asks
/// for the address, the secret and the relay host, in that order and with no
/// question before them, has the record made of the three responses stored,
/// and ends there. A blank host response stands for `DEFAULT_HOST`.
pub proof fn lemma_generation_runs_at_once(email: Seq<char>, password: Seq<char>, host: Seq<char>)
    ensures
        step(StageView::AwaitPresence, EventView::Presence(false)) == (
            StageView::AwaitAddress,
            ActionView::Prompt(Prompt::Address),
        ),
        step(StageView::AwaitAddress, EventView::Line(email)) == (
            StageView::AwaitPassword { email },
            ActionView::Prompt(Prompt::Password),
        ),
        step(StageView::AwaitPassword { email }, EventView::Line(password)) == (
            StageView::AwaitHost { email, password },
            ActionView::Prompt(Prompt::Host),
        ),
        step(StageView::AwaitHost { email, password }, EventView::Line(host)) == (
            StageView::AwaitWrite,
            ActionView::WriteConfig(
                UserDetailsView { password, email, host: resolved_host(host) },
            ),
        ),
        step(StageView::AwaitWrite, EventView::Written(None)) == halted(
            OutcomeView::ConfigGenerated,
        ),
{
}

} // verus!
