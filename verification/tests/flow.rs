use emu::config::{ConfigError, Field, StoreError, UserDetails};
use emu::email::{AddressParseError, DeliveryError, OutboundMessage};
use emu::flow::{
    acquire, advance, begin, handle_config, propose, send_email, with_credentials, Action, Draft,
    Event, Failure, InputError, Outcome, Prompt, Request, Stage,
};

const STORED: &str =
    "password = \"s3cr3t\"\nemail = \"alice@x.com\"\nhost = \"smtp.example.com\"\n";

fn alice() -> UserDetails {
    UserDetails {
        password: "s3cr3t".to_string(),
        email: "alice@x.com".to_string(),
        host: "smtp.example.com".to_string(),
    }
}

fn request(
    recipient: Option<&str>,
    subject: Option<&str>,
    body: Option<&str>,
    file: Option<&str>,
) -> Request {
    Request {
        recipient: recipient.map(str::to_string),
        subject: subject.map(str::to_string),
        body: body.map(str::to_string),
        file: file.map(str::to_string),
    }
}

fn line(text: &str) -> Event {
    Event::Line(text.to_string())
}

fn draft_of(to: &str, subject: &str, body: &str) -> Draft {
    Draft { to: to.to_string(), subject: subject.to_string(), body: body.to_string() }
}

fn play(events: Vec<Event>) -> (Stage, Vec<Action>) {
    let (mut stage, first) = begin();
    let mut actions = vec![first];
    for event in events {
        let (next, action) = advance(stage, event);
        stage = next;
        actions.push(action);
    }
    (stage, actions)
}

fn sends(actions: &[Action]) -> usize {
    actions.iter().filter(|action| matches!(action, Action::Send { .. })).count()
}

#[test]
fn run_begins_with_the_configuration_check() {
    assert_eq!(begin(), (Stage::AwaitPresence, Action::CheckConfig));
}

#[test]
fn explicit_message_is_sent_once_and_a_refusal_is_reported() {
    let (stage, actions) = play(vec![
        Event::Presence(true),
        Event::Arguments(request(Some("bob@example.com"), Some("Hi"), Some("Test"), None)),
        Event::ConfigText(Some(STORED.to_string())),
        line("y"),
        Event::Delivered(Err(DeliveryError { diagnostic: "relay said no".to_string() })),
    ]);
    let message = OutboundMessage::compose("alice@x.com", "bob@example.com", "Hi", "Test").unwrap();
    assert_eq!(
        actions,
        vec![
            Action::CheckConfig,
            Action::ReadArguments,
            Action::ReadConfig,
            Action::Prompt(Prompt::Confirm),
            Action::Send { record: alice(), message },
            Action::Halt(Outcome::DeliveryFailed(DeliveryError {
                diagnostic: "relay said no".to_string()
            })),
        ]
    );
    assert_eq!(stage, Stage::Done);
    assert_eq!(sends(&actions), 1);
    match &actions[4] {
        Action::Send { record, message } => {
            assert_eq!(record.host, "smtp.example.com");
            assert_eq!(record.email, "alice@x.com");
            assert_eq!(record.password, "s3cr3t");
            assert_eq!(message.sender(), "alice@x.com");
            assert_eq!(message.recipient(), "bob@example.com");
            assert_eq!(message.subject(), "Hi");
            assert_eq!(message.body(), "Test");
        }
        other => panic!("expected a delivery, got {:?}", other),
    }
    match &actions[5] {
        Action::Halt(outcome) => {
            assert!(!outcome.is_fatal());
            assert!(outcome.is_error());
            assert_eq!(outcome.report(), "Error sending email: relay said no");
        }
        other => panic!("expected the end of the run, got {:?}", other),
    }
}

#[test]
fn explicit_message_that_is_delivered_ends_the_run_well() {
    let (stage, actions) = play(vec![
        Event::Presence(true),
        Event::Arguments(request(Some("bob@example.com"), Some("Hi"), Some("Test"), None)),
        Event::ConfigText(Some(STORED.to_string())),
        line("y"),
        Event::Delivered(Ok(())),
    ]);
    assert_eq!(stage, Stage::Done);
    assert_eq!(sends(&actions), 1);
    assert_eq!(actions[5], Action::Halt(Outcome::Sent));
}

#[test]
fn interactive_message_keeps_the_edited_body_verbatim() {
    let (stage, actions) = play(vec![
        Event::Presence(true),
        Event::Arguments(request(None, None, None, None)),
        line("carol@y.com"),
        line("S"),
        Event::Edited(Ok("Line1\nLine2".to_string())),
        Event::ConfigText(Some(STORED.to_string())),
        line(""),
        Event::Delivered(Ok(())),
    ]);
    let message =
        OutboundMessage::compose("alice@x.com", "carol@y.com", "S", "Line1\nLine2").unwrap();
    assert_eq!(
        actions,
        vec![
            Action::CheckConfig,
            Action::ReadArguments,
            Action::Prompt(Prompt::Recipient),
            Action::Prompt(Prompt::Subject),
            Action::EditBody,
            Action::ReadConfig,
            Action::Prompt(Prompt::Confirm),
            Action::Send { record: alice(), message },
            Action::Halt(Outcome::Sent),
        ]
    );
    assert_eq!(stage, Stage::Done);
    match &actions[7] {
        Action::Send { message, .. } => {
            assert_eq!(message.body(), "Line1\nLine2");
            assert_eq!(message.recipient(), "carol@y.com");
            assert_eq!(message.subject(), "S");
            assert_eq!(message.sender(), "alice@x.com");
        }
        other => panic!("expected a delivery, got {:?}", other),
    }
}

#[test]
fn literal_body_wins_over_a_file() {
    let next = acquire(request(
        Some("bob@example.com"),
        Some("Hi"),
        Some("literal"),
        Some("/no/such/file"),
    ));
    assert_eq!(
        next,
        (
            Stage::AwaitCredentials { draft: draft_of("bob@example.com", "Hi", "literal") },
            Action::ReadConfig
        )
    );
    let (_, actions) = play(vec![
        Event::Presence(true),
        Event::Arguments(request(
            Some("bob@example.com"),
            Some("Hi"),
            Some("literal"),
            Some("/no/such/file"),
        )),
        Event::ConfigText(Some(STORED.to_string())),
        line("y"),
    ]);
    assert!(actions.iter().all(|action| !matches!(action, Action::ReadBodyFile(_))));
    match &actions[4] {
        Action::Send { message, .. } => assert_eq!(message.body(), "literal"),
        other => panic!("expected a delivery, got {:?}", other),
    }
}

#[test]
fn body_is_read_from_the_file_named() {
    let (stage, action) =
        acquire(request(Some("bob@example.com"), None, None, Some("notes.txt")));
    assert_eq!(action, Action::ReadBodyFile("notes.txt".to_string()));
    assert_eq!(
        stage,
        Stage::AwaitBodyFile { to: "bob@example.com".to_string(), subject: String::new() }
    );
    let next = advance(stage, Event::BodyFile(Some("from the file\n".to_string())));
    assert_eq!(
        next,
        (
            Stage::AwaitCredentials { draft: draft_of("bob@example.com", "", "from the file\n") },
            Action::ReadConfig
        )
    );
}

#[test]
fn unreadable_body_file_ends_the_run() {
    let (stage, _) = acquire(request(Some("bob@example.com"), None, None, Some("notes.txt")));
    let next = advance(stage, Event::BodyFile(None));
    assert_eq!(
        next,
        (
            Stage::Done,
            Action::Halt(Outcome::Failed(Failure::Input(InputError::FileUnreadable)))
        )
    );
}

#[test]
fn body_is_asked_for_when_none_is_given() {
    let (stage, action) = acquire(request(Some("bob@example.com"), Some("Hi"), None, None));
    assert_eq!(action, Action::Prompt(Prompt::Body));
    let next = advance(stage, line("typed at the prompt"));
    assert_eq!(
        next,
        (
            Stage::AwaitCredentials {
                draft: draft_of("bob@example.com", "Hi", "typed at the prompt")
            },
            Action::ReadConfig
        )
    );
}

#[test]
fn missing_subject_is_the_empty_subject() {
    let (stage, _) = acquire(request(Some("bob@example.com"), None, Some("Test"), None));
    assert_eq!(
        stage,
        Stage::AwaitCredentials { draft: draft_of("bob@example.com", "", "Test") }
    );
}

#[test]
fn interactive_mode_ignores_the_other_arguments() {
    let bare = acquire(request(None, None, None, None));
    let laden = acquire(request(None, Some("Hi"), Some("Test"), Some("notes.txt")));
    assert_eq!(bare, (Stage::AwaitRecipient, Action::Prompt(Prompt::Recipient)));
    assert_eq!(laden, bare);
    let (_, actions) = play(vec![
        Event::Presence(true),
        Event::Arguments(request(None, Some("Hi"), Some("Test"), Some("notes.txt"))),
        line("carol@y.com"),
        line("S"),
        Event::Edited(Ok("from the editor".to_string())),
        Event::ConfigText(Some(STORED.to_string())),
        line("yes"),
    ]);
    assert!(actions.iter().all(|action| !matches!(action, Action::ReadBodyFile(_))));
    match &actions[7] {
        Action::Send { message, .. } => {
            assert_eq!(message.recipient(), "carol@y.com");
            assert_eq!(message.subject(), "S");
            assert_eq!(message.body(), "from the editor");
        }
        other => panic!("expected a delivery, got {:?}", other),
    }
}

#[test]
fn editor_failures_end_the_run() {
    for error in [
        InputError::TempFileUnavailable,
        InputError::EditorLaunch,
        InputError::TempFileUnreadable,
    ] {
        let stage = Stage::AwaitEditor { to: "carol@y.com".to_string(), subject: "S".to_string() };
        assert_eq!(
            advance(stage, Event::Edited(Err(error))),
            (Stage::Done, Action::Halt(Outcome::Failed(Failure::Input(error))))
        );
    }
}

#[test]
fn decline_ends_the_run_with_nothing_sent() {
    for answer in ["n", "no", "x"] {
        let (stage, actions) = play(vec![
            Event::Presence(true),
            Event::Arguments(request(Some("bob@example.com"), Some("Hi"), Some("Test"), None)),
            Event::ConfigText(Some(STORED.to_string())),
            line(answer),
        ]);
        assert_eq!(stage, Stage::Done);
        assert_eq!(sends(&actions), 0);
        assert_eq!(actions[4], Action::Halt(Outcome::NotSent));
    }
}

#[test]
fn every_affirmative_answer_leads_to_the_delivery() {
    for answer in ["", "y", "Y", "yes", "YES"] {
        let (stage, actions) = play(vec![
            Event::Presence(true),
            Event::Arguments(request(Some("bob@example.com"), Some("Hi"), Some("Test"), None)),
            Event::ConfigText(Some(STORED.to_string())),
            line(answer),
        ]);
        assert_eq!(stage, Stage::AwaitDelivery);
        assert_eq!(sends(&actions), 1);
    }
}

#[test]
fn nothing_follows_the_delivery_but_the_end() {
    let next = advance(Stage::AwaitDelivery, line("y"));
    assert_eq!(
        next,
        (Stage::Done, Action::Halt(Outcome::Failed(Failure::UnexpectedEvent)))
    );
    let next = advance(Stage::Done, Event::Delivered(Ok(())));
    assert_eq!(
        next,
        (Stage::Done, Action::Halt(Outcome::Failed(Failure::UnexpectedEvent)))
    );
}

#[test]
fn missing_configuration_starts_the_generation_at_once() {
    assert_eq!(
        handle_config(false),
        (Stage::AwaitAddress, Action::Prompt(Prompt::Address))
    );
    assert_eq!(handle_config(true), (Stage::AwaitArguments, Action::ReadArguments));
}

#[test]
fn generation_asks_three_questions_and_stores_the_record() {
    let (stage, actions) = play(vec![
        Event::Presence(false),
        line("alice@x.com"),
        line("s3cr3t"),
        line("smtp.example.com"),
        Event::Written(Ok(())),
    ]);
    assert_eq!(
        actions,
        vec![
            Action::CheckConfig,
            Action::Prompt(Prompt::Address),
            Action::Prompt(Prompt::Password),
            Action::Prompt(Prompt::Host),
            Action::WriteConfig(alice()),
            Action::Halt(Outcome::ConfigGenerated),
        ]
    );
    assert_eq!(stage, Stage::Done);
    assert_eq!(sends(&actions), 0);
    match &actions[5] {
        Action::Halt(outcome) => {
            assert!(!outcome.is_fatal());
            assert!(!outcome.is_error());
        }
        other => panic!("expected the end of the run, got {:?}", other),
    }
}

#[test]
fn generation_takes_the_first_line_as_the_address() {
    for first in ["n", "no", "y", ""] {
        let (stage, actions) = play(vec![Event::Presence(false), line(first)]);
        assert_eq!(stage, Stage::AwaitPassword { email: first.to_string() });
        assert_eq!(actions[2], Action::Prompt(Prompt::Password));
    }
}

#[test]
fn generation_substitutes_the_default_host() {
    for blank in ["", " ", "\t \u{a0}"] {
        let (_, actions) = play(vec![
            Event::Presence(false),
            line("alice@x.com"),
            line("s3cr3t"),
            line(blank),
        ]);
        match &actions[4] {
            Action::WriteConfig(record) => {
                assert_eq!(record.host, "smtp.gmail.com");
                assert_eq!(record.email, "alice@x.com");
                assert_eq!(record.password, "s3cr3t");
            }
            other => panic!("expected the record to be stored, got {:?}", other),
        }
    }
}

#[test]
fn generation_neither_composes_nor_sends() {
    let (stage, actions) = play(vec![
        Event::Presence(false),
        line("alice@x.com"),
        line("s3cr3t"),
        line("smtp.example.com"),
        Event::Written(Ok(())),
        Event::Arguments(request(Some("bob@example.com"), Some("Hi"), Some("Test"), None)),
        line("y"),
    ]);
    assert_eq!(stage, Stage::Done);
    assert_eq!(sends(&actions), 0);
    assert!(actions.iter().all(|action| !matches!(
        action,
        Action::ReadArguments | Action::ReadConfig | Action::Prompt(Prompt::Confirm)
    )));
}

#[test]
fn record_that_cannot_be_stored_ends_the_run() {
    for error in [
        StoreError::FolderNotCreated,
        StoreError::NotSerialized,
        StoreError::FileNotWritten,
    ] {
        assert_eq!(
            advance(Stage::AwaitWrite, Event::Written(Err(error))),
            (Stage::Done, Action::Halt(Outcome::Failed(Failure::Store(error))))
        );
    }
}

#[test]
fn configuration_errors_end_the_run_before_the_confirmation() {
    let cases = [
        (None, ConfigError::Unreadable),
        (Some("not toml at all"), ConfigError::Malformed),
        (Some("email = \"a@x.com\"\nhost = \"h\"\n"), ConfigError::FieldMissing(Field::Password)),
        (Some("password = \"p\"\nhost = \"h\"\n"), ConfigError::FieldMissing(Field::Email)),
        (Some("password = \"p\"\nemail = \"a@x.com\"\n"), ConfigError::FieldMissing(Field::Host)),
    ];
    for (content, error) in cases {
        let stage = Stage::AwaitCredentials { draft: draft_of("bob@example.com", "Hi", "Test") };
        assert_eq!(
            advance(stage, Event::ConfigText(content.map(str::to_string))),
            (Stage::Done, Action::Halt(Outcome::Failed(Failure::Config(error))))
        );
    }
}

#[test]
fn malformed_addresses_end_the_run_before_the_confirmation() {
    let stage = Stage::AwaitCredentials { draft: draft_of("nobody", "Hi", "Test") };
    assert_eq!(
        advance(stage, Event::ConfigText(Some(STORED.to_string()))),
        (
            Stage::Done,
            Action::Halt(Outcome::Failed(Failure::Address(AddressParseError::Recipient)))
        )
    );
    let stored = "password = \"p\"\nemail = \"not an address\"\nhost = \"h\"\n";
    let stage = Stage::AwaitCredentials { draft: draft_of("bob@example.com", "Hi", "Test") };
    assert_eq!(
        advance(stage, Event::ConfigText(Some(stored.to_string()))),
        (
            Stage::Done,
            Action::Halt(Outcome::Failed(Failure::Address(AddressParseError::Sender)))
        )
    );
}

#[test]
fn send_email_puts_the_message_before_the_operator() {
    let (stage, action) = send_email(alice(), "bob@example.com", "Hi", "Test");
    let message = OutboundMessage::compose("alice@x.com", "bob@example.com", "Hi", "Test").unwrap();
    assert_eq!(action, Action::Prompt(Prompt::Confirm));
    assert_eq!(stage, Stage::AwaitConfirmation { record: alice(), message });
}

#[test]
fn send_email_gives_up_on_a_malformed_recipient() {
    assert_eq!(
        send_email(alice(), "bob", "Hi", "Test"),
        (
            Stage::Done,
            Action::Halt(Outcome::Failed(Failure::Address(AddressParseError::Recipient)))
        )
    );
}

#[test]
fn propose_follows_the_composition() {
    let message = OutboundMessage::compose("alice@x.com", "bob@example.com", "Hi", "Test");
    let (stage, action) = propose(alice(), message);
    assert_eq!(action, Action::Prompt(Prompt::Confirm));
    assert!(matches!(stage, Stage::AwaitConfirmation { .. }));
    assert_eq!(
        propose(alice(), Err(AddressParseError::Sender)),
        (
            Stage::Done,
            Action::Halt(Outcome::Failed(Failure::Address(AddressParseError::Sender)))
        )
    );
}

#[test]
fn with_credentials_follows_the_loading() {
    let (stage, action) = with_credentials(draft_of("bob@example.com", "Hi", "Test"), Ok(alice()));
    assert_eq!(action, Action::Prompt(Prompt::Confirm));
    assert!(matches!(stage, Stage::AwaitConfirmation { .. }));
    assert_eq!(
        with_credentials(draft_of("bob@example.com", "Hi", "Test"), Err(ConfigError::Malformed)),
        (
            Stage::Done,
            Action::Halt(Outcome::Failed(Failure::Config(ConfigError::Malformed)))
        )
    );
}

#[test]
fn event_out_of_turn_ends_the_run() {
    assert_eq!(
        advance(Stage::AwaitPresence, line("y")),
        (Stage::Done, Action::Halt(Outcome::Failed(Failure::UnexpectedEvent)))
    );
    assert_eq!(
        advance(Stage::AwaitArguments, Event::Presence(true)),
        (Stage::Done, Action::Halt(Outcome::Failed(Failure::UnexpectedEvent)))
    );
    assert_eq!(
        advance(Stage::AwaitRecipient, Event::Delivered(Ok(()))),
        (Stage::Done, Action::Halt(Outcome::Failed(Failure::UnexpectedEvent)))
    );
}

#[test]
fn longest_run_takes_eight_steps() {
    let (stage, actions) = play(vec![
        Event::Presence(true),
        Event::Arguments(request(None, None, None, None)),
        line("carol@y.com"),
        line("S"),
        Event::Edited(Ok("B".to_string())),
        Event::ConfigText(Some(STORED.to_string())),
        line("y"),
        Event::Delivered(Ok(())),
    ]);
    assert_eq!(stage, Stage::Done);
    assert_eq!(actions.len(), 9);
    let halts = actions.iter().filter(|action| matches!(action, Action::Halt(_))).count();
    assert_eq!(halts, 1);
}

#[test]
fn prompts_have_their_wording() {
    assert_eq!(Prompt::Address.text(), "Enter your email address:");
    assert_eq!(Prompt::Password.text(), "Enter your email password:");
    assert_eq!(Prompt::Host.text(), "Enter your email host (default: smtp.gmail.com):");
    assert_eq!(Prompt::Recipient.text(), "Enter the email of the recipient:");
    assert_eq!(Prompt::Subject.text(), "Enter the subject of the email:");
    assert_eq!(Prompt::Body.text(), "Enter the email body:");
    assert_eq!(Prompt::Confirm.text(), "Send the mail? (Y/n)");
}

#[test]
fn outcomes_have_their_reports() {
    assert_eq!(
        Outcome::ConfigGenerated.report(),
        "Config file generated successfully!\nRe-run emu to send an email"
    );
    assert_eq!(Outcome::Sent.report(), "Email sent successfully!");
    assert_eq!(Outcome::NotSent.report(), "Email not sent.");
    assert_eq!(
        Outcome::DeliveryFailed(DeliveryError { diagnostic: "535 rejected".to_string() }).report(),
        "Error sending email: 535 rejected"
    );
    assert_eq!(
        Outcome::Failed(Failure::Config(ConfigError::FieldMissing(Field::Host))).report(),
        "Missing or invalid host"
    );
}

#[test]
fn failures_have_their_messages() {
    assert_eq!(Failure::Config(ConfigError::Malformed).message(), "Error parsing TOML");
    assert_eq!(Failure::Input(InputError::FileUnreadable).message(), "Failed to read file");
    assert_eq!(
        Failure::Input(InputError::TempFileUnavailable).message(),
        "Failed to create temporary file"
    );
    assert_eq!(Failure::Input(InputError::EditorLaunch).message(), "Failed to open editor");
    assert_eq!(
        Failure::Input(InputError::TempFileUnreadable).message(),
        "Failed to read temporary file"
    );
    assert_eq!(InputError::EditorLaunch.message(), "Failed to open editor");
    assert_eq!(Failure::Address(AddressParseError::Sender).message(), "Invalid sender address");
    assert_eq!(
        Failure::Address(AddressParseError::Recipient).message(),
        "Invalid recipient address"
    );
    assert_eq!(
        Failure::Store(StoreError::FolderNotCreated).message(),
        "Failed to create emu folder"
    );
    assert_eq!(
        Failure::Store(StoreError::NotSerialized).message(),
        "Failed to serialize to TOML"
    );
    assert_eq!(
        Failure::Store(StoreError::FileNotWritten).message(),
        "Failed to write to config file"
    );
    assert_eq!(Failure::UnexpectedEvent.message(), "Unexpected event");
}

#[test]
fn only_a_run_given_up_is_fatal() {
    assert!(!Outcome::ConfigGenerated.is_fatal());
    assert!(!Outcome::Sent.is_fatal());
    assert!(!Outcome::NotSent.is_fatal());
    assert!(!Outcome::DeliveryFailed(DeliveryError { diagnostic: String::new() }).is_fatal());
    assert!(Outcome::Failed(Failure::UnexpectedEvent).is_fatal());
    assert!(!Outcome::Sent.is_error());
    assert!(!Outcome::NotSent.is_error());
    assert!(Outcome::DeliveryFailed(DeliveryError { diagnostic: String::new() }).is_error());
    assert!(Outcome::Failed(Failure::Store(StoreError::FileNotWritten)).is_error());
}
