//! The message to send, and the test that its addresses must pass.

use vstd::prelude::*;
use lettre::address::AddressError;
use lettre::message::Mailbox;

verus! {

/// `lettre::message::Mailbox`, a parsed mailbox. The proofs see nothing
/// inside it.
#[verifier::external_type_specification]
#[verifier::external_body]
pub struct ExMailbox(lettre::message::Mailbox);

/// `lettre::address::AddressError`, the parser's complaint. It is only told
/// apart from a parsed mailbox.
#[verifier::external_type_specification]
#[verifier::external_body]
pub struct ExAddressError(lettre::address::AddressError);

/// Whether a text parses as a mailbox, that is, as a mail address standing
/// alone or after a display name. The grammar is that of the `lettre` crate's
/// parser for `Mailbox`; it is not written out here.
pub uninterp spec fn mailbox_syntax(text: Seq<char>) -> bool;

/// Parses a text with the `FromStr` impl of `lettre::message::Mailbox`. The
/// parser reads nothing but the text, so whether it accepts is the predicate
/// that `mailbox_syntax` names. Of the mailbox itself nothing is claimed.
#[verifier::external_body]
fn parse_mailbox(text: &str) -> (parsed: Result<Mailbox, AddressError>)
    ensures
        parsed is Ok <==> mailbox_syntax(text@),
{
    text.parse::<Mailbox>()
}

/// Which of a message's two addresses is no mailbox.
#[derive(Clone, Copy, Debug, PartialEq, Eq, Structural)]
pub enum AddressParseError {
    /// The address stored in the credential record.
    Sender,
    /// The address the message is meant for.
    Recipient,
}

/// Why a delivery failed, in the words of the transport.
#[derive(Debug, PartialEq, Eq)]
pub struct DeliveryError {
    pub diagnostic: String,
}

/// A message ready to be handed to the relay. Both addresses are known to
/// parse as mailboxes; subject and body may be empty.
#[derive(Debug, PartialEq, Eq)]
pub struct OutboundMessage {
    from: String,
    to: String,
    subject: String,
    body: String,
}

/// What an `OutboundMessage` holds, as sequences of characters.
pub struct MessageView {
    pub from: Seq<char>,
    pub to: Seq<char>,
    pub subject: Seq<char>,
    pub body: Seq<char>,
}

impl View for OutboundMessage {
    type V = MessageView;

    closed spec fn view(&self) -> MessageView {
        MessageView { from: self.from@, to: self.to@, subject: self.subject@, body: self.body@ }
    }
}

/// The view of what composing returns.
pub open spec fn composed_view(composed: Result<OutboundMessage, AddressParseError>) -> Result<
    MessageView,
    AddressParseError,
> {
    match composed {
        Ok(message) => Ok(message@),
        Err(error) => Err(error),
    }
}

/// The address to report, given which of the two parse. The sender's is
/// looked at first.
pub open spec fn first_invalid(sender_parses: bool, recipient_parses: bool) -> Option<
    AddressParseError,
> {
    if !sender_parses {
        Some(AddressParseError::Sender)
    } else if !recipient_parses {
        Some(AddressParseError::Recipient)
    } else {
        None
    }
}

/// The message made of the four texts: it exists where both addresses
/// parse, and then holds the texts unchanged.
pub open spec fn composed(from: Seq<char>, to: Seq<char>, subject: Seq<char>, body: Seq<char>)
    -> Result<MessageView, AddressParseError> {
    match first_invalid(mailbox_syntax(from), mailbox_syntax(to)) {
        Some(error) => Err(error),
        None => Ok(MessageView { from, to, subject, body }),
    }
}

/// Decides which address error to report once both addresses have been
/// put before the parser.
pub fn address_verdict(sender_parses: bool, recipient_parses: bool) -> (verdict: Option<
    AddressParseError,
>)
    ensures
        verdict == first_invalid(sender_parses, recipient_parses),
{
    if !sender_parses {
        Some(AddressParseError::Sender)
    } else if !recipient_parses {
        Some(AddressParseError::Recipient)
    } else {
        None
    }
}

fn is_mailbox(text: &str) -> (parses: bool)
    ensures
        parses == mailbox_syntax(text@),
{
    match parse_mailbox(text) {
        Ok(_) => true,
        Err(_) => false,
    }
}

impl OutboundMessage {
    /// Whether both addresses of a message parse as mailboxes.
    pub open spec fn deliverable(message: MessageView) -> bool {
        mailbox_syntax(message.from) && mailbox_syntax(message.to)
    }

    /// Holds of every message there is.
    #[verifier::type_invariant]
    pub open spec fn well_formed(self) -> bool {
        Self::deliverable(self@)
    }

    /// Composes a message from the sender's address and the three texts
    /// acquired from the operator.
    pub fn compose(from: &str, to: &str, subject: &str, body: &str) -> (message: Result<
        OutboundMessage,
        AddressParseError,
    >)
        ensures
            composed_view(message) == composed(from@, to@, subject@, body@),
    {
        let sender_parses = is_mailbox(from);
        let recipient_parses = is_mailbox(to);
        match address_verdict(sender_parses, recipient_parses) {
            Some(error) => Err(error),
            None => Ok(
                OutboundMessage {
                    from: from.to_owned(),
                    to: to.to_owned(),
                    subject: subject.to_owned(),
                    body: body.to_owned(),
                },
            ),
        }
    }

    /// The address the message is from. It parses as a mailbox.
    pub fn sender(&self) -> (text: &str)
        ensures
            text@ == self@.from,
            mailbox_syntax(text@),
    {
        proof {
            use_type_invariant(self);
        }
        self.from.as_str()
    }

    /// The address the message is for. It parses as a mailbox.
    pub fn recipient(&self) -> (text: &str)
        ensures
            text@ == self@.to,
            mailbox_syntax(text@),
    {
        proof {
            use_type_invariant(self);
        }
        self.to.as_str()
    }

    /// The subject of the message.
    pub fn subject(&self) -> (text: &str)
        ensures
            text@ == self@.subject,
    {
        self.subject.as_str()
    }

    /// The body of the message.
    pub fn body(&self) -> (text: &str)
        ensures
            text@ == self@.body,
    {
        self.body.as_str()
    }
}

} // verus!
