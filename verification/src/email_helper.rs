//! The addresses and the message of an outgoing email.

use lettre::message::header::ContentType;
use lettre::message::Mailbox;
use lettre::{Address, Message};
use vstd::prelude::*;

verus! {

#[verifier::external_type_specification]
#[verifier::external_body]
pub struct ExAddress(Address);

#[verifier::external_type_specification]
#[verifier::external_body]
pub struct ExMessage(Message);

/// Whether `text` is an email address that lettre accepts.
pub uninterp spec fn spec_email_address_valid(text: Seq<char>) -> bool;

/// The address that lettre parses `text` to.
pub uninterp spec fn spec_parsed_address(text: Seq<char>) -> Address;

/// Parses an email address.
///
/// Trusted: calls `<lettre::Address as FromStr>::from_str`; whether it accepts
/// the text is named by `spec_email_address_valid`, and the address that comes
/// out (opaque here, a function of the text alone) by `spec_parsed_address`.
#[verifier::external_body]
fn parse_address(text: &str) -> (r: Option<Address>)
    ensures
        r is Some == spec_email_address_valid(text@),
        r matches Some(a) ==> a == spec_parsed_address(text@),
{
    text.parse::<Address>().ok()
}

/// Which address of an email could not be parsed.
#[derive(PartialEq, Eq, Structural, Clone, Copy, Debug)]
pub enum AddressProblem {
    /// The configured sender address.
    From,
    /// The recipient's address.
    To,
}

/// The sender's and the recipient's addresses, parsed, in that order; the sender's is
/// checked first, and the first that fails is reported.
pub fn email_addresses(from_address: &str, to_address: &str) -> (r: Result<(Address, Address), AddressProblem>)
    ensures
        r is Ok <==> spec_email_address_valid(from_address@) && spec_email_address_valid(to_address@),
        !spec_email_address_valid(from_address@) ==> r == Err::<(Address, Address), AddressProblem>(AddressProblem::From),
        spec_email_address_valid(from_address@) && !spec_email_address_valid(to_address@)
            ==> r == Err::<(Address, Address), AddressProblem>(AddressProblem::To),
        r matches Ok(p) ==> p.0 == spec_parsed_address(from_address@) && p.1 == spec_parsed_address(
            to_address@,
        ),
{
    let from_email = match parse_address(from_address) {
        Some(a) => a,
        None => return Err(AddressProblem::From),
    };
    let to_email = match parse_address(to_address) {
        Some(a) => a,
        None => return Err(AddressProblem::To),
    };
    Ok((from_email, to_email))
}

/// A plain-text email message, with what it was built from: the sender's
/// name and address, the recipient's address, the subject and the body.
pub struct Email {
    message: Message,
    from_name: Ghost<Seq<char>>,
    from: Ghost<Address>,
    to: Ghost<Address>,
    subject: Ghost<Seq<char>>,
    body: Ghost<Seq<char>>,
}

impl Email {
    /// The display name of the sender's mailbox.
    pub closed spec fn from_name(&self) -> Seq<char> {
        self.from_name@
    }

    /// The sender's address.
    pub closed spec fn from(&self) -> Address {
        self.from@
    }

    /// The recipient's address (its mailbox has no display name).
    pub closed spec fn to(&self) -> Address {
        self.to@
    }

    /// The subject line.
    pub closed spec fn subject(&self) -> Seq<char> {
        self.subject@
    }

    /// The text of the body.
    pub closed spec fn body(&self) -> Seq<char> {
        self.body@
    }

    /// The message itself, to hand to a transport.
    pub fn message(&self) -> &Message {
        &self.message
    }
}

/// Builds a plain-text message from the named sender `from` to `to`.
///
/// Trusted: calls `Mailbox::new` for both ends (the recipient without a name),
/// then `Message::builder()` with `from`, `to`, `subject`, the `text/plain`
/// content type and `body`. The source of `MessageBuilder::build` fails only
/// without a `From`, with several `From` and no `Sender`, or without a recipient;
/// here there is one of each, so the result is `Ok`. The contract claims that the
/// message's `From` mailbox is `from_name <from>`, its `To` mailbox is `to`, and its
/// subject and body are `subject` and `body`, as the builder calls above set them;
/// the rest of the message (its `Date` header is the clock's) is not stated.
#[verifier::external_body]
fn build_message(from_name: String, from: Address, to: Address, subject: &str, body: String) -> (r: Result<Email, String>)
    ensures
        r is Ok,
        r matches Ok(m) ==> m.from_name() == from_name@ && m.from() == from && m.to() == to
            && m.subject() == subject@ && m.body() == body@,
{
    let parts = (Ghost(from_name@), Ghost(from), Ghost(to), Ghost(subject@), Ghost(body@));
    let built = Message::builder()
        .from(Mailbox::new(Some(from_name), from))
        .to(Mailbox::new(None, to))
        .subject(subject)
        .header(ContentType::TEXT_PLAIN)
        .body(body);
    match built {
        Ok(message) => Ok(Email { message, from_name: parts.0, from: parts.1, to: parts.2, subject: parts.3, body: parts.4 }),
        Err(e) => Err(e.to_string()),
    }
}

/// The plain-text email from `from_name <from_address>` to `to_address`, with
/// `subject` and `body`: built where both addresses parse, else the first address
/// that does not (the sender's is checked first), as `email_addresses` reports it.
pub fn compose_email(from_name: String, from_address: &str, to_address: &str, subject: &str, body: String) -> (r: Result<Email, AddressProblem>)
    ensures
        r is Ok <==> spec_email_address_valid(from_address@) && spec_email_address_valid(to_address@),
        !spec_email_address_valid(from_address@) ==> r == Err::<Email, AddressProblem>(AddressProblem::From),
        spec_email_address_valid(from_address@) && !spec_email_address_valid(to_address@)
            ==> r == Err::<Email, AddressProblem>(AddressProblem::To),
        r matches Ok(m) ==> m.from_name() == from_name@ && m.from() == spec_parsed_address(from_address@)
            && m.to() == spec_parsed_address(to_address@) && m.subject() == subject@ && m.body() == body@,
{
    let (from_email, to_email) = match email_addresses(from_address, to_address) {
        Ok(addresses) => addresses,
        Err(problem) => return Err(problem),
    };
    let message = build_message(from_name, from_email, to_email, subject, body);
    Ok(message.unwrap())
}

} // verus!
