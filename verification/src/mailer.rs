//! The mail side: who mails whom through which relay, and what to make of the
//! relay's answer.

use crate::scheduler::Verdict;
use vstd::prelude::*;
use vstd::string::StringExecFns;

verus! {

/// Which of the two addresses was not accepted.
#[derive(Clone, Copy, Debug, PartialEq, Eq, Structural)]
pub enum AddressFault {
    Sender,
    Recipient,
}

/// The sender of every mail: the address under the display name `Freebies`.
pub open spec fn sender_text(from: Seq<char>) -> Seq<char> {
    "Freebies <"@ + from + ">"@
}

/// The fault to report for a pair of addresses. The sender is looked at first.
pub open spec fn fault_of(sender_ok: bool, recipient_ok: bool) -> Option<AddressFault> {
    if !sender_ok {
        Some(AddressFault::Sender)
    } else if !recipient_ok {
        Some(AddressFault::Recipient)
    } else {
        None
    }
}

/// Whether `lettre` accepts a text as a mailbox, that is an address with or
/// without a display name in front.
pub uninterp spec fn is_mailbox(text: Seq<char>) -> bool;

/// Parses `text` with `lettre::message::Mailbox`'s `FromStr` impl and tells
/// whether that succeeded. The parser reads nothing but the text, so the
/// answer is a function of it, called [`is_mailbox`]; nothing more is claimed
/// about it.
#[verifier::external_body]
fn parses_as_mailbox(text: &str) -> (ok: bool)
    ensures
        ok == is_mailbox(text@),
{
    text.parse::<lettre::message::Mailbox>().is_ok()
}

/// Writes the sender's mailbox for the address `from`.
pub fn sender_mailbox(from: &str) -> (sender: String)
    ensures
        sender@ == sender_text(from@),
{
    let mut sender = String::new();
    sender.append("Freebies <");
    sender.append(from);
    sender.append(">");
    sender
}

/// Names the address at fault, if any, given whether each one was accepted.
pub fn address_fault(sender_ok: bool, recipient_ok: bool) -> (fault: Option<AddressFault>)
    ensures
        fault == fault_of(sender_ok, recipient_ok),
{
    if !sender_ok {
        Some(AddressFault::Sender)
    } else if !recipient_ok {
        Some(AddressFault::Recipient)
    } else {
        None
    }
}

/// Everything needed to send mail, bound once at start-up: the relay and the
/// account on it, the sender's mailbox and the recipient's.
pub struct Mailer {
    server: String,
    user: String,
    pass: String,
    sender: String,
    recipient: String,
}

/// A mailer as contracts see it.
pub struct MailerModel {
    pub server: Seq<char>,
    pub user: Seq<char>,
    pub pass: Seq<char>,
    pub sender: Seq<char>,
    pub recipient: Seq<char>,
}

impl View for Mailer {
    type V = MailerModel;

    closed spec fn view(&self) -> MailerModel {
        MailerModel {
            server: self.server@,
            user: self.user@,
            pass: self.pass@,
            sender: self.sender@,
            recipient: self.recipient@,
        }
    }
}

impl Mailer {
    /// Binds the relay, the account and the two addresses.
    ///
    /// The sender becomes `Freebies <from>`. Both mailboxes must be ones that
    /// `lettre` accepts; if not, the first one at fault is named and no mailer
    /// is made.
    pub fn new(server: String, user: String, pass: String, from: String, to: String) -> (made:
        Result<Mailer, AddressFault>)
        ensures
            match fault_of(is_mailbox(sender_text(from@)), is_mailbox(to@)) {
                Some(fault) => made == Err::<Mailer, AddressFault>(fault),
                None => made matches Ok(mailer) && mailer@ == (MailerModel {
                    server: server@,
                    user: user@,
                    pass: pass@,
                    sender: sender_text(from@),
                    recipient: to@,
                }),
            },
    {
        let sender = sender_mailbox(from.as_str());
        let sender_ok = parses_as_mailbox(sender.as_str());
        let recipient_ok = parses_as_mailbox(to.as_str());
        match address_fault(sender_ok, recipient_ok) {
            Some(fault) => Err(fault),
            None => Ok(Mailer { server, user, pass, sender, recipient: to }),
        }
    }

    /// The relay's host name.
    pub fn server(&self) -> (server: &str)
        ensures
            server@ == self@.server,
    {
        self.server.as_str()
    }

    /// The account name on the relay.
    pub fn user(&self) -> (user: &str)
        ensures
            user@ == self@.user,
    {
        self.user.as_str()
    }

    /// The account's password.
    pub fn pass(&self) -> (pass: &str)
        ensures
            pass@ == self@.pass,
    {
        self.pass.as_str()
    }

    /// The sender's mailbox.
    pub fn sender(&self) -> (sender: &str)
        ensures
            sender@ == self@.sender,
    {
        self.sender.as_str()
    }

    /// The recipient's mailbox.
    pub fn recipient(&self) -> (recipient: &str)
        ensures
            recipient@ == self@.recipient,
    {
        self.recipient.as_str()
    }
}

/// What became of one mail handed to the relay.
#[derive(Debug)]
pub enum Delivery {
    /// The relay took the mail and answered with this code.
    Accepted { code: String },
    /// The relay answered, but refused or deferred the mail. The mail is not
    /// sent again.
    Rejected { code: String, message: Vec<String> },
    /// There was no answer to go by: the connection or the login failed.
    Failed { detail: String },
}

/// The first line written about a mail the relay took.
pub open spec fn accepted_line(subject: Seq<char>, code: Seq<char>) -> Seq<char> {
    "\""@ + subject + "\" sent successfully! Response code: "@ + code + "."@
}

/// The first line written about a mail the relay turned down.
pub open spec fn rejected_line(subject: Seq<char>, code: Seq<char>) -> Seq<char> {
    "\""@ + subject + "\" sent with negative response. Response code: "@ + code
        + ". Server response message:"@
}

/// The line written about a mail that could not be handed over.
pub open spec fn failed_line(detail: Seq<char>) -> Seq<char> {
    "Could not send email: "@ + detail
}

/// The characters of each text of a run.
pub open spec fn lines_of(texts: Seq<String>) -> Seq<Seq<char>> {
    texts.map_values(|text: String| text@)
}

impl Delivery {
    /// The delivery that a relay's answer amounts to.
    pub open spec fn of_answer(positive: bool, code: String, message: Vec<String>) -> Delivery {
        if positive {
            Delivery::Accepted { code }
        } else {
            Delivery::Rejected { code, message }
        }
    }

    /// What a delivery means for the program: a mail that was turned down is
    /// put up with, one that could not be handed over stops the program.
    pub open spec fn verdict_of(self) -> Verdict {
        match self {
            Delivery::Accepted { .. } => Verdict::Success,
            Delivery::Rejected { .. } => Verdict::Recoverable,
            Delivery::Failed { .. } => Verdict::Fatal,
        }
    }

    /// The lines written to the log about a delivery of the mail `subject`.
    pub open spec fn log_of(self, subject: Seq<char>) -> Seq<Seq<char>> {
        match self {
            Delivery::Accepted { code } => seq![accepted_line(subject, code@)],
            Delivery::Rejected { code, message } => seq![rejected_line(subject, code@)] + lines_of(
                message@,
            ),
            Delivery::Failed { detail } => seq![failed_line(detail@)],
        }
    }

    /// Sorts a relay's answer: a positive one means the mail was accepted, any
    /// other that it was rejected, with the answer's text lines as the reason.
    pub fn answered(positive: bool, code: String, message: Vec<String>) -> (delivery: Delivery)
        ensures
            delivery == Delivery::of_answer(positive, code, message),
    {
        if positive {
            Delivery::Accepted { code }
        } else {
            Delivery::Rejected { code, message }
        }
    }

    /// The verdict on this delivery.
    pub fn verdict(&self) -> (verdict: Verdict)
        ensures
            verdict == self.verdict_of(),
    {
        match self {
            Delivery::Accepted { .. } => Verdict::Success,
            Delivery::Rejected { .. } => Verdict::Recoverable,
            Delivery::Failed { .. } => Verdict::Fatal,
        }
    }

    /// Writes the log lines about this delivery of the mail `subject`: one
    /// line, followed for a rejected mail by the relay's own lines.
    pub fn report(&self, subject: &str) -> (lines: Vec<String>)
        ensures
            lines_of(lines@) == self.log_of(subject@),
    {
        let mut lines: Vec<String> = Vec::new();
        match self {
            Delivery::Accepted { code } => {
                let mut line = String::new();
                line.append("\"");
                line.append(subject);
                line.append("\" sent successfully! Response code: ");
                line.append(code.as_str());
                line.append(".");
                lines.push(line);
            },
            Delivery::Rejected { code, message } => {
                let mut line = String::new();
                line.append("\"");
                line.append(subject);
                line.append("\" sent with negative response. Response code: ");
                line.append(code.as_str());
                line.append(". Server response message:");
                lines.push(line);
                let mut i: usize = 0;
                while i < message.len()
                    invariant
                        i <= message@.len(),
                        lines_of(lines@) == seq![rejected_line(subject@, code@)] + lines_of(
                            message@.take(i as int),
                        ),
                    decreases message@.len() - i,
                {
                    let ghost before = lines@;
                    lines.push(message[i].clone());
                    assert(lines_of(lines@) =~= lines_of(before).push(message@[i as int]@));
                    i += 1;
                }
            },
            Delivery::Failed { detail } => {
                let mut line = String::new();
                line.append("Could not send email: ");
                line.append(detail.as_str());
                lines.push(line);
            },
        }
        lines
    }
}

} // verus!
