use freebies::mailer::{address_fault, sender_mailbox, AddressFault, Delivery, Mailer};
use freebies::scheduler::Verdict;

fn s(text: &str) -> String {
    text.to_string()
}

fn make(from: &str, to: &str) -> Result<Mailer, AddressFault> {
    Mailer::new(s("smtp.example.org"), s("user"), s("secret"), s(from), s(to))
}

#[test]
fn sender_gets_the_display_name() {
    assert_eq!(sender_mailbox("bot@example.org"), "Freebies <bot@example.org>");
    assert_eq!(sender_mailbox(""), "Freebies <>");
}

#[test]
fn mailer_binds_its_settings() {
    let mailer = make("bot@example.org", "me@example.org").expect("addresses are fine");
    assert_eq!(mailer.server(), "smtp.example.org");
    assert_eq!(mailer.user(), "user");
    assert_eq!(mailer.pass(), "secret");
    assert_eq!(mailer.sender(), "Freebies <bot@example.org>");
    assert_eq!(mailer.recipient(), "me@example.org");
}

#[test]
fn recipient_may_carry_a_name() {
    let mailer = make("bot@example.org", "Me <me@example.org>").expect("addresses are fine");
    assert_eq!(mailer.recipient(), "Me <me@example.org>");
}

#[test]
fn bad_sender_is_named() {
    assert_eq!(make("not an address", "me@example.org").err(), Some(AddressFault::Sender));
    assert_eq!(make("", "me@example.org").err(), Some(AddressFault::Sender));
}

#[test]
fn bad_recipient_is_named() {
    assert_eq!(make("bot@example.org", "nobody").err(), Some(AddressFault::Recipient));
    assert_eq!(make("bot@example.org", "").err(), Some(AddressFault::Recipient));
}

#[test]
fn sender_is_checked_first() {
    assert_eq!(make("bad", "worse").err(), Some(AddressFault::Sender));
}

#[test]
fn fault_from_the_two_checks() {
    assert_eq!(address_fault(true, true), None);
    assert_eq!(address_fault(false, true), Some(AddressFault::Sender));
    assert_eq!(address_fault(true, false), Some(AddressFault::Recipient));
    assert_eq!(address_fault(false, false), Some(AddressFault::Sender));
}

#[test]
fn positive_answer_is_accepted() {
    let delivery = Delivery::answered(true, s("250"), vec![s("OK")]);
    assert!(matches!(&delivery, Delivery::Accepted { code } if code == "250"));
    assert_eq!(delivery.verdict(), Verdict::Success);
    assert_eq!(
        delivery.report("FREE Game A"),
        vec!["\"FREE Game A\" sent successfully! Response code: 250."]
    );
}

#[test]
fn negative_answer_is_rejected_with_its_lines() {
    let delivery = Delivery::answered(false, s("550"), vec![s("mailbox unavailable"), s("try later")]);
    match &delivery {
        Delivery::Rejected { code, message } => {
            assert_eq!(code, "550");
            assert_eq!(message, &vec![s("mailbox unavailable"), s("try later")]);
        }
        other => panic!("unexpected delivery {:?}", other),
    }
    assert_eq!(delivery.verdict(), Verdict::Recoverable);
    assert_eq!(
        delivery.report("FREE Game A"),
        vec![
            "\"FREE Game A\" sent with negative response. Response code: 550. Server response message:",
            "mailbox unavailable",
            "try later",
        ]
    );
}

#[test]
fn negative_answer_without_lines() {
    let delivery = Delivery::answered(false, s("451"), Vec::new());
    assert_eq!(
        delivery.report("x"),
        vec!["\"x\" sent with negative response. Response code: 451. Server response message:"]
    );
}

#[test]
fn transport_failure_is_fatal() {
    let delivery = Delivery::Failed { detail: s("connection refused") };
    assert_eq!(delivery.verdict(), Verdict::Fatal);
    assert_eq!(delivery.report("x"), vec!["Could not send email: connection refused"]);
}
