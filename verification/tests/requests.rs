use mailbox_probe::address::{check_addresses, judge_pair, AddressFormatError};
use mailbox_probe::command::Command;
use mailbox_probe::request::{ProbeRequest, CLIENT_NAME, DEFAULT_TIMEOUT_MS};

fn request() -> ProbeRequest {
    match ProbeRequest::new("probe@example.org", "someone@example.com", "mx.example.com", 25, 3000) {
        Ok(request) => request,
        Err(e) => panic!("refused: {:?}", e),
    }
}

#[test]
fn request_keeps_what_it_was_given() {
    let request = request();
    assert_eq!(request.sender(), "probe@example.org");
    assert_eq!(request.recipient(), "someone@example.com");
    assert_eq!(request.host(), "mx.example.com");
    assert_eq!(request.port(), 25);
    assert_eq!(request.timeout_ms(), 3000);
}

#[test]
fn request_accepts_the_largest_port_and_any_timeout() {
    let request = ProbeRequest::new("a@example.org", "b@example.com", "mx", 65535, 0);
    assert!(request.is_ok());
    let request = request.ok().map(|r| (r.port(), r.timeout_ms()));
    assert_eq!(request, Some((65535, 0)));
    let request = ProbeRequest::new("a@example.org", "b@example.com", "mx", 1, u64::MAX);
    assert_eq!(request.ok().map(|r| (r.port(), r.timeout_ms())), Some((1, u64::MAX)));
}

#[test]
fn request_refuses_a_malformed_sender() {
    let r = ProbeRequest::new("not an address", "someone@example.com", "mx.example.com", 25, 3000);
    assert_eq!(r.err(), Some(AddressFormatError::Sender));
    let r = ProbeRequest::new("", "someone@example.com", "mx.example.com", 25, 3000);
    assert_eq!(r.err(), Some(AddressFormatError::Sender));
    let r = ProbeRequest::new("@example.org", "someone@example.com", "mx.example.com", 25, 3000);
    assert_eq!(r.err(), Some(AddressFormatError::Sender));
}

#[test]
fn request_refuses_a_malformed_recipient() {
    let r = ProbeRequest::new("probe@example.org", "someone", "mx.example.com", 25, 3000);
    assert_eq!(r.err(), Some(AddressFormatError::Recipient));
    let r = ProbeRequest::new("probe@example.org", "a@b@example.com", "mx.example.com", 25, 3000);
    assert_eq!(r.err(), Some(AddressFormatError::Recipient));
    let r = ProbeRequest::new("probe@example.org", "someone@", "mx.example.com", 25, 3000);
    assert_eq!(r.err(), Some(AddressFormatError::Recipient));
}

#[test]
fn request_reports_the_sender_first() {
    let r = ProbeRequest::new("nobody", "nowhere", "mx.example.com", 25, 3000);
    assert_eq!(r.err(), Some(AddressFormatError::Sender));
}

#[test]
fn addresses_are_checked_as_lettre_checks_them() {
    assert_eq!(check_addresses("user@example.com", "other.user+tag@mail.example.org"), Ok(()));
    assert_eq!(check_addresses("root@localhost", "user@example.com"), Ok(()));
    assert_eq!(check_addresses("user@example.com", "postmaster@localhost"), Ok(()));
    assert_eq!(check_addresses("user@example", "user@example.com"), Err(AddressFormatError::Sender));
    assert_eq!(
        check_addresses("user@example.com", "us er@example.com"),
        Err(AddressFormatError::Recipient)
    );
    assert_eq!(
        check_addresses("user@example.com", "user..name@example.com"),
        Err(AddressFormatError::Recipient)
    );
    assert_eq!(
        check_addresses("user@example.com", "user@-example.com"),
        Err(AddressFormatError::Recipient)
    );
    assert_eq!(
        check_addresses("us\u{e9}r@example.com", "user@example.com"),
        Err(AddressFormatError::Sender)
    );
}

#[test]
fn pair_is_judged_sender_first() {
    assert_eq!(judge_pair(true, true), Ok(()));
    assert_eq!(judge_pair(false, true), Err(AddressFormatError::Sender));
    assert_eq!(judge_pair(true, false), Err(AddressFormatError::Recipient));
    assert_eq!(judge_pair(false, false), Err(AddressFormatError::Sender));
}

#[test]
fn identification_names_the_client() {
    assert_eq!(request().command_text(Command::Hello), "EHLO localhost\r\n");
    assert_eq!(CLIENT_NAME, "localhost");
}

#[test]
fn sender_declaration_carries_the_sender() {
    assert_eq!(request().command_text(Command::MailFrom), "MAIL FROM:<probe@example.org>\r\n");
}

#[test]
fn recipient_declaration_carries_the_recipient() {
    assert_eq!(request().command_text(Command::RcptTo), "RCPT TO:<someone@example.com>\r\n");
}

#[test]
fn termination_is_a_plain_quit() {
    assert_eq!(request().command_text(Command::Quit), "QUIT\r\n");
}

#[test]
fn command_text_follows_the_addresses_of_the_request() {
    let request = match ProbeRequest::new("root@localhost", "Some.One+x@sub.example.co.uk", "mx", 2525, 10) {
        Ok(request) => request,
        Err(e) => panic!("refused: {:?}", e),
    };
    assert_eq!(request.command_text(Command::MailFrom), "MAIL FROM:<root@localhost>\r\n");
    assert_eq!(
        request.command_text(Command::RcptTo),
        "RCPT TO:<Some.One+x@sub.example.co.uk>\r\n"
    );
}

#[test]
fn default_timeout_is_three_seconds() {
    assert_eq!(DEFAULT_TIMEOUT_MS, 3000);
}
