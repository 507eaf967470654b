use lettre::smtp::response::Response;
use mailbox_probe::enhanced::EnhancedCode;
use mailbox_probe::outcome::Outcome;
use mailbox_probe::reply::ServerReply;

fn read(raw: &str) -> ServerReply {
    let parsed: Response = match raw.parse() {
        Ok(parsed) => parsed,
        Err(e) => panic!("no reply: {:?}", e),
    };
    ServerReply::from_digits(
        parsed.code.severity as u8,
        parsed.code.category as u8,
        parsed.code.detail as u8,
        parsed.message.into_iter().map(String::into_bytes).collect(),
    )
}

#[test]
fn status_line_250_2_1_5_exists() {
    let reply = read("250 2.1.5 Ok\r\n");
    assert_eq!(reply.code, 250);
    assert_eq!(reply.enhanced_code(), Some(EnhancedCode { class: 2, subject: 1, detail: 5 }));
    assert_eq!(reply.classify(), Outcome::Exists);
}

#[test]
fn status_line_550_5_1_1_does_not_exist() {
    let reply = read("550 5.1.1 Mailbox does not exist.\r\n");
    assert_eq!(reply.code, 550);
    assert_eq!(reply.classify(), Outcome::DoesNotExist);
}

#[test]
fn status_line_250_2_1_0_is_indeterminate() {
    let reply = read("250 2.1.0 Sender e-mail address ok.\r\n");
    assert_eq!(reply.code, 250);
    assert_eq!(reply.enhanced_code(), Some(EnhancedCode { class: 2, subject: 1, detail: 0 }));
    assert_eq!(reply.classify(), Outcome::Indeterminate);
}

#[test]
fn reply_of_several_lines_is_read_from_its_first_line() {
    let reply = read("550-5.1.1 The email account that you tried to reach does not exist.\r\n550 5.1.1 Please check.\r\n");
    assert_eq!(reply.code, 550);
    assert_eq!(reply.lines.len(), 2);
    assert_eq!(reply.classify(), Outcome::DoesNotExist);
}

#[test]
fn reply_without_enhanced_code_is_indeterminate() {
    let reply = read("250 mx.example.com\r\n");
    assert_eq!(reply.enhanced_code(), None);
    assert_eq!(reply.classify(), Outcome::Indeterminate);
    let reply = read("550 Requested action not taken: mailbox unavailable\r\n");
    assert_eq!(reply.classify(), Outcome::Indeterminate);
}
