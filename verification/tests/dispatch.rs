use send_to_goodnotes::config::EmailSettings;
use send_to_goodnotes::email::{
    assemble, plan_dispatch, send_pdfs, BodyPart, Delivery, EmailError, Mailbox,
};
use send_to_goodnotes::transport::TlsMode;
use std::path::PathBuf;

fn settings() -> EmailSettings {
    EmailSettings {
        smtp_host: "smtp.example.com".to_string(),
        smtp_port: "587".to_string(),
        from_email: "a@x.com".to_string(),
        to_email: "b@y.com".to_string(),
        app_password: "p a s s".to_string(),
    }
}

fn files(n: usize) -> Vec<(PathBuf, String)> {
    (0..n).map(|i| (PathBuf::from(format!("/tmp/f{}.pdf", i)), format!("File {}", i))).collect()
}

fn mailbox(user: &str, domain: &str) -> Mailbox {
    Mailbox { name: None, user: user.to_string(), domain: domain.to_string() }
}

#[test]
fn end_to_end_one_attachment() {
    let request = vec![(PathBuf::from("/tmp/r.pdf"), "Report".to_string())];
    let dispatch = send_pdfs(request, &settings()).unwrap();
    assert_eq!(dispatch.credentials.username, "a@x.com");
    assert_eq!(dispatch.credentials.password, "pass");
    assert_eq!(dispatch.transport.host, "smtp.example.com");
    assert_eq!(dispatch.transport.port, 587);
    assert_eq!(dispatch.transport.mode, TlsMode::StartTls);
    assert_eq!(dispatch.subject, "PDF files");
    assert_eq!(dispatch.from.user, "a");
    assert_eq!(dispatch.from.domain, "x.com");
    assert_eq!(dispatch.from.name, None);
    assert_eq!(dispatch.to.user, "b");
    assert_eq!(dispatch.to.domain, "y.com");
    assert_eq!(dispatch.files, vec![(PathBuf::from("/tmp/r.pdf"), "Report".to_string())]);

    let loaded = vec![(dispatch.files[0].1.clone(), b"%PDF-1.7 data".to_vec())];
    let parts = assemble(&loaded);
    assert_eq!(parts.len(), 1);
    match &parts[0] {
        BodyPart::Pdf { filename, data } => {
            assert_eq!(filename, "Report.pdf");
            assert_eq!(data, b"%PDF-1.7 data");
        }
        other => panic!("unexpected part: {:?}", other),
    }
    assert_eq!(parts[0].content_type(), "application/pdf");
    assert_eq!(dispatch.finish(Delivery::Sent).unwrap(), 1);
}

#[test]
fn dispatch_succeeds_exactly_when_the_transport_accepts() {
    for n in 0..=5 {
        let dispatch = send_pdfs(files(n), &settings()).unwrap();
        assert_eq!(dispatch.files.len(), n);
        assert_eq!(dispatch.finish(Delivery::Sent).unwrap(), n);
        match dispatch.finish(Delivery::TransportFailed("connection refused".to_string())) {
            Err(EmailError::Smtp(detail)) => assert_eq!(detail, "connection refused"),
            other => panic!("unexpected: {:?}", other),
        }
    }
}

#[test]
fn more_than_five_attachments_are_refused() {
    for n in [6usize, 7, 20] {
        match send_pdfs(files(n), &settings()) {
            Err(EmailError::TooManyAttachments(count)) => assert_eq!(count, n),
            other => panic!("unexpected: {:?}", other),
        }
    }
}

#[test]
fn too_many_attachments_come_before_every_other_check() {
    let empty = EmailSettings {
        smtp_host: String::new(),
        smtp_port: "abc".to_string(),
        from_email: String::new(),
        to_email: String::new(),
        app_password: String::new(),
    };
    assert!(matches!(send_pdfs(files(6), &empty), Err(EmailError::TooManyAttachments(6))));
}

#[test]
fn incomplete_settings_are_refused() {
    let mut s = settings();
    s.smtp_host = String::new();
    assert!(matches!(send_pdfs(files(1), &s), Err(EmailError::IncompleteSettings)));
    let mut s = settings();
    s.from_email = String::new();
    assert!(matches!(send_pdfs(files(1), &s), Err(EmailError::IncompleteSettings)));
    let mut s = settings();
    s.to_email = String::new();
    assert!(matches!(send_pdfs(files(1), &s), Err(EmailError::IncompleteSettings)));
    let mut s = settings();
    s.app_password = String::new();
    assert!(matches!(send_pdfs(files(1), &s), Err(EmailError::IncompleteSettings)));
}

#[test]
fn incomplete_settings_come_before_the_port() {
    let mut s = settings();
    s.smtp_port = "abc".to_string();
    s.app_password = String::new();
    assert!(matches!(send_pdfs(files(1), &s), Err(EmailError::IncompleteSettings)));
}

#[test]
fn empty_port_is_an_invalid_port() {
    let mut s = settings();
    s.smtp_port = String::new();
    match send_pdfs(files(1), &s) {
        Err(EmailError::InvalidPort(raw)) => assert_eq!(raw, ""),
        other => panic!("unexpected: {:?}", other),
    }
}

#[test]
fn invalid_port_is_refused_before_the_addresses() {
    let mut s = settings();
    s.smtp_port = "abc".to_string();
    s.from_email = "not an address".to_string();
    match send_pdfs(files(1), &s) {
        Err(EmailError::InvalidPort(raw)) => assert_eq!(raw, "abc"),
        other => panic!("unexpected: {:?}", other),
    }
}

#[test]
fn malformed_sender_is_refused() {
    let mut s = settings();
    s.from_email = "not an address".to_string();
    match send_pdfs(files(1), &s) {
        Err(EmailError::Addr(detail)) => assert!(!detail.is_empty()),
        other => panic!("unexpected: {:?}", other),
    }
}

#[test]
fn malformed_recipient_is_refused() {
    let mut s = settings();
    s.to_email = "b@".to_string();
    match send_pdfs(files(1), &s) {
        Err(EmailError::Addr(detail)) => assert!(!detail.is_empty()),
        other => panic!("unexpected: {:?}", other),
    }
}

#[test]
fn sender_with_display_name_is_parsed() {
    let mut s = settings();
    s.from_email = "Jane Doe <jane@example.org>".to_string();
    let dispatch = send_pdfs(files(0), &s).unwrap();
    assert_eq!(dispatch.from.name.as_deref(), Some("Jane Doe"));
    assert_eq!(dispatch.from.user, "jane");
    assert_eq!(dispatch.from.domain, "example.org");
    assert_eq!(dispatch.credentials.username, "Jane Doe <jane@example.org>");
}

#[test]
fn port_465_plans_implicit_tls() {
    let mut s = settings();
    s.smtp_port = "465".to_string();
    let dispatch = send_pdfs(files(2), &s).unwrap();
    assert_eq!(dispatch.transport.mode, TlsMode::Implicit);
    assert_eq!(dispatch.transport.port, 465);
}

#[test]
fn password_loses_all_whitespace() {
    let mut s = settings();
    s.app_password = " abcd efgh\tijkl\u{a0}mnop\n".to_string();
    let dispatch = send_pdfs(files(1), &s).unwrap();
    assert_eq!(dispatch.credentials.password, "abcdefghijklmnop");
}

#[test]
fn password_of_spaces_counts_as_present() {
    let mut s = settings();
    s.app_password = "   ".to_string();
    let dispatch = send_pdfs(files(1), &s).unwrap();
    assert_eq!(dispatch.credentials.password, "");
}

#[test]
fn plan_takes_the_parse_results_as_given() {
    let ok = plan_dispatch(files(1), &settings(), Ok(mailbox("a", "x.com")), Ok(mailbox("b", "y.com")));
    assert!(ok.is_ok());
    let bad_from = plan_dispatch(
        files(1),
        &settings(),
        Err("first".to_string()),
        Err("second".to_string()),
    );
    match bad_from {
        Err(EmailError::Addr(detail)) => assert_eq!(detail, "first"),
        other => panic!("unexpected: {:?}", other),
    }
    let bad_to = plan_dispatch(
        files(1),
        &settings(),
        Ok(mailbox("a", "x.com")),
        Err("second".to_string()),
    );
    match bad_to {
        Err(EmailError::Addr(detail)) => assert_eq!(detail, "second"),
        other => panic!("unexpected: {:?}", other),
    }
}

#[test]
fn empty_selection_gives_one_text_part() {
    let parts = assemble(&Vec::new());
    assert_eq!(parts.len(), 1);
    match &parts[0] {
        BodyPart::Text { body } => assert_eq!(body, "No attachments provided."),
        other => panic!("unexpected part: {:?}", other),
    }
    assert_eq!(parts[0].content_type(), "text/plain; charset=utf-8");
    let dispatch = send_pdfs(Vec::new(), &settings()).unwrap();
    assert_eq!(dispatch.finish(Delivery::Sent).unwrap(), 0);
}

#[test]
fn parts_keep_order_and_get_the_suffix() {
    let loaded = vec![
        ("b".to_string(), vec![2u8, 2]),
        ("a.PDF".to_string(), vec![1u8]),
        ("c.pdf".to_string(), Vec::new()),
        ("d.txt".to_string(), vec![4u8]),
    ];
    let parts = assemble(&loaded);
    let expected = [("b.pdf", vec![2u8, 2]), ("a.PDF", vec![1u8]), ("c.pdf", vec![]), ("d.txt.pdf", vec![4u8])];
    assert_eq!(parts.len(), expected.len());
    for (part, (name, bytes)) in parts.iter().zip(expected.iter()) {
        match part {
            BodyPart::Pdf { filename, data } => {
                assert_eq!(filename, name);
                assert_eq!(data, bytes);
            }
            other => panic!("unexpected part: {:?}", other),
        }
        assert_eq!(part.content_type(), "application/pdf");
    }
}

#[test]
fn failures_after_planning_are_reported() {
    let dispatch = send_pdfs(files(3), &settings()).unwrap();
    match dispatch.finish(Delivery::ReadFailed("No such file".to_string())) {
        Err(EmailError::Io(detail)) => assert_eq!(detail, "No such file"),
        other => panic!("unexpected: {:?}", other),
    }
    match dispatch.finish(Delivery::BuildFailed("missing part".to_string())) {
        Err(EmailError::Build(detail)) => assert_eq!(detail, "missing part"),
        other => panic!("unexpected: {:?}", other),
    }
    match dispatch.finish(Delivery::TransportFailed("535 auth".to_string())) {
        Err(EmailError::Smtp(detail)) => assert_eq!(detail, "535 auth"),
        other => panic!("unexpected: {:?}", other),
    }
}

#[test]
fn email_errors_describe_themselves() {
    assert_eq!(EmailError::TooManyAttachments(6).message(), "too many attachments: 6, max is 5");
    assert_eq!(EmailError::TooManyAttachments(12).message(), "too many attachments: 12, max is 5");
    assert_eq!(EmailError::Io("gone".to_string()).message(), "gone");
    assert_eq!(EmailError::Build("bad".to_string()).message(), "bad");
    assert_eq!(EmailError::Smtp("refused".to_string()).message(), "refused");
    assert_eq!(EmailError::Addr("Invalid input".to_string()).message(), "invalid address: Invalid input");
    assert_eq!(EmailError::InvalidPort("abc".to_string()).message(), "invalid port number: abc");
    assert_eq!(EmailError::IncompleteSettings.message(), "settings not configured properly");
}
