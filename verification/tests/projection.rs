use centaureissi::email::{parse_attachments, parse_email, EmailAttachment, Mailbox, ParsedEmail};
use centaureissi::text::join_strings;
use centaureissi::utils::message::{
    create_message_attachment_content_model_from_message, create_message_attachment_list_from_message,
    create_message_content_model_from_message, create_message_model_from_message, project_message,
    MessageAttachment,
};

fn mailbox(name: Option<&str>, address: Option<&str>) -> Mailbox {
    Mailbox { name: name.map(String::from), address: address.map(String::from) }
}

fn bare_email() -> ParsedEmail {
    ParsedEmail {
        from: None,
        to: None,
        cc: None,
        bcc: None,
        subject: None,
        date: None,
        text_bodies: Vec::new(),
        html_bodies: Vec::new(),
        attachment_count: 0,
    }
}

const SAMPLE: &[u8] = b"From: Alice Example <alice@example.org>\r\n\
To: bob@example.org, Carol <carol@example.org>\r\n\
Subject: Hello\r\n\
Date: Thu, 01 Jan 1970 00:00:10 +0000\r\n\
Content-Type: text/plain\r\n\
\r\n\
Body text";

#[test]
fn join_puts_the_separator_between_neighbours_only() {
    let parts = vec![String::from("a"), String::from("b"), String::from("c")];
    assert_eq!(join_strings(&parts, ", "), "a, b, c");
    assert_eq!(join_strings(&vec![String::from("only")], ", "), "only");
    assert_eq!(join_strings(&Vec::new(), ", "), "");
}

#[test]
fn absent_headers_project_to_empty_strings_and_zero() {
    let model = create_message_model_from_message(7, &bare_email());
    assert_eq!(model.user_id, 7);
    assert_eq!(model.from, "");
    assert_eq!(model.to, "");
    assert_eq!(model.cc, "");
    assert_eq!(model.bcc, "");
    assert_eq!(model.subject, "");
    assert_eq!(model.timestamp_secs, 0);
    assert_eq!(model.content, "");
    assert!(!model.is_html_mail);
    assert!(!model.is_text_mail);
    assert!(!model.has_attachments);
}

#[test]
fn address_entries_render_with_and_without_display_name() {
    let mut email = bare_email();
    email.from = Some(vec![mailbox(Some("Alice"), Some("alice@example.org"))]);
    email.to = Some(vec![
        mailbox(None, Some("bob@example.org")),
        mailbox(Some("Carol"), Some("carol@example.org")),
    ]);
    email.cc = Some(Vec::new());
    email.bcc = Some(vec![mailbox(Some("Undisclosed"), None), mailbox(None, None)]);
    let model = create_message_model_from_message(1, &email);
    assert_eq!(model.from, "Alice <alice@example.org>");
    assert_eq!(model.to, "bob@example.org, Carol <carol@example.org>");
    assert_eq!(model.cc, "");
    assert_eq!(model.bcc, "Undisclosed <>, ");
}

#[test]
fn text_bodies_are_joined_by_a_blank_line() {
    let mut email = bare_email();
    email.subject = Some(String::from("Two parts"));
    email.date = Some(1_700_000_000);
    email.text_bodies = vec![Some(String::from("first")), None, Some(String::from("third"))];
    email.html_bodies = vec![Some(String::from("<p>first</p>")), Some(String::from("<p>second</p>"))];
    email.attachment_count = 1;
    let model = create_message_model_from_message(-3, &email);
    assert_eq!(model.user_id, -3);
    assert_eq!(model.subject, "Two parts");
    assert_eq!(model.timestamp_secs, 1_700_000_000);
    assert_eq!(model.content, "first\n\n\n\nthird");
    assert!(model.is_html_mail && model.is_text_mail && model.has_attachments);
    assert_eq!(
        create_message_content_model_from_message(true, &email).content,
        "<p>first</p>\n\n<p>second</p>"
    );
    assert_eq!(create_message_content_model_from_message(false, &email).content, "first\n\n\n\nthird");
}

#[test]
fn a_message_is_a_text_mail_exactly_when_it_has_a_text_part() {
    let mut email = bare_email();
    assert!(!create_message_model_from_message(1, &email).is_text_mail);
    assert!(!create_message_model_from_message(1, &email).is_html_mail);
    email.text_bodies = vec![None];
    let model = create_message_model_from_message(1, &email);
    assert!(model.is_text_mail);
    assert!(!model.is_html_mail);
    assert_eq!(model.content, "");
    email.html_bodies = vec![Some(String::from("<p>x</p>"))];
    email.text_bodies = Vec::new();
    let model = create_message_model_from_message(1, &email);
    assert!(!model.is_text_mail);
    assert!(model.is_html_mail);
}

#[test]
fn projection_gives_the_same_result_each_time() {
    let first = create_message_model_from_message(5, &parse_email(SAMPLE).expect("it parses"));
    let second = create_message_model_from_message(5, &parse_email(SAMPLE).expect("it parses"));
    assert_eq!(first, second);
}

#[test]
fn parsing_and_projecting_in_one_step_gives_the_same_fields() {
    let email = parse_email(SAMPLE).expect("it parses");
    let model = project_message(9, SAMPLE).expect("it parses");
    assert_eq!(model, create_message_model_from_message(9, &email));
    assert_eq!(project_message(9, SAMPLE), Some(model));
    assert_eq!(project_message(9, b""), None);
}

#[test]
fn parsed_sample_projects_to_its_headers() {
    let email = parse_email(SAMPLE).expect("it parses");
    assert_eq!(email.subject.as_deref(), Some("Hello"));
    assert_eq!(email.date, Some(10));
    assert_eq!(email.from, Some(vec![mailbox(Some("Alice Example"), Some("alice@example.org"))]));
    assert_eq!(email.cc, None);
    let model = create_message_model_from_message(2, &email);
    assert_eq!(model.from, "Alice Example <alice@example.org>");
    assert_eq!(model.to, "bob@example.org, Carol <carol@example.org>");
    assert_eq!(model.cc, "");
    assert_eq!(model.bcc, "");
    assert_eq!(model.subject, "Hello");
    assert_eq!(model.timestamp_secs, 10);
    assert_eq!(model.content, "Body text");
    assert!(model.is_text_mail);
    assert!(!model.has_attachments);
}

#[test]
fn bytes_without_headers_do_not_parse() {
    assert_eq!(parse_email(b""), None);
    assert_eq!(parse_attachments(b""), None);
}

#[test]
fn attachments_are_listed_from_zero_with_a_default_name() {
    let attachments = vec![
        EmailAttachment { name: Some(String::from("report.pdf")), contents: vec![1, 2, 3] },
        EmailAttachment { name: None, contents: vec![4] },
    ];
    assert_eq!(
        create_message_attachment_list_from_message(&attachments),
        vec![
            MessageAttachment { id: 0, name: String::from("report.pdf") },
            MessageAttachment { id: 1, name: String::from("Attachment") },
        ]
    );
    assert_eq!(create_message_attachment_list_from_message(&Vec::new()), Vec::new());
}

#[test]
fn attachment_contents_are_handed_out_by_position() {
    let attachments = vec![
        EmailAttachment { name: Some(String::from("report.pdf")), contents: vec![1, 2, 3] },
        EmailAttachment { name: None, contents: vec![4] },
    ];
    let first = create_message_attachment_content_model_from_message(0, &attachments).expect("present");
    assert_eq!(first.name, "report.pdf");
    assert_eq!(first.content, vec![1, 2, 3]);
    let second = create_message_attachment_content_model_from_message(1, &attachments).expect("present");
    assert_eq!(second.name, "Attachmennt");
    assert_eq!(second.content, vec![4]);
    assert_eq!(create_message_attachment_content_model_from_message(2, &attachments), None);
}

#[test]
fn parsed_attachment_carries_name_and_contents() {
    let raw = b"From: a@example.org\r\n\
Subject: With file\r\n\
MIME-Version: 1.0\r\n\
Content-Type: multipart/mixed; boundary=\"xyz\"\r\n\
\r\n\
--xyz\r\n\
Content-Type: text/plain\r\n\
\r\n\
see attachment\r\n\
--xyz\r\n\
Content-Type: application/octet-stream; name=\"data.bin\"\r\n\
Content-Disposition: attachment; filename=\"data.bin\"\r\n\
Content-Transfer-Encoding: base64\r\n\
\r\n\
AQID\r\n\
--xyz--\r\n";
    let attachments = parse_attachments(raw).expect("it parses");
    assert_eq!(attachments.len(), 1);
    assert_eq!(attachments[0].name.as_deref(), Some("data.bin"));
    assert_eq!(attachments[0].contents, vec![1, 2, 3]);
    let email = parse_email(raw).expect("it parses");
    assert_eq!(email.attachment_count, attachments.len());
    assert_eq!(email.text_bodies, vec![Some(String::from("see attachment"))]);
    assert!(create_message_model_from_message(1, &email).has_attachments);
}
