use centaureissi::codec::encode;
use centaureissi::config::CentaureissiConfig;
use centaureissi::http::errors::CentaureissiError;
use centaureissi::http::middlewares::{rejection, AuthFailure};
use centaureissi::http::models::auth::Claims;
use centaureissi::http::routes::auth::{issue_api_claims, issue_claims};
use centaureissi::http::routes::messages::{
    read_message_html, read_message_info, read_message_raw, read_message_text,
};
use centaureissi::http::routes::stats::stats;
use centaureissi::http::routes::users::{registration_failure, registration_open};

const MESSAGE: &[u8] = b"From: Alice <alice@example.org>\r\nTo: bob@example.org\r\n\
Subject: Quarterly figures\r\nDate: Thu, 01 Jan 1970 00:00:10 +0000\r\n\
Content-Type: text/plain\r\n\r\nThe figures are attached.";

fn config(data_dir: &str) -> CentaureissiConfig {
    CentaureissiConfig {
        data_dir: String::from(data_dir),
        auth_secret: String::from("SECRET-REDACTED"),
        disable_registration: false,
        verbose: false,
    }
}

#[test]
fn store_paths_lie_below_the_data_directory() {
    let config = config("/var/lib/archive");
    assert_eq!(config.get_database_url(), "/var/lib/archive/centaureissi.db");
    assert_eq!(config.get_search_index_path(), "/var/lib/archive/search");
    assert_eq!(config.get_blob_db_path(), "/var/lib/archive/blobs.db");
}

#[test]
fn store_paths_of_an_empty_data_directory() {
    let config = config("");
    assert_eq!(config.get_database_url(), "/centaureissi.db");
    assert_eq!(config.get_search_index_path(), "/search");
    assert_eq!(config.get_blob_db_path(), "/blobs.db");
}

#[test]
fn each_error_answers_with_its_status_and_message() {
    let cases = vec![
        (CentaureissiError::Argon2Error(String::from("bad hash")), 400, "bad hash"),
        (CentaureissiError::IncorrectPasswordError(), 401, "Incorrect username or password"),
        (CentaureissiError::UserExistsError(), 400, "User already exists"),
        (CentaureissiError::UserNotFoundError(), 400, "User not found"),
        (CentaureissiError::InternalServerError(String::from("boom")), 500, "Something happened: boom"),
        (CentaureissiError::AuthError(String::from("Unable to parse token"), 401), 401, "Unable to parse token"),
        (CentaureissiError::AuthError(String::from("no header"), 403), 403, "no header"),
        (CentaureissiError::UnimplementedError(), 500, "API unimplemented!"),
        (CentaureissiError::InvalidDataError(String::from("cut off")), 400, "Invalid email data: cut off"),
        (
            CentaureissiError::InvalidEmailContentsError(String::from("no message")),
            400,
            "Invalid email contents: no message",
        ),
        (CentaureissiError::RelationalDatabaseError(), 500, "Relational database error"),
        (CentaureissiError::BlobDatabaseError(), 500, "Blob database error"),
        (CentaureissiError::RegistrationDisabled(), 400, "Registration is disabled"),
        (CentaureissiError::MessageNotFound(), 404, "Message not found"),
        (CentaureissiError::MessageError(), 400, "Message is unreadable"),
    ];
    for (error, status, message) in cases {
        assert_eq!(error.status_code(), status);
        assert_eq!(error.response_message(), message);
    }
}

#[test]
fn store_failures_become_internal_errors_that_name_the_store() {
    assert_eq!(
        CentaureissiError::blob_storage("page not found"),
        CentaureissiError::InternalServerError(String::from("Blob storage error: page not found"))
    );
    assert_eq!(
        CentaureissiError::search("index locked"),
        CentaureissiError::InternalServerError(String::from("Search error: index locked"))
    );
    assert_eq!(
        CentaureissiError::search("index locked").response_message(),
        "Something happened: Search error: index locked"
    );
}

#[test]
fn info_of_a_stored_message() {
    let stored = encode(MESSAGE).expect("the compressor works");
    let info = read_message_info(1, String::from("cafe"), Some(stored)).expect("it reads");
    assert_eq!(info.hash, "cafe");
    assert_eq!(info.date, "1970-01-01T00:00:10+00:00");
    assert_eq!(info.from, "Alice <alice@example.org>");
    assert_eq!(info.to, "bob@example.org");
    assert_eq!(info.cc, "");
    assert_eq!(info.bcc, "");
    assert_eq!(info.subject, "Quarterly figures");
    assert!(info.is_text_mail);
    assert!(!info.has_attachments);
}

#[test]
fn info_of_a_legacy_blob_equals_info_of_the_compressed_one() {
    let compressed = encode(MESSAGE).expect("the compressor works");
    assert_eq!(
        read_message_info(1, String::from("cafe"), Some(MESSAGE.to_vec())),
        read_message_info(1, String::from("cafe"), Some(compressed))
    );
}

#[test]
fn reading_a_missing_message_is_not_found() {
    assert_eq!(read_message_info(1, String::from("cafe"), None), Err(CentaureissiError::MessageNotFound()));
    assert_eq!(read_message_raw(None), Err(CentaureissiError::MessageNotFound()));
    assert_eq!(read_message_html(None), Err(CentaureissiError::MessageNotFound()));
    assert_eq!(read_message_text(None), Err(CentaureissiError::MessageNotFound()));
}

#[test]
fn reading_bytes_that_are_no_email_is_a_message_error() {
    assert_eq!(
        read_message_info(1, String::from("cafe"), Some(Vec::new())),
        Err(CentaureissiError::MessageError())
    );
    assert_eq!(read_message_html(Some(Vec::new())), Err(CentaureissiError::MessageError()));
    assert_eq!(read_message_text(Some(Vec::new())), Err(CentaureissiError::MessageError()));
}

#[test]
fn raw_text_is_the_stored_message() {
    let stored = encode(MESSAGE).expect("the compressor works");
    let raw = read_message_raw(Some(stored)).expect("it reads");
    assert_eq!(raw.content.as_bytes(), MESSAGE);
    let legacy = read_message_raw(Some(MESSAGE.to_vec())).expect("it reads");
    assert_eq!(legacy.content.as_bytes(), MESSAGE);
}

#[test]
fn raw_bytes_that_are_not_utf8_are_a_message_error() {
    assert_eq!(read_message_raw(Some(vec![0xff, 0xfe, 0x00])), Err(CentaureissiError::MessageError()));
}

#[test]
fn text_body_of_a_stored_message() {
    let text = read_message_text(Some(MESSAGE.to_vec())).expect("it reads");
    assert_eq!(text.content, "The figures are attached.");
}

#[test]
fn html_body_of_a_stored_html_message() {
    let raw = b"From: a@example.org\r\nSubject: Page\r\nMIME-Version: 1.0\r\n\
Content-Type: text/html; charset=utf-8\r\n\r\n<p>Hello</p>";
    let html = read_message_html(Some(raw.to_vec())).expect("it reads");
    assert_eq!(html.content, "<p>Hello</p>");
}

#[test]
fn stats_carry_the_figures_of_the_stores() {
    let response = stats(String::from("1.2.3"), 4096, 8192, 7, 5, 6);
    assert_eq!(response.version, "1.2.3");
    assert_eq!(response.db_size, 4096);
    assert_eq!(response.blob_db_size, 8192);
    assert_eq!(response.message_count, 7);
    assert_eq!(response.blob_count, 5);
    assert_eq!(response.search_doc_count, 6);
    assert_eq!(stats(String::new(), 0, 0, -1, 0, 0).message_count, 0);
    assert_eq!(stats(String::new(), 0, 0, i64::MAX, 0, 0).message_count, i64::MAX as u64);
}

#[test]
fn tokens_are_valid_for_a_day() {
    let claims = issue_api_claims(1_700_000_000, 42, String::from("alice")).expect("it issues");
    assert_eq!(
        claims,
        Claims {
            exp: 1_700_086_400,
            iat: 1_700_000_000,
            name: String::from("alice"),
            iss: String::from("centaureissi-api"),
            sub: 42,
            aud: String::from("centaureissi"),
        }
    );
    let signed = issue_claims(0, 1, String::from("bob"), String::from("/download/abc")).expect("it issues");
    assert_eq!(signed.aud, "/download/abc");
    assert_eq!(signed.iat, 0);
    assert_eq!(signed.exp, 86_400);
}

#[test]
fn no_token_is_issued_outside_the_representable_times() {
    assert_eq!(issue_api_claims(-1, 1, String::from("alice")), None);
    assert_eq!(issue_api_claims(i64::MAX, 1, String::from("alice")), None);
    assert_eq!(issue_api_claims(i64::MAX - 86_399, 1, String::from("alice")), None);
}

#[test]
fn each_authentication_failure_has_its_answer() {
    assert_eq!(
        rejection(AuthFailure::MissingHeader),
        CentaureissiError::AuthError(String::from("Please add the JWT token to the header"), 403)
    );
    assert_eq!(
        rejection(AuthFailure::UnreadableHeader),
        CentaureissiError::AuthError(String::from("Empty header is not allowed"), 403)
    );
    assert_eq!(
        rejection(AuthFailure::InvalidToken),
        CentaureissiError::AuthError(String::from("Unable to parse token"), 401)
    );
    assert_eq!(rejection(AuthFailure::UnknownUser), CentaureissiError::IncorrectPasswordError());
    assert_eq!(
        rejection(AuthFailure::SigningFailed),
        CentaureissiError::AuthError(String::from("Failure to decode token"), 403)
    );
}

#[test]
fn registration_follows_the_configuration() {
    let mut open = config("/data");
    assert_eq!(registration_open(&open), Ok(()));
    open.disable_registration = true;
    assert_eq!(registration_open(&open), Err(CentaureissiError::RegistrationDisabled()));
    assert_eq!(registration_failure(true), CentaureissiError::UserExistsError());
    assert_eq!(registration_failure(false), CentaureissiError::RelationalDatabaseError());
}
