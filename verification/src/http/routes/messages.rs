//! Reading one stored message: its structured view, its raw text and its
//! rendered bodies.
//!
//! Each function takes what the blob store returned for the content hash:
//! the stored payload, or `None` where the hash or its blob is missing.

use crate::archive::Archive;
use crate::codec::{content_of, decode, is_encoding_of, zstd_decoded};
use crate::dates::{chrono_rfc3339, message_date};
use crate::email::{email_of, parse_email};
use crate::hash::content_hash_of;
use crate::http::errors::CentaureissiError;
use crate::http::models::responses::{MessageContentResponse, MessageResponse};
use crate::utils::message::{
    create_message_content_model_from_message,
    create_message_model_from_message,
    message_content,
    message_model,
    MessageModelView,
};
use vstd::prelude::*;
use vstd::utf8::{decode_utf8, decode_utf8_encode_utf8, encode_utf8, valid_utf8};

verus! {

/// `String::from_utf8`. Trusted: bytes that are valid UTF-8 give the text
/// they encode, other bytes give `None`.
#[verifier::external_body]
fn text_from_utf8(bytes: Vec<u8>) -> (text: Option<String>)
    ensures
        text matches Some(t) ==> valid_utf8(bytes@) && t@ == decode_utf8(bytes@),
        text is None ==> !valid_utf8(bytes@),
{
    String::from_utf8(bytes).ok()
}

/// Whether `response` is the structured view of a message with these
/// canonical fields, under this hash and with this date text.
pub open spec fn is_info_of(
    response: MessageResponse,
    hash: Seq<char>,
    model: MessageModelView,
    date: Seq<char>,
) -> bool {
    &&& response.hash@ == hash
    &&& response.date@ == date
    &&& response.from@ == model.from
    &&& response.to@ == model.to
    &&& response.cc@ == model.cc
    &&& response.bcc@ == model.bcc
    &&& response.subject@ == model.subject
    &&& response.is_html_mail == model.is_html_mail
    &&& response.is_text_mail == model.is_text_mail
    &&& response.has_attachments == model.has_attachments
}

/// The structured view of a stored message.
///
/// A missing blob gives `MessageNotFound`. Stored bytes that do not parse,
/// or whose date cannot be written as a calendar date, give `MessageError`.
pub fn read_message_info(user_id: i32, message_hash: String, stored: Option<Vec<u8>>) -> (result:
    Result<MessageResponse, CentaureissiError>)
    ensures
        match stored {
            None => result matches Err(CentaureissiError::MessageNotFound()),
            Some(payload) => match email_of(content_of(payload@)) {
                None => result matches Err(CentaureissiError::MessageError()),
                Some(email) => match chrono_rfc3339(message_model(user_id, email).timestamp_secs) {
                    None => result matches Err(CentaureissiError::MessageError()),
                    Some(date) => result matches Ok(response) && is_info_of(
                        response,
                        message_hash@,
                        message_model(user_id, email),
                        date,
                    ),
                },
            },
        },
{
    let payload = match stored {
        Some(payload) => payload,
        None => {
            return Err(CentaureissiError::MessageNotFound());
        },
    };
    let contents = decode(payload).into_bytes();
    let email = match parse_email(contents.as_slice()) {
        Some(email) => email,
        None => {
            return Err(CentaureissiError::MessageError());
        },
    };
    let message_doc = create_message_model_from_message(user_id, &email);
    let date = match message_date(message_doc.timestamp_secs) {
        Some(date) => date,
        None => {
            return Err(CentaureissiError::MessageError());
        },
    };
    Ok(
        MessageResponse {
            hash: message_hash,
            date,
            from: message_doc.from,
            to: message_doc.to,
            cc: message_doc.cc,
            bcc: message_doc.bcc,
            is_html_mail: message_doc.is_html_mail,
            is_text_mail: message_doc.is_text_mail,
            has_attachments: message_doc.has_attachments,
            subject: message_doc.subject,
        },
    )
}

/// The raw text that is answered for a stored payload: the text that its
/// message bytes encode, or nothing where they are not UTF-8.
pub open spec fn raw_text_of(payload: Seq<u8>) -> Option<Seq<char>> {
    if valid_utf8(content_of(payload)) {
        Some(decode_utf8(content_of(payload)))
    } else {
        None
    }
}

/// The raw text of a stored message: its bytes, read as UTF-8.
///
/// A missing blob gives `MessageNotFound`, bytes that are not UTF-8 give
/// `MessageError`.
pub fn read_message_raw(stored: Option<Vec<u8>>) -> (result: Result<
    MessageContentResponse,
    CentaureissiError,
>)
    ensures
        match stored {
            None => result matches Err(CentaureissiError::MessageNotFound()),
            Some(payload) => match raw_text_of(payload@) {
                Some(text) => result matches Ok(response) && response.content@ == text,
                None => result matches Err(CentaureissiError::MessageError()),
            },
        },
{
    match stored {
        None => Err(CentaureissiError::MessageNotFound()),
        Some(payload) => {
            let contents = decode(payload).into_bytes();
            match text_from_utf8(contents) {
                Some(content) => Ok(MessageContentResponse { content }),
                None => Err(CentaureissiError::MessageError()),
            }
        },
    }
}

/// A payload that stands for UTF-8 message bytes, compressed or not, is
/// answered with text that is those bytes again, byte for byte. The
/// compressed frame itself is never the answer.
pub proof fn stored_text_is_the_message(payload: Seq<u8>, data: Seq<u8>)
    requires
        is_encoding_of(payload, data) || (payload == data && zstd_decoded(data) is None),
        valid_utf8(data),
    ensures
        raw_text_of(payload) matches Some(text) && encode_utf8(text) == data,
{
    decode_utf8_encode_utf8(data);
}

/// After the ingestion of a new message whose bytes are UTF-8, the raw text
/// that is answered for its hash is the message, byte for byte, and a
/// second ingestion of the same bytes changes nothing of that.
pub proof fn ingested_message_reads_back_as_text(
    archive: Archive,
    user_id: i32,
    raw: Seq<u8>,
    payload: Seq<u8>,
    fresh_id: int,
    record_id: i32,
    again: (i32, Seq<u8>, int, i32),
)
    requires
        !archive.blobs.contains(content_hash_of(raw)),
        is_encoding_of(payload, raw),
        valid_utf8(raw),
    ensures
        ({
            let hash = content_hash_of(raw);
            let once = archive.ingested(user_id, raw, payload, fresh_id, record_id);
            let twice = once.ingested(again.0, raw, again.1, again.2, again.3);
            &&& once.blobs.contains(hash)
            &&& raw_text_of(once.blobs.blobs[once.blobs.index[hash]]) matches Some(text)
                && encode_utf8(text) == raw
            &&& twice == once
        }),
{
    stored_text_is_the_message(payload, raw);
}

/// One rendered body of a stored message: the HTML parts where `html` is
/// set, else the text parts.
///
/// A missing blob gives `MessageNotFound`, stored bytes that do not parse
/// give `MessageError`.
pub fn read_message_body(html: bool, stored: Option<Vec<u8>>) -> (result: Result<
    MessageContentResponse,
    CentaureissiError,
>)
    ensures
        match stored {
            None => result matches Err(CentaureissiError::MessageNotFound()),
            Some(payload) => match email_of(content_of(payload@)) {
                None => result matches Err(CentaureissiError::MessageError()),
                Some(email) => result matches Ok(response) && response.content@
                    == message_content(html, email),
            },
        },
{
    match stored {
        None => Err(CentaureissiError::MessageNotFound()),
        Some(payload) => {
            let contents = decode(payload).into_bytes();
            match parse_email(contents.as_slice()) {
                Some(email) => {
                    let message_doc = create_message_content_model_from_message(html, &email);
                    Ok(MessageContentResponse { content: message_doc.content })
                },
                None => Err(CentaureissiError::MessageError()),
            }
        },
    }
}

/// The HTML body of a stored message.
pub fn read_message_html(stored: Option<Vec<u8>>) -> (result: Result<
    MessageContentResponse,
    CentaureissiError,
>)
    ensures
        match stored {
            None => result matches Err(CentaureissiError::MessageNotFound()),
            Some(payload) => match email_of(content_of(payload@)) {
                None => result matches Err(CentaureissiError::MessageError()),
                Some(email) => result matches Ok(response) && response.content@
                    == message_content(true, email),
            },
        },
{
    read_message_body(true, stored)
}

/// The text body of a stored message.
pub fn read_message_text(stored: Option<Vec<u8>>) -> (result: Result<
    MessageContentResponse,
    CentaureissiError,
>)
    ensures
        match stored {
            None => result matches Err(CentaureissiError::MessageNotFound()),
            Some(payload) => match email_of(content_of(payload@)) {
                None => result matches Err(CentaureissiError::MessageError()),
                Some(email) => result matches Ok(response) && response.content@
                    == message_content(false, email),
            },
        },
{
    read_message_body(false, stored)
}

} // verus!
