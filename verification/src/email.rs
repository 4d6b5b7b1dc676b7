//! Parsing of raw message bytes into the plain values that the projections
//! read.
//!
//! The parser itself is `mail_parser`. What it finds in a message is carried
//! over into [`ParsedEmail`]: owned strings and numbers with nothing of the
//! parser left in them. Everything downstream works on that value. No parsed
//! message of the parser's own type leaves the functions that call it, so
//! whatever is said of its findings is said of the bytes alone.

use mail_parser::MimeHeaders;
use vstd::prelude::*;

verus! {

/// One entry of an address header.
#[derive(Debug, Clone, PartialEq, Eq)]
pub struct Mailbox {
    /// Display name, where the entry has one.
    pub name: Option<String>,
    /// The address itself, where the entry has one.
    pub address: Option<String>,
}

pub struct MailboxView {
    pub name: Option<Seq<char>>,
    pub address: Option<Seq<char>>,
}

impl DeepView for Mailbox {
    type V = MailboxView;

    open spec fn deep_view(&self) -> MailboxView {
        MailboxView { name: self.name.deep_view(), address: self.address.deep_view() }
    }
}

impl View for Mailbox {
    type V = MailboxView;

    open spec fn view(&self) -> MailboxView {
        self.deep_view()
    }
}

/// One attachment of a message.
#[derive(Debug, Clone, PartialEq, Eq)]
pub struct EmailAttachment {
    /// File name given by the part's headers, if any.
    pub name: Option<String>,
    /// Decoded contents of the part.
    pub contents: Vec<u8>,
}

pub struct EmailAttachmentView {
    pub name: Option<Seq<char>>,
    pub contents: Seq<u8>,
}

impl DeepView for EmailAttachment {
    type V = EmailAttachmentView;

    open spec fn deep_view(&self) -> EmailAttachmentView {
        EmailAttachmentView { name: self.name.deep_view(), contents: self.contents@ }
    }
}

impl View for EmailAttachment {
    type V = EmailAttachmentView;

    open spec fn view(&self) -> EmailAttachmentView {
        self.deep_view()
    }
}

/// What the projections read of one parsed message.
#[derive(Debug, Clone, PartialEq, Eq)]
pub struct ParsedEmail {
    /// Entries of the From header; `None` where the header is absent.
    pub from: Option<Vec<Mailbox>>,
    /// Entries of the To header.
    pub to: Option<Vec<Mailbox>>,
    /// Entries of the Cc header.
    pub cc: Option<Vec<Mailbox>>,
    /// Entries of the Bcc header.
    pub bcc: Option<Vec<Mailbox>>,
    /// The Subject header.
    pub subject: Option<String>,
    /// The Date header as seconds since the Unix epoch.
    pub date: Option<i64>,
    /// Text of each text body part, in message order; `None` for a part
    /// that has no text.
    pub text_bodies: Vec<Option<String>>,
    /// Text of each HTML body part, in message order.
    pub html_bodies: Vec<Option<String>>,
    /// Number of attachments.
    pub attachment_count: usize,
}

pub struct ParsedEmailView {
    pub from: Option<Seq<MailboxView>>,
    pub to: Option<Seq<MailboxView>>,
    pub cc: Option<Seq<MailboxView>>,
    pub bcc: Option<Seq<MailboxView>>,
    pub subject: Option<Seq<char>>,
    pub date: Option<i64>,
    pub text_bodies: Seq<Option<Seq<char>>>,
    pub html_bodies: Seq<Option<Seq<char>>>,
    pub attachment_count: usize,
}

impl DeepView for ParsedEmail {
    type V = ParsedEmailView;

    open spec fn deep_view(&self) -> ParsedEmailView {
        ParsedEmailView {
            from: self.from.deep_view(),
            to: self.to.deep_view(),
            cc: self.cc.deep_view(),
            bcc: self.bcc.deep_view(),
            subject: self.subject.deep_view(),
            date: self.date,
            text_bodies: self.text_bodies.deep_view(),
            html_bodies: self.html_bodies.deep_view(),
            attachment_count: self.attachment_count,
        }
    }
}

impl View for ParsedEmail {
    type V = ParsedEmailView;

    open spec fn view(&self) -> ParsedEmailView {
        self.deep_view()
    }
}

/// Whether the parser finds a message in `raw`.
pub uninterp spec fn email_parses(raw: Seq<u8>) -> bool;

/// The entries of the From header that the parser finds in `raw`.
pub uninterp spec fn email_from(raw: Seq<u8>) -> Option<Seq<MailboxView>>;

/// The entries of the To header that the parser finds in `raw`.
pub uninterp spec fn email_to(raw: Seq<u8>) -> Option<Seq<MailboxView>>;

/// The entries of the Cc header that the parser finds in `raw`.
pub uninterp spec fn email_cc(raw: Seq<u8>) -> Option<Seq<MailboxView>>;

/// The entries of the Bcc header that the parser finds in `raw`.
pub uninterp spec fn email_bcc(raw: Seq<u8>) -> Option<Seq<MailboxView>>;

/// The Subject header that the parser finds in `raw`.
pub uninterp spec fn email_subject(raw: Seq<u8>) -> Option<Seq<char>>;

/// The Date header that the parser finds in `raw`, in seconds since the
/// Unix epoch.
pub uninterp spec fn email_date(raw: Seq<u8>) -> Option<i64>;

/// The text of each text body part that the parser finds in `raw`.
pub uninterp spec fn email_text_bodies(raw: Seq<u8>) -> Seq<Option<Seq<char>>>;

/// The text of each HTML body part that the parser finds in `raw`.
pub uninterp spec fn email_html_bodies(raw: Seq<u8>) -> Seq<Option<Seq<char>>>;

/// The number of attachments that the parser finds in `raw`.
pub uninterp spec fn email_attachment_count(raw: Seq<u8>) -> usize;

/// The attachments that the parser finds in `raw`, in message order.
pub uninterp spec fn email_attachments(raw: Seq<u8>) -> Seq<EmailAttachmentView>;

/// What parsing `raw` yields: nothing where the parser finds no message,
/// else the headers and bodies it finds.
pub open spec fn email_of(raw: Seq<u8>) -> Option<ParsedEmailView> {
    if email_parses(raw) {
        Some(
            ParsedEmailView {
                from: email_from(raw),
                to: email_to(raw),
                cc: email_cc(raw),
                bcc: email_bcc(raw),
                subject: email_subject(raw),
                date: email_date(raw),
                text_bodies: email_text_bodies(raw),
                html_bodies: email_html_bodies(raw),
                attachment_count: email_attachment_count(raw),
            },
        )
    } else {
        None
    }
}

/// The attachments that parsing `raw` yields: nothing where the parser
/// finds no message.
pub open spec fn attachments_of(raw: Seq<u8>) -> Option<Seq<EmailAttachmentView>> {
    if email_parses(raw) {
        Some(email_attachments(raw))
    } else {
        None
    }
}

/// `MessageParser::parse` of the default parser, then `Message::from`,
/// `to`, `cc` and `bcc` of the message it returns, each entry copied with its
/// `Addr::name` and `Addr::address`, in the order of `Address::iter`.
/// Trusted: whether a message comes back, and each list, is a function of
/// the bytes alone. The parser never panics.
#[verifier::external_body]
fn addresses_in(raw: &[u8]) -> (out: Option<
    (Option<Vec<Mailbox>>, Option<Vec<Mailbox>>, Option<Vec<Mailbox>>, Option<Vec<Mailbox>>),
>)
    ensures
        out is Some == email_parses(raw@),
        out matches Some(lists) ==> lists.0.deep_view() == email_from(raw@)
            && lists.1.deep_view() == email_to(raw@) && lists.2.deep_view() == email_cc(raw@)
            && lists.3.deep_view() == email_bcc(raw@),
{
    let msg = mail_parser::MessageParser::default().parse(raw)?;
    let list = |header: Option<&mail_parser::Address<'_>>| -> Option<Vec<Mailbox>> {
        header.map(|l| l.iter().map(|a| Mailbox {
            name: a.name().map(String::from),
            address: a.address().map(String::from),
        }).collect())
    };
    Some((list(msg.from()), list(msg.to()), list(msg.cc()), list(msg.bcc())))
}

/// `MessageParser::parse` of the default parser, then of the message it
/// returns `Message::subject`, `Message::date` taken through
/// `DateTime::to_timestamp`, and `Message::text_bodies` and `html_bodies`,
/// each part taken through `MessagePart::text_contents`, and
/// `Message::attachment_count`. Trusted: whether a message comes back, and
/// each value, is a function of the bytes alone.
#[verifier::external_body]
fn contents_in(raw: &[u8]) -> (out: Option<
    (Option<String>, Option<i64>, Vec<Option<String>>, Vec<Option<String>>, usize),
>)
    ensures
        out is Some == email_parses(raw@),
        out matches Some(found) ==> found.0.deep_view() == email_subject(raw@) && found.1
            == email_date(raw@) && found.2.deep_view() == email_text_bodies(raw@)
            && found.3.deep_view() == email_html_bodies(raw@) && found.4
            == email_attachment_count(raw@),
{
    let msg = mail_parser::MessageParser::default().parse(raw)?;
    let text = |part: &mail_parser::MessagePart<'_>| part.text_contents().map(String::from);
    Some((
        msg.subject().map(String::from),
        msg.date().map(|d| d.to_timestamp()),
        msg.text_bodies().map(text).collect(),
        msg.html_bodies().map(text).collect(),
        msg.attachment_count(),
    ))
}

/// `MessageParser::parse` of the default parser, then `Message::attachments`
/// of the message it returns, each part copied with its
/// `MimeHeaders::attachment_name` and `MessagePart::contents`. Trusted:
/// whether a message comes back, and the list, is a function of the bytes
/// alone, and the list is as long as `Message::attachment_count` says: both
/// walk the same list of parts.
#[verifier::external_body]
fn attachments_in(raw: &[u8]) -> (out: Option<Vec<EmailAttachment>>)
    ensures
        out is Some == email_parses(raw@),
        out matches Some(list) ==> list.deep_view() == email_attachments(raw@) && list.len()
            == email_attachment_count(raw@),
{
    let msg = mail_parser::MessageParser::default().parse(raw)?;
    Some(msg.attachments().map(|part| EmailAttachment {
        name: part.attachment_name().map(String::from),
        contents: part.contents().to_vec(),
    }).collect())
}

/// Parses raw message bytes. `None` where the bytes hold no message.
pub fn parse_email(raw: &[u8]) -> (out: Option<ParsedEmail>)
    ensures
        out.deep_view() == email_of(raw@),
{
    let (from, to, cc, bcc) = match addresses_in(raw) {
        Some(lists) => lists,
        None => {
            return None;
        },
    };
    let (subject, date, text_bodies, html_bodies, attachment_count) = match contents_in(raw) {
        Some(found) => found,
        None => {
            return None;
        },
    };
    Some(
        ParsedEmail {
            from,
            to,
            cc,
            bcc,
            subject,
            date,
            text_bodies,
            html_bodies,
            attachment_count,
        },
    )
}

/// Parses raw message bytes and hands out the attachments. `None` where the
/// bytes hold no message.
pub fn parse_attachments(raw: &[u8]) -> (out: Option<Vec<EmailAttachment>>)
    ensures
        out.deep_view() == attachments_of(raw@),
        out matches Some(list) ==> list.len() == email_attachment_count(raw@),
{
    attachments_in(raw)
}

} // verus!
