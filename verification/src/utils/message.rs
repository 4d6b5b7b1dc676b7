//! Projection of a parsed email into the canonical field set.
//!
//! The same projection runs when a message is ingested and whenever the
//! search index is rebuilt, so each result is stated as a function of the
//! parsed message and nothing else.

use crate::email::{
    email_of,
    parse_email,
    EmailAttachment,
    EmailAttachmentView,
    Mailbox,
    MailboxView,
    ParsedEmail,
    ParsedEmailView,
};
use crate::text::{join, join_strings};
use vstd::prelude::*;
use vstd::string::StringExecFns;

verus! {

/// The canonical fields of one message, as the search index and the read
/// paths use them.
#[derive(Debug, Clone, PartialEq, Eq)]
pub struct MessageModel {
    pub user_id: i64,
    pub from: String,
    pub to: String,
    pub cc: String,
    pub bcc: String,
    pub subject: String,
    pub timestamp_secs: i64,
    pub content: String,
    pub is_html_mail: bool,
    pub is_text_mail: bool,
    pub has_attachments: bool,
}

pub struct MessageModelView {
    pub user_id: i64,
    pub from: Seq<char>,
    pub to: Seq<char>,
    pub cc: Seq<char>,
    pub bcc: Seq<char>,
    pub subject: Seq<char>,
    pub timestamp_secs: i64,
    pub content: Seq<char>,
    pub is_html_mail: bool,
    pub is_text_mail: bool,
    pub has_attachments: bool,
}

impl View for MessageModel {
    type V = MessageModelView;

    open spec fn view(&self) -> MessageModelView {
        MessageModelView {
            user_id: self.user_id,
            from: self.from@,
            to: self.to@,
            cc: self.cc@,
            bcc: self.bcc@,
            subject: self.subject@,
            timestamp_secs: self.timestamp_secs,
            content: self.content@,
            is_html_mail: self.is_html_mail,
            is_text_mail: self.is_text_mail,
            has_attachments: self.has_attachments,
        }
    }
}

/// The body of a message, rendered for reading.
#[derive(Debug, Clone, PartialEq, Eq)]
pub struct MessageContentModel {
    pub content: String,
}

/// One attachment with its contents.
#[derive(Debug, Clone, PartialEq, Eq)]
pub struct MessageAttachModel {
    pub name: String,
    pub content: Vec<u8>,
}

/// One line of a message's attachment list.
#[derive(Debug, Clone, PartialEq, Eq)]
pub struct MessageAttachment {
    pub id: usize,
    pub name: String,
}

pub struct MessageAttachmentView {
    pub id: usize,
    pub name: Seq<char>,
}

impl DeepView for MessageAttachment {
    type V = MessageAttachmentView;

    open spec fn deep_view(&self) -> MessageAttachmentView {
        MessageAttachmentView { id: self.id, name: self.name@ }
    }
}

impl View for MessageAttachment {
    type V = MessageAttachmentView;

    open spec fn view(&self) -> MessageAttachmentView {
        self.deep_view()
    }
}

/// The text, or the empty string where there is none.
pub open spec fn text_or_empty(text: Option<Seq<char>>) -> Seq<char> {
    match text {
        Some(t) => t,
        None => Seq::empty(),
    }
}

/// One address entry as text: `name <address>` where the entry has a display
/// name, the bare address where it has none. A missing address renders as
/// the empty string.
pub open spec fn mailbox_text(entry: MailboxView) -> Seq<char> {
    match entry.name {
        Some(name) => name + " <"@ + text_or_empty(entry.address) + ">"@,
        None => text_or_empty(entry.address),
    }
}

/// An address header as one line: its entries joined by `", "`; the empty
/// string where the header is absent.
pub open spec fn address_line(header: Option<Seq<MailboxView>>) -> Seq<char> {
    match header {
        Some(entries) => join(entries.map_values(|e: MailboxView| mailbox_text(e)), ", "@),
        None => Seq::empty(),
    }
}

/// Body parts as one text: the parts joined by a blank line, a part without
/// text counting as empty.
pub open spec fn body_text(parts: Seq<Option<Seq<char>>>) -> Seq<char> {
    join(parts.map_values(|p: Option<Seq<char>>| text_or_empty(p)), "\n\n"@)
}

/// The canonical fields of `email`, stamped with its owner.
pub open spec fn message_model(user_id: i32, email: ParsedEmailView) -> MessageModelView {
    MessageModelView {
        user_id: user_id as i64,
        from: address_line(email.from),
        to: address_line(email.to),
        cc: address_line(email.cc),
        bcc: address_line(email.bcc),
        subject: text_or_empty(email.subject),
        timestamp_secs: match email.date {
            Some(secs) => secs,
            None => 0,
        },
        content: body_text(email.text_bodies),
        is_html_mail: email.html_bodies.len() > 0,
        is_text_mail: email.text_bodies.len() > 0,
        has_attachments: email.attachment_count > 0,
    }
}

/// The body that a reader asked for: the HTML parts or the text parts.
pub open spec fn message_content(html: bool, email: ParsedEmailView) -> Seq<char> {
    if html {
        body_text(email.html_bodies)
    } else {
        body_text(email.text_bodies)
    }
}

/// Name under which an attachment without a file name is listed.
pub open spec fn listed_name(name: Option<Seq<char>>) -> Seq<char> {
    match name {
        Some(n) => n,
        None => "Attachment"@,
    }
}

/// Name under which an attachment without a file name is handed out.
pub open spec fn download_name(name: Option<Seq<char>>) -> Seq<char> {
    match name {
        Some(n) => n,
        None => "Attachmennt"@,
    }
}

/// The attachment list: one line per attachment, numbered from zero in
/// message order.
pub open spec fn attachment_list(attachments: Seq<EmailAttachmentView>) -> Seq<
    MessageAttachmentView,
> {
    Seq::new(
        attachments.len(),
        |i: int| MessageAttachmentView { id: i as usize, name: listed_name(attachments[i].name) },
    )
}

fn owned_or_empty(text: &Option<String>) -> (out: String)
    ensures
        out@ == text_or_empty(text.deep_view()),
{
    match text {
        Some(t) => t.clone(),
        None => String::new(),
    }
}

fn format_mailbox(entry: &Mailbox) -> (out: String)
    ensures
        out@ == mailbox_text(entry@),
{
    let address = owned_or_empty(&entry.address);
    match &entry.name {
        Some(name) => {
            let mut out = name.clone();
            out.append(" <");
            out.append(address.as_str());
            out.append(">");
            out
        },
        None => address,
    }
}

fn format_address_line(header: &Option<Vec<Mailbox>>) -> (out: String)
    ensures
        out@ == address_line(header.deep_view()),
{
    match header {
        None => String::new(),
        Some(entries) => {
            let ghost texts = entries.deep_view().map_values(|e: MailboxView| mailbox_text(e));
            let mut rendered: Vec<String> = Vec::new();
            let mut i: usize = 0;
            while i < entries.len()
                invariant
                    i <= entries.len(),
                    texts == entries.deep_view().map_values(|e: MailboxView| mailbox_text(e)),
                    rendered.len() == i,
                    rendered.deep_view() == texts.take(i as int),
                decreases entries.len() - i,
            {
                let ghost before = rendered@;
                let text = format_mailbox(&entries[i]);
                rendered.push(text);
                proof {
                    assert(entries.deep_view()[i as int] == entries[i as int]@);
                    assert forall|j: int| 0 <= j < i + 1 implies #[trigger] rendered.deep_view()[j]
                        == texts[j] by {
                        if j < i {
                            assert(rendered@[j] == before[j]);
                            assert(texts.take(i as int)[j] == texts[j]);
                        }
                    }
                    assert(rendered.deep_view() =~= texts.take(i as int + 1));
                }
                i += 1;
            }
            proof {
                assert(texts.take(entries.len() as int) == texts);
            }
            join_strings(&rendered, ", ")
        },
    }
}

fn format_body(parts: &Vec<Option<String>>) -> (out: String)
    ensures
        out@ == body_text(parts.deep_view()),
{
    let ghost texts = parts.deep_view().map_values(|p: Option<Seq<char>>| text_or_empty(p));
    let mut rendered: Vec<String> = Vec::new();
    let mut i: usize = 0;
    while i < parts.len()
        invariant
            i <= parts.len(),
            texts == parts.deep_view().map_values(|p: Option<Seq<char>>| text_or_empty(p)),
            rendered.len() == i,
            rendered.deep_view() == texts.take(i as int),
        decreases parts.len() - i,
    {
        let ghost before = rendered@;
        let text = owned_or_empty(&parts[i]);
        rendered.push(text);
        proof {
            assert(parts.deep_view()[i as int] == parts[i as int].deep_view());
            assert forall|j: int| 0 <= j < i + 1 implies #[trigger] rendered.deep_view()[j]
                == texts[j] by {
                if j < i {
                    assert(rendered@[j] == before[j]);
                    assert(texts.take(i as int)[j] == texts[j]);
                }
            }
            assert(rendered.deep_view() =~= texts.take(i as int + 1));
        }
        i += 1;
    }
    proof {
        assert(texts.take(parts.len() as int) == texts);
    }
    join_strings(&rendered, "\n\n")
}

/// Projects a parsed message into its canonical fields.
///
/// Address headers become one line each, entries joined by `", "`. An absent
/// header or subject gives the empty string, an absent date the timestamp 0.
/// The content is the text body parts joined by a blank line.
pub fn create_message_model_from_message(message_user_id: i32, msg: &ParsedEmail) -> (model:
    MessageModel)
    ensures
        model@ == message_model(message_user_id, msg@),
{
    let timestamp_secs = match msg.date {
        Some(secs) => secs,
        None => 0,
    };
    MessageModel {
        user_id: message_user_id as i64,
        from: format_address_line(&msg.from),
        to: format_address_line(&msg.to),
        cc: format_address_line(&msg.cc),
        bcc: format_address_line(&msg.bcc),
        subject: owned_or_empty(&msg.subject),
        timestamp_secs,
        content: format_body(&msg.text_bodies),
        is_html_mail: msg.html_bodies.len() > 0,
        is_text_mail: msg.text_bodies.len() > 0,
        has_attachments: msg.attachment_count > 0,
    }
}

/// The canonical fields of the message that `raw` holds, or nothing where
/// `raw` holds no message.
pub open spec fn projection_of(user_id: i32, raw: Seq<u8>) -> Option<MessageModelView> {
    match email_of(raw) {
        Some(email) => Some(message_model(user_id, email)),
        None => None,
    }
}

/// Parses raw message bytes and projects the message into its canonical
/// fields. `None` where the bytes hold no message.
pub fn project_message(user_id: i32, raw: &[u8]) -> (model: Option<MessageModel>)
    ensures
        model matches Some(m) ==> projection_of(user_id, raw@) == Some(m@),
        model is None ==> projection_of(user_id, raw@) is None,
{
    match parse_email(raw) {
        Some(email) => Some(create_message_model_from_message(user_id, &email)),
        None => None,
    }
}

/// Projection determinism. Whenever and wherever the same bytes are parsed
/// and projected for the same owner, the fields that come out are the same,
/// character for character.
pub proof fn projection_is_deterministic(
    user_id: i32,
    raw: Seq<u8>,
    first: Option<MessageModel>,
    second: Option<MessageModel>,
)
    requires
        first matches Some(m) ==> projection_of(user_id, raw) == Some(m@),
        first is None ==> projection_of(user_id, raw) is None,
        second matches Some(m) ==> projection_of(user_id, raw) == Some(m@),
        second is None ==> projection_of(user_id, raw) is None,
    ensures
        first is Some == second is Some,
        first matches Some(a) ==> second matches Some(b) && a@ == b@,
{
}

/// Renders the body of a parsed message: its HTML parts where `html` is set,
/// else its text parts, joined by a blank line.
pub fn create_message_content_model_from_message(html: bool, msg: &ParsedEmail) -> (model:
    MessageContentModel)
    ensures
        model.content@ == message_content(html, msg@),
{
    if html {
        MessageContentModel { content: format_body(&msg.html_bodies) }
    } else {
        MessageContentModel { content: format_body(&msg.text_bodies) }
    }
}

/// Lists the attachments of a message, numbered from zero. One without a
/// file name is listed as `Attachment`.
pub fn create_message_attachment_list_from_message(attachments: &Vec<EmailAttachment>) -> (list:
    Vec<MessageAttachment>)
    ensures
        list.deep_view() == attachment_list(attachments.deep_view()),
{
    let ghost all = attachment_list(attachments.deep_view());
    let mut list: Vec<MessageAttachment> = Vec::new();
    let mut i: usize = 0;
    while i < attachments.len()
        invariant
            i <= attachments.len(),
            all == attachment_list(attachments.deep_view()),
            list.len() == i,
            list.deep_view() == all.take(i as int),
        decreases attachments.len() - i,
    {
        let name = match &attachments[i].name {
            Some(n) => n.clone(),
            None => String::from_str("Attachment"),
        };
        let ghost before = list@;
        list.push(MessageAttachment { id: i, name });
        proof {
            assert(attachments.deep_view()[i as int] == attachments[i as int]@);
            assert forall|j: int| 0 <= j < i + 1 implies #[trigger] list.deep_view()[j]
                == all[j] by {
                if j < i {
                    assert(list@[j] == before[j]);
                    assert(all.take(i as int)[j] == all[j]);
                }
            }
            assert(list.deep_view() =~= all.take(i as int + 1));
        }
        i += 1;
    }
    proof {
        assert(all.take(attachments.len() as int) == all);
    }
    list
}

/// Hands out the attachment at position `idx`, or `None` where the message
/// has no such attachment. One without a file name is named `Attachmennt`.
pub fn create_message_attachment_content_model_from_message(
    idx: usize,
    attachments: &Vec<EmailAttachment>,
) -> (model: Option<MessageAttachModel>)
    ensures
        idx >= attachments.len() ==> model is None,
        idx < attachments.len() ==> model is Some && model->0.name@ == download_name(
            attachments[idx as int]@.name,
        ) && model->0.content@ == attachments[idx as int].contents@,
{
    if idx < attachments.len() {
        let part = &attachments[idx];
        let name = match &part.name {
            Some(n) => n.clone(),
            None => String::from_str("Attachmennt"),
        };
        let content = part.contents.clone();
        Some(MessageAttachModel { name, content })
    } else {
        None
    }
}

} // verus!
