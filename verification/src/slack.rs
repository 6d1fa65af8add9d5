//! The chat responses the formatter produces, as plain data. The
//! transport serializes them outside the library.

use vstd::prelude::*;

verus! {

/// A channel as the chat service names it.
pub struct Channel {
    pub id: String,
    pub name: String,
}

/// A user as the chat service names it.
pub struct User {
    pub id: String,
    pub name: String,
}

/// A team as the chat service names it.
pub struct Team {
    pub id: String,
    pub domain: String,
}

/// Where a response is shown.
#[derive(Clone, Copy, PartialEq, Eq, Structural, Debug)]
pub enum ResponseType {
    InChannel,
    Ephemeral,
}

/// A plain text response.
pub struct Message {
    pub response_type: ResponseType,
    pub text: String,
    pub mrkdwn: bool,
}

pub ghost struct MessageView {
    pub response_type: ResponseType,
    pub text: Seq<char>,
    pub mrkdwn: bool,
}

impl View for Message {
    type V = MessageView;

    open spec fn view(&self) -> MessageView {
        MessageView { response_type: self.response_type, text: self.text@, mrkdwn: self.mrkdwn }
    }
}

/// One titled field of an attachment.
pub struct AttachmentFields {
    pub title: String,
    pub value: String,
}

pub ghost struct AttachmentFieldsView {
    pub title: Seq<char>,
    pub value: Seq<char>,
}

impl View for AttachmentFields {
    type V = AttachmentFieldsView;

    open spec fn view(&self) -> AttachmentFieldsView {
        AttachmentFieldsView { title: self.title@, value: self.value@ }
    }
}

/// A rich response block: a title, lead-in text, and titled fields.
pub struct Attachment {
    pub title: String,
    pub pretext: String,
    pub text: String,
    pub fields: Vec<AttachmentFields>,
    pub mrkdwn_in: Vec<String>,
}

pub ghost struct AttachmentView {
    pub title: Seq<char>,
    pub pretext: Seq<char>,
    pub text: Seq<char>,
    pub fields: Seq<AttachmentFieldsView>,
    pub mrkdwn_in: Seq<Seq<char>>,
}

impl View for Attachment {
    type V = AttachmentView;

    open spec fn view(&self) -> AttachmentView {
        AttachmentView {
            title: self.title@,
            pretext: self.pretext@,
            text: self.text@,
            fields: self.fields@.map_values(|f: AttachmentFields| f@),
            mrkdwn_in: self.mrkdwn_in.deep_view(),
        }
    }
}

/// A response made of attachments.
pub struct AttachedMessage {
    pub response_type: ResponseType,
    pub attachments: Vec<Attachment>,
}

pub ghost struct AttachedMessageView {
    pub response_type: ResponseType,
    pub attachments: Seq<AttachmentView>,
}

impl View for AttachedMessage {
    type V = AttachedMessageView;

    open spec fn view(&self) -> AttachedMessageView {
        AttachedMessageView {
            response_type: self.response_type,
            attachments: self.attachments@.map_values(|a: Attachment| a@),
        }
    }
}

/// What the dispatcher hands back to the transport.
pub enum Response {
    Message(Message),
    AttachedMessage(AttachedMessage),
}

pub ghost enum ResponseView {
    Message(MessageView),
    AttachedMessage(AttachedMessageView),
}

impl View for Response {
    type V = ResponseView;

    open spec fn view(&self) -> ResponseView {
        match self {
            Response::Message(m) => ResponseView::Message(m@),
            Response::AttachedMessage(m) => ResponseView::AttachedMessage(m@),
        }
    }
}

} // verus!
