//! What comes in over the two operations of the service, and what goes out.

use vstd::prelude::*;

verus! {

/// An utterance sent to the assistant.
#[derive(Clone, Debug, PartialEq, Eq)]
pub struct MessageInput {
    pub content: String,
}

/// The audio that belongs to a reply.
#[derive(Clone, Debug, PartialEq, Eq)]
pub struct AudioAttachment {
    pub audio_path: String,
    pub file_name: String,
}

/// What an `AudioAttachment` stands for.
pub ghost struct AudioAttachmentView {
    pub audio_path: Seq<char>,
    pub file_name: Seq<char>,
}

impl View for AudioAttachment {
    type V = AudioAttachmentView;

    open spec fn view(&self) -> AudioAttachmentView {
        AudioAttachmentView { audio_path: self.audio_path@, file_name: self.file_name@ }
    }
}

/// The assistant's answer to an utterance.
#[derive(Clone, Debug, PartialEq, Eq)]
pub struct MessageResponse {
    pub reply: String,
    pub additional_data: Option<AudioAttachment>,
}

/// What a `MessageResponse` stands for.
pub ghost struct MessageResponseView {
    pub reply: Seq<char>,
    pub additional_data: Option<AudioAttachmentView>,
}

impl View for MessageResponse {
    type V = MessageResponseView;

    open spec fn view(&self) -> MessageResponseView {
        MessageResponseView {
            reply: self.reply@,
            additional_data: match self.additional_data {
                Some(data) => Some(data@),
                None => None,
            },
        }
    }
}

/// A command that a client reports for the log.
#[derive(Clone, Debug, PartialEq, Eq)]
pub struct CommandLogInput {
    pub command: String,
}

/// The acknowledgement of a logged command.
#[derive(Clone, Debug, PartialEq, Eq)]
pub struct CommandLogResponse {
    pub status: String,
}

} // verus!
