//! The record that is kept of one handled message.

use vstd::prelude::*;
use crate::models::audio::AudioDuration;

verus! {

/// One row of the event store. The store assigns the row's number and its
/// time when the row is written.
#[derive(Clone, Debug, PartialEq, Eq)]
pub struct InteractionEvent {
    pub event_type: String,
    pub command: Option<String>,
    pub user_text: Option<String>,
    pub system_response: Option<String>,
    pub emotion: Option<String>,
    pub duration: Option<AudioDuration>,
    pub status: Option<String>,
    pub audio_file_name: Option<String>,
}

/// What an `InteractionEvent` stands for.
pub ghost struct InteractionEventView {
    pub event_type: Seq<char>,
    pub command: Option<Seq<char>>,
    pub user_text: Option<Seq<char>>,
    pub system_response: Option<Seq<char>>,
    pub emotion: Option<Seq<char>>,
    pub duration: Option<AudioDuration>,
    pub status: Option<Seq<char>>,
    pub audio_file_name: Option<Seq<char>>,
}

/// The text that an optional string holds, if any.
pub open spec fn text_of(field: Option<String>) -> Option<Seq<char>> {
    match field {
        Some(s) => Some(s@),
        None => None,
    }
}

impl View for InteractionEvent {
    type V = InteractionEventView;

    open spec fn view(&self) -> InteractionEventView {
        InteractionEventView {
            event_type: self.event_type@,
            command: text_of(self.command),
            user_text: text_of(self.user_text),
            system_response: text_of(self.system_response),
            emotion: text_of(self.emotion),
            duration: self.duration,
            status: text_of(self.status),
            audio_file_name: text_of(self.audio_file_name),
        }
    }
}

} // verus!
