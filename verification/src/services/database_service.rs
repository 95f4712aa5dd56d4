//! The record of a handled message, as it is handed to the event store.

use vstd::prelude::*;
use vstd::string::*;
use crate::models::audio::{AudioDuration, SynthesisResult, SynthesisResultView};
use crate::models::event::{InteractionEvent, InteractionEventView};

verus! {

/// The kind under which a handled message is recorded.
pub open spec fn message_event_type() -> Seq<char> {
    "message"@
}

/// The status under which a handled message is recorded.
pub open spec fn success_status() -> Seq<char> {
    "success"@
}

/// The record of a handled message. The length and the file's name are
/// recorded only where audio was produced; no emotion is recorded.
pub open spec fn message_event_of(
    command: Seq<char>,
    user_text: Seq<char>,
    system_response: Seq<char>,
    synthesis: SynthesisResultView,
    file_name: Seq<char>,
) -> InteractionEventView {
    InteractionEventView {
        event_type: message_event_type(),
        command: Some(command),
        user_text: Some(user_text),
        system_response: Some(system_response),
        emotion: None,
        duration: if synthesis.produced() {
            Some(synthesis.duration)
        } else {
            None
        },
        status: Some(success_status()),
        audio_file_name: if synthesis.produced() {
            Some(file_name)
        } else {
            None
        },
    }
}

/// Builds the record of a handled message.
pub fn message_event(
    command: &str,
    user_text: &str,
    system_response: &str,
    synthesis: &SynthesisResult,
    file_name: &str,
) -> (event: InteractionEvent)
    ensures
        event@ == message_event_of(
            command@,
            user_text@,
            system_response@,
            synthesis@,
            file_name@,
        ),
{
    let produced = synthesis.audio_path.as_str().unicode_len() > 0;
    InteractionEvent {
        event_type: String::from_str("message"),
        command: Some(String::from_str(command)),
        user_text: Some(String::from_str(user_text)),
        system_response: Some(String::from_str(system_response)),
        emotion: None,
        duration: if produced {
            Some(synthesis.duration)
        } else {
            None
        },
        status: Some(String::from_str("success")),
        audio_file_name: if produced {
            Some(String::from_str(file_name))
        } else {
            None
        },
    }
}

} // verus!
