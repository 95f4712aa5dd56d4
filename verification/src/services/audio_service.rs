//! Speech synthesis: the name and place of the audio file, and what one
//! attempt at synthesis amounts to.

use vstd::prelude::*;
use vstd::string::*;
use crate::models::audio::{no_audio, AudioDuration, SynthesisResult, SynthesisResultView};
use crate::models::date::{DateInfo, DateInfoView};
use crate::services::provider_service::{accepted, is_success_status};
use crate::utils::text::{padded_decimal, push_padded_decimal};

verus! {

/// What became of the audio that the provider sent.
#[derive(Clone, Copy, Debug, PartialEq, Eq, Structural)]
pub enum Stored {
    /// The body of the answer was not asked for.
    NotRead,
    /// The body of the answer could not be read.
    BodyUnreadable,
    /// The file could not be written.
    NotWritten,
    /// The file was written. `probed` is the length that was measured on it,
    /// `None` where measuring failed.
    Written { probed: Option<AudioDuration> },
}

/// One attempt at synthesis, as the caller saw it end.
#[derive(Clone, Copy, Debug, PartialEq, Eq, Structural)]
pub enum SynthesisAttempt {
    /// The provider's key is not configured, so nothing was sent.
    MissingCredential,
    /// The request did not get an answer.
    Unreachable,
    /// The provider answered. With a status outside 200 to 299 the answer
    /// counts as a refusal, whatever `stored` says.
    Answered { status: u16, stored: Stored },
}

/// The name of the day's audio file: `welcome`, then day, month and year in
/// two, two and four digits, then `.mp3`.
pub open spec fn audio_file_name_of(date: DateInfoView) -> Seq<char> {
    "welcome"@ + padded_decimal(date.day, 2) + padded_decimal(date.month, 2) + padded_decimal(
        date.year,
        4,
    ) + ".mp3"@
}

/// Builds the name of the day's audio file.
pub fn audio_file_name(date: &DateInfo) -> (name: String)
    ensures
        name@ == audio_file_name_of(date@),
{
    let mut name = String::from_str("welcome");
    push_padded_decimal(&mut name, date.day as i64, 2);
    push_padded_decimal(&mut name, date.month as i64, 2);
    push_padded_decimal(&mut name, date.year as i64, 4);
    name.append(".mp3");
    name
}

/// The directory that holds the audio files, with its closing slash.
pub open spec fn audio_directory() -> Seq<char> {
    "./voices_marcia/welcome/"@
}

/// Where the audio file of a given name lies.
pub open spec fn audio_path_of(file_name: Seq<char>) -> Seq<char> {
    audio_directory() + file_name
}

/// Builds the path of the audio file of a given name.
pub fn audio_file_path(file_name: &str) -> (path: String)
    ensures
        path@ == audio_path_of(file_name@),
        path@.len() > 0,
{
    proof {
        reveal_strlit("./voices_marcia/welcome/");
    }
    let mut path = String::from_str("./voices_marcia/welcome/");
    path.append(file_name);
    path
}

/// The length that is reported for a written file: the measured one, or no
/// time where measuring failed.
pub open spec fn probed_or_zero(probed: Option<AudioDuration>) -> AudioDuration {
    match probed {
        Some(length) => length,
        None => AudioDuration { secs: 0, nanos: 0 },
    }
}

/// What an attempt at synthesis amounts to. Audio was produced only where
/// the provider answered with success and the file was written; the result is
/// then the file's path with the measured length, or with no time where
/// measuring failed. Every other attempt gives the empty result.
pub open spec fn synthesis_of(file_name: Seq<char>, attempt: SynthesisAttempt) -> SynthesisResultView {
    match attempt {
        SynthesisAttempt::Answered { status, stored: Stored::Written { probed } } =>
            if is_success_status(status) {
                SynthesisResultView {
                    audio_path: audio_path_of(file_name),
                    duration: probed_or_zero(probed),
                }
            } else {
                no_audio()
            },
        _ => no_audio(),
    }
}

/// The empty result: no path, no time.
pub fn silent() -> (result: SynthesisResult)
    ensures
        result@ == no_audio(),
        !result@.produced(),
{
    SynthesisResult { audio_path: String::new(), duration: AudioDuration::zero() }
}

/// Judges one attempt to synthesize the audio file `file_name`. A failure at
/// any step gives the empty result, never an error.
pub fn generate_audio(file_name: &str, attempt: SynthesisAttempt) -> (result: SynthesisResult)
    ensures
        result@ == synthesis_of(file_name@, attempt),
        result@.produced() <==> (attempt matches SynthesisAttempt::Answered {
            status,
            stored: Stored::Written { .. },
        } && is_success_status(status)),
{
    match attempt {
        SynthesisAttempt::MissingCredential => silent(),
        SynthesisAttempt::Unreachable => silent(),
        SynthesisAttempt::Answered { status, stored } => {
            if !accepted(status) {
                silent()
            } else {
                match stored {
                    Stored::NotRead => silent(),
                    Stored::BodyUnreadable => silent(),
                    Stored::NotWritten => silent(),
                    Stored::Written { probed } => {
                        let duration = match probed {
                            Some(length) => length,
                            None => AudioDuration::zero(),
                        };
                        SynthesisResult { audio_path: audio_file_path(file_name), duration }
                    },
                }
            }
        },
    }
}

} // verus!
