use marcia_assistant::models::audio::{AudioDuration, SynthesisResult};
use marcia_assistant::models::date::DateInfo;
use marcia_assistant::services::audio_service::{
    audio_file_name, audio_file_path, generate_audio, silent, Stored, SynthesisAttempt,
};

fn date(day: u32, month: u32, year: i32) -> DateInfo {
    DateInfo { day, month, year, weekday: "Domingo".to_string() }
}

fn nothing() -> SynthesisResult {
    SynthesisResult { audio_path: String::new(), duration: AudioDuration { secs: 0, nanos: 0 } }
}

#[test]
fn the_file_is_named_after_the_day() {
    assert_eq!(audio_file_name(&date(5, 3, 2024)), "welcome05032024.mp3");
    assert_eq!(audio_file_name(&date(31, 12, 2025)), "welcome31122025.mp3");
}

#[test]
fn the_file_name_pads_short_years_and_keeps_long_ones() {
    assert_eq!(audio_file_name(&date(1, 1, 987)), "welcome01010987.mp3");
    assert_eq!(audio_file_name(&date(1, 1, 12345)), "welcome010112345.mp3");
    assert_eq!(audio_file_name(&date(1, 1, -5)), "welcome0101-005.mp3");
}

#[test]
fn the_file_name_agrees_with_std_formatting() {
    for (d, m, y) in [(1u32, 1u32, 1i32), (9, 10, 1999), (31, 12, 2024), (0, 0, 0), (100, 13, -44)] {
        assert_eq!(
            audio_file_name(&date(d, m, y)),
            format!("welcome{:02}{:02}{:04}.mp3", d, m, y)
        );
    }
}

#[test]
fn the_file_lies_in_the_welcome_directory() {
    assert_eq!(audio_file_path("welcome05032024.mp3"), "./voices_marcia/welcome/welcome05032024.mp3");
    assert_eq!(audio_file_path(""), "./voices_marcia/welcome/");
}

#[test]
fn zero_duration_is_no_time() {
    assert_eq!(AudioDuration::zero(), AudioDuration { secs: 0, nanos: 0 });
}

#[test]
fn the_empty_result_has_no_path_and_no_time() {
    assert_eq!(silent(), nothing());
}

#[test]
fn a_written_and_measured_file_gives_path_and_length() {
    let length = AudioDuration { secs: 12, nanos: 500_000_000 };
    let attempt =
        SynthesisAttempt::Answered { status: 200, stored: Stored::Written { probed: Some(length) } };
    assert_eq!(
        generate_audio("a.mp3", attempt),
        SynthesisResult { audio_path: "./voices_marcia/welcome/a.mp3".to_string(), duration: length }
    );
}

#[test]
fn a_written_file_that_could_not_be_measured_keeps_its_path() {
    let attempt = SynthesisAttempt::Answered { status: 200, stored: Stored::Written { probed: None } };
    assert_eq!(
        generate_audio("a.mp3", attempt),
        SynthesisResult {
            audio_path: "./voices_marcia/welcome/a.mp3".to_string(),
            duration: AudioDuration { secs: 0, nanos: 0 },
        }
    );
}

#[test]
fn a_missing_key_gives_no_audio() {
    assert_eq!(generate_audio("a.mp3", SynthesisAttempt::MissingCredential), nothing());
}

#[test]
fn an_unreachable_provider_gives_no_audio() {
    assert_eq!(generate_audio("a.mp3", SynthesisAttempt::Unreachable), nothing());
}

#[test]
fn a_refused_request_gives_no_audio_whatever_is_stored() {
    let length = AudioDuration { secs: 3, nanos: 0 };
    for status in [199u16, 300, 401, 429, 500] {
        for stored in [
            Stored::NotRead,
            Stored::BodyUnreadable,
            Stored::NotWritten,
            Stored::Written { probed: None },
            Stored::Written { probed: Some(length) },
        ] {
            assert_eq!(
                generate_audio("a.mp3", SynthesisAttempt::Answered { status, stored }),
                nothing()
            );
        }
    }
}

#[test]
fn a_body_that_was_not_read_gives_no_audio() {
    let attempt = SynthesisAttempt::Answered { status: 200, stored: Stored::NotRead };
    assert_eq!(generate_audio("a.mp3", attempt), nothing());
}

#[test]
fn an_unreadable_body_gives_no_audio() {
    let attempt = SynthesisAttempt::Answered { status: 200, stored: Stored::BodyUnreadable };
    assert_eq!(generate_audio("a.mp3", attempt), nothing());
}

#[test]
fn a_failed_write_gives_no_audio() {
    let attempt = SynthesisAttempt::Answered { status: 200, stored: Stored::NotWritten };
    assert_eq!(generate_audio("a.mp3", attempt), nothing());
}
