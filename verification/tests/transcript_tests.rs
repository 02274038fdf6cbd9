use lala_lib::transcript::{
    classify_engine_output, cleanse_transcription, whisper_args, whisper_binary,
    whisper_dir_suffix, TranscriptError,
};

#[test]
fn cleanse_single_timestamped_line() {
    let out = cleanse_transcription("[00:00:00.000 --> 00:00:02.000]  hello world");
    assert_eq!(out, Ok(String::from("hello world")));
}

#[test]
fn cleanse_joins_lines_with_single_spaces() {
    let out =
        cleanse_transcription("[00:00:00.000-->00:00:01.000] hi\n[00:00:01.000-->00:00:02.000] there");
    assert_eq!(out, Ok(String::from("hi there")));
}

#[test]
fn cleanse_empty_input_is_empty_transcript() {
    assert_eq!(cleanse_transcription(""), Ok(String::from("")));
}

#[test]
fn cleanse_line_without_delimiter_is_an_error() {
    let out = cleanse_transcription("[00:00] ok\nno timestamp here");
    assert_eq!(
        out,
        Err(TranscriptError::MissingDelimiter {
            line: String::from("no timestamp here"),
        })
    );
}

#[test]
fn cleanse_reports_first_bad_line() {
    let out = cleanse_transcription("bad one\nbad two");
    assert_eq!(
        out,
        Err(TranscriptError::MissingDelimiter {
            line: String::from("bad one"),
        })
    );
}

#[test]
fn cleanse_trims_each_piece() {
    let out = cleanse_transcription("[a] \t first \n[b]\tsecond\t");
    assert_eq!(out, Ok(String::from("first second")));
}

#[test]
fn cleanse_empty_line_text_still_joins() {
    let out = cleanse_transcription("[a] hi\n[b]");
    assert_eq!(out, Ok(String::from("hi ")));
}

#[test]
fn classify_engine_failure_carries_stderr() {
    let out = classify_engine_output(
        false,
        String::from("ignored"),
        String::from("model not found"),
    );
    assert_eq!(
        out,
        Err(TranscriptError::EngineFailed {
            stderr: String::from("model not found"),
        })
    );
}

#[test]
fn classify_success_trims_and_cleans_stdout() {
    let out = classify_engine_output(
        true,
        String::from("\n [00:00:00.000 --> 00:00:02.000]  hello world \n"),
        String::from(""),
    );
    assert_eq!(out, Ok(String::from("hello world")));
}

#[test]
fn classify_success_with_corrupt_line_fails() {
    let out = classify_engine_output(true, String::from("corrupt"), String::from(""));
    assert_eq!(
        out,
        Err(TranscriptError::MissingDelimiter {
            line: String::from("corrupt"),
        })
    );
}

#[test]
fn engine_command_line_is_fixed() {
    assert_eq!(whisper_dir_suffix(), "external-libraries/whisper.cpp");
    assert_eq!(whisper_binary(), "./build/bin/whisper-cli");
    let args = whisper_args("/tmp/a.wav");
    assert_eq!(
        args,
        vec![
            String::from("-m"),
            String::from("models/ggml-small.bin"),
            String::from("-l"),
            String::from("auto"),
            String::from("--no-prints"),
            String::from("/tmp/a.wav"),
        ]
    );
}
