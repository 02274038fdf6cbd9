//! Transcription engine output handling: the fixed command line the
//! engine is invoked with, the classification of its exit, and the
//! cleanup that turns its timestamped lines into the delivered text.

use vstd::prelude::*;
use crate::text::find_char;
use crate::text::find_char_spec;
use crate::text::join_spaced;
use crate::text::lemma_join_spaced_push;
use crate::text::split_lines;
use crate::text::split_lines_spec;
use crate::text::trim;
use crate::text::trim_spec;
use crate::text::views_of;

verus! {

/// Why no transcript could be produced.
#[derive(Clone, Debug, PartialEq, Eq)]
pub enum TranscriptError {
    /// The engine exited unsuccessfully; carries its standard-error text.
    EngineFailed { stderr: String },
    /// An output line has no `]` closing its leading timestamp marker;
    /// carries that line.
    MissingDelimiter { line: String },
}

/// Directory holding the transcription engine, relative to the user's
/// home directory.
pub fn whisper_dir_suffix() -> (s: &'static str)
    ensures
        s@ == "external-libraries/whisper.cpp"@,
{
    "external-libraries/whisper.cpp"
}

/// Path of the engine binary, relative to that directory.
pub fn whisper_binary() -> (s: &'static str)
    ensures
        s@ == "./build/bin/whisper-cli"@,
{
    "./build/bin/whisper-cli"
}

/// The fixed argument list the engine is invoked with: the model file,
/// automatic language detection, no verbose output, then the audio file.
pub fn whisper_args(wav_path: &str) -> (args: Vec<String>)
    ensures
        args@.len() == 6,
        args@[0]@ == "-m"@,
        args@[1]@ == "models/ggml-small.bin"@,
        args@[2]@ == "-l"@,
        args@[3]@ == "auto"@,
        args@[4]@ == "--no-prints"@,
        args@[5]@ == wav_path@,
{
    let mut args: Vec<String> = Vec::new();
    args.push(String::from_str("-m"));
    args.push(String::from_str("models/ggml-small.bin"));
    args.push(String::from_str("-l"));
    args.push(String::from_str("auto"));
    args.push(String::from_str("--no-prints"));
    args.push(String::from_str(wav_path));
    args
}

/// What the cleanup makes of one raw output line: the text after the
/// `]` that closes the leading timestamp marker, trimmed; or nothing
/// when the line has no `]`.
pub open spec fn cleanse_line_spec(line: Seq<char>) -> Option<Seq<char>> {
    let i = find_char_spec(line, ']');
    if i == line.len() {
        None
    } else {
        Some(trim_spec(line.subrange(i + 1, line.len() as int)))
    }
}

/// Whether every raw output line carries a `]`-terminated marker.
pub open spec fn all_lines_clean(lines: Seq<Seq<char>>) -> bool {
    forall|k: int| 0 <= k < lines.len() ==> cleanse_line_spec(lines[k]) is Some
}

/// The cleaned text of each line.
pub open spec fn cleansed_parts(lines: Seq<Seq<char>>) -> Seq<Seq<char>> {
    lines.map_values(|l: Seq<char>| cleanse_line_spec(l)->Some_0)
}

/// Index of the first line without a `]`, or `lines.len()` if every
/// line has one.
pub open spec fn first_unclean_idx(lines: Seq<Seq<char>>) -> int
    decreases lines.len(),
{
    if lines.len() == 0 {
        0
    } else if cleanse_line_spec(lines[0]) is None {
        0
    } else {
        1 + first_unclean_idx(lines.drop_first())
    }
}

pub proof fn lemma_first_unclean_at(lines: Seq<Seq<char>>, i: int)
    requires
        0 <= i <= lines.len(),
        forall|j: int| 0 <= j < i ==> cleanse_line_spec(lines[j]) is Some,
        i < lines.len() ==> cleanse_line_spec(lines[i]) is None,
    ensures
        first_unclean_idx(lines) == i,
    decreases lines.len(),
{
    if lines.len() == 0 {
    } else if cleanse_line_spec(lines[0]) is None {
        assert(i == 0) by {
            if i > 0 {
                assert(cleanse_line_spec(lines[0]) is Some);
            }
        }
    } else {
        assert(i >= 1);
        let t = lines.drop_first();
        assert forall|j: int| 0 <= j < i - 1 implies cleanse_line_spec(t[j]) is Some by {
            assert(t[j] == lines[j + 1]);
        }
        assert(i - 1 < t.len() ==> t[i - 1] == lines[i]);
        lemma_first_unclean_at(t, i - 1);
    }
}

/// The delivered transcript for raw engine output `s`: every line loses
/// its leading `[...]` timestamp marker and surrounding whitespace, and
/// the surviving texts are joined with single spaces. No transcript is
/// produced when some line has no `]`.
pub open spec fn cleanse_spec(s: Seq<char>) -> Option<Seq<char>> {
    let lines = split_lines_spec(s);
    if all_lines_clean(lines) {
        Some(join_spaced(cleansed_parts(lines)))
    } else {
        None
    }
}

/// Clean raw transcription engine output, as `cleanse_spec` describes:
/// strip each line's leading `[...]` timestamp marker, trim, and join
/// the lines with single spaces. Returns the first marker-less line as
/// a `MissingDelimiter` error.
pub fn cleanse_transcription(raw: &str) -> (r: Result<String, TranscriptError>)
    ensures
        r is Ok <==> cleanse_spec(raw@) is Some,
        cleanse_spec(raw@) matches Some(t) ==> (r matches Ok(out) && out@ == t),
        cleanse_spec(raw@) is None ==> (r matches Err(e)
            && e matches TranscriptError::MissingDelimiter { line } && line@ == split_lines_spec(
            raw@,
        )[first_unclean_idx(split_lines_spec(raw@))]),
{
    let lines = split_lines(raw);
    let ghost line_views = views_of(lines@);
    let mut parts: Vec<String> = Vec::new();
    let mut k: usize = 0;
    while k < lines.len()
        invariant
            0 <= k <= lines.len(),
            line_views == views_of(lines@),
            line_views == split_lines_spec(raw@),
            forall|j: int| 0 <= j < k ==> cleanse_line_spec(line_views[j]) is Some,
            views_of(parts@) == cleansed_parts(line_views.take(k as int)),
        decreases lines.len() - k,
    {
        let line: &String = &lines[k];
        let llen = line.as_str().unicode_len();
        let i = find_char(line.as_str(), ']');
        if i == llen {
            proof {
                assert(cleanse_line_spec(line_views[k as int]) is None);
                lemma_first_unclean_at(line_views, k as int);
                assert(!all_lines_clean(line_views));
            }
            return Err(TranscriptError::MissingDelimiter { line: line.clone() });
        }
        let tail = line.as_str().substring_char(i + 1, llen);
        let piece = trim(tail);
        let ghost prev_parts = parts@;
        parts.push(String::from_str(piece));
        proof {
            assert(tail@ == line_views[k as int].subrange(i + 1, line_views[k as int].len() as int));
            assert(cleanse_line_spec(line_views[k as int]) == Some(piece@));
            assert(line_views.take(k + 1) =~= line_views.take(k as int).push(
                line_views[k as int],
            ));
            assert(views_of(parts@) =~= views_of(prev_parts).push(piece@));
            assert(cleansed_parts(line_views.take(k + 1)) =~= cleansed_parts(
                line_views.take(k as int),
            ).push(piece@));
        }
        k = k + 1;
    }
    proof {
        assert(line_views.take(lines@.len() as int) =~= line_views);
        assert(all_lines_clean(line_views));
    }
    let ghost part_views = views_of(parts@);
    let mut out = String::new();
    let mut j: usize = 0;
    while j < parts.len()
        invariant
            0 <= j <= parts.len(),
            part_views == views_of(parts@),
            out@ == join_spaced(part_views.take(j as int)),
        decreases parts.len() - j,
    {
        if j > 0 {
            out.append(" ");
        }
        out.append(parts[j].as_str());
        proof {
            reveal_strlit(" ");
            assert(" "@ =~= seq![' ']);
            lemma_join_spaced_push(part_views.take(j as int), part_views[j as int]);
            assert(part_views.take(j + 1) =~= part_views.take(j as int).push(
                part_views[j as int],
            ));
        }
        j = j + 1;
    }
    proof {
        assert(part_views.take(parts@.len() as int) =~= part_views);
        assert(cleansed_parts(line_views) == part_views);
    }
    Ok(out)
}

/// Turn the transcription engine's exit into the delivered transcript:
/// an unsuccessful exit carries the engine's standard-error text; on a
/// successful exit the engine's standard output is trimmed and cleaned
/// as `cleanse_spec` describes.
pub fn classify_engine_output(exit_success: bool, stdout: String, stderr: String) -> (r: Result<
    String,
    TranscriptError,
>)
    ensures
        !exit_success ==> r == Result::<String, TranscriptError>::Err(
            TranscriptError::EngineFailed { stderr },
        ),
        exit_success ==> ({
            let t = trim_spec(stdout@);
            &&& (r is Ok <==> cleanse_spec(t) is Some)
            &&& (cleanse_spec(t) matches Some(c) ==> (r matches Ok(out) && out@ == c))
            &&& (cleanse_spec(t) is None ==> (r matches Err(e)
                && e matches TranscriptError::MissingDelimiter { line } && line@
                == split_lines_spec(t)[first_unclean_idx(split_lines_spec(t))]))
        }),
{
    if !exit_success {
        return Err(TranscriptError::EngineFailed { stderr });
    }
    let trimmed = trim(stdout.as_str());
    cleanse_transcription(trimmed)
}

} // verus!
