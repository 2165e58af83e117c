//! Extraction runner, parsing half.  The driver spawns the external tool with
//! the flags built here and reads its standard output line by line; each line
//! goes through `progress_event`, which recognizes the tool's progress-line
//! convention and turns it into a normalized event.  A malformed line yields
//! no event and never aborts the run.
//!
//! The grammar of a progress line: the fixed marker, a run of blanks, then a
//! percentage token — digits, an optional `.`-separated fraction, a trailing
//! `%` — ending the line or followed by a space.  The percentage is the
//! integer part of the token, accepted when it is at most 100.

use vstd::prelude::*;
use vstd::utf8::{decode_utf8, valid_utf8};

use crate::errors::YaydlError;
use crate::store::{find_id_from, JobStore};
use crate::text::{starts_with, str_starts_with, utf8_to_string};
use crate::types::{DownloadEvent, DownloadState, DownloadView, Settings};

verus! {

/// The fixed marker that opens a progress line.
pub open spec fn progress_marker() -> Seq<char> {
    "[download]"@
}

/// The blanks that may pad the percentage token.
pub open spec fn is_space_char(c: char) -> bool {
    c == ' ' || c == '\t'
}

/// A decimal digit.
pub open spec fn is_digit(c: char) -> bool {
    48 <= c as u32 <= 57
}

/// The first position at or after `i` that does not hold a blank, or
/// `s.len()`.
pub open spec fn skip_ws_from(s: Seq<char>, i: int) -> int
    decreases s.len() - i,
{
    if 0 <= i < s.len() && is_space_char(s[i]) {
        skip_ws_from(s, i + 1)
    } else {
        i
    }
}

/// The end of the token that starts at `i`: the first space at or after `i`,
/// or `s.len()`.
pub open spec fn token_end_from(s: Seq<char>, i: int) -> int
    decreases s.len() - i,
{
    if 0 <= i < s.len() && s[i] != ' ' {
        token_end_from(s, i + 1)
    } else {
        i
    }
}

/// The end of the digit run that starts at `i`, within `[i, stop)`.
pub open spec fn digits_end_from(s: Seq<char>, i: int, stop: int) -> int
    decreases stop - i,
{
    if 0 <= i < stop && i < s.len() && is_digit(s[i]) {
        digits_end_from(s, i + 1, stop)
    } else {
        i
    }
}

/// The value of the digits `s[start..i]`, read in base ten.
pub open spec fn digits_value(s: Seq<char>, start: int, i: int) -> int
    decreases i - start,
{
    if i <= start {
        0
    } else {
        digits_value(s, start, i - 1) * 10 + (s[i - 1] as u32 - 48)
    }
}

/// The percentage the token `s[start..end]` yields: its digits' value when
/// the token is digits, an optional fraction after `.`, and a closing `%`,
/// and that value is at most 100; nothing otherwise.
pub open spec fn parse_token(s: Seq<char>, start: int, end: int) -> Option<u8> {
    if !(start < end && s[end - 1] == '%') {
        None
    } else {
        let stop = end - 1;
        let d = digits_end_from(s, start, stop);
        if d == start {
            None
        } else if !(d == stop || (s[d] == '.' && digits_end_from(s, d + 1, stop) == stop)) {
            None
        } else if digits_value(s, start, d) > 100 {
            None
        } else {
            Some(digits_value(s, start, d) as u8)
        }
    }
}

/// The percentage a line of the tool's output reports: the line must open
/// with the marker, and its first token after the blanks must be a percentage
/// token.
pub open spec fn parse_progress(line: Seq<char>) -> Option<u8> {
    if !starts_with(line, progress_marker()) {
        None
    } else {
        let start = skip_ws_from(line, progress_marker().len() as int);
        let end = token_end_from(line, start);
        parse_token(line, start, end)
    }
}

/// Decides whether `c` is a decimal digit.
fn char_is_digit(c: char) -> (r: bool)
    ensures
        r == is_digit(c),
{
    let u = c as u32;
    48 <= u && u <= 57
}

/// Parses one line, already decoded, by the progress-line grammar.
pub fn parse_progress_line(line: &str) -> (r: Option<u8>)
    ensures
        r == parse_progress(line@),
{
    if !str_starts_with(line, "[download]") {
        return None;
    }
    let n = line.unicode_len();
    let m = "[download]".unicode_len();
    let mut i: usize = m;
    while i < n && (line.get_char(i) == ' ' || line.get_char(i) == '\t')
        invariant
            m <= i <= n,
            n == line@.len(),
            skip_ws_from(line@, m as int) == skip_ws_from(line@, i as int),
        decreases n - i,
    {
        assert(skip_ws_from(line@, i as int) == skip_ws_from(line@, i + 1));
        i += 1;
    }
    let start = i;
    assert(skip_ws_from(line@, m as int) == start);
    let mut j = start;
    while j < n && line.get_char(j) != ' '
        invariant
            start <= j <= n,
            n == line@.len(),
            token_end_from(line@, start as int) == token_end_from(line@, j as int),
        decreases n - j,
    {
        assert(token_end_from(line@, j as int) == token_end_from(line@, j + 1));
        j += 1;
    }
    let end = j;
    assert(token_end_from(line@, start as int) == end);
    if end == start {
        return None;
    }
    if line.get_char(end - 1) != '%' {
        return None;
    }
    let stop = end - 1;
    let mut d = start;
    let mut acc: u32 = 0;
    let mut over = false;
    while d < stop && char_is_digit(line.get_char(d))
        invariant
            start <= d <= stop,
            stop < n,
            n == line@.len(),
            digits_end_from(line@, start as int, stop as int) == digits_end_from(
                line@,
                d as int,
                stop as int,
            ),
            !over ==> acc == digits_value(line@, start as int, d as int) && acc <= 100,
            over ==> digits_value(line@, start as int, d as int) > 100,
        decreases stop - d,
    {
        assert(digits_end_from(line@, d as int, stop as int) == digits_end_from(
            line@,
            d + 1,
            stop as int,
        ));
        assert(digits_value(line@, start as int, d + 1) == digits_value(
            line@,
            start as int,
            d as int,
        ) * 10 + (line@[d as int] as u32 - 48));
        let v = line.get_char(d) as u32;
        if !over {
            acc = acc * 10 + (v - 48);
            if acc > 100 {
                over = true;
            }
        }
        d += 1;
    }
    assert(digits_end_from(line@, start as int, stop as int) == d);
    if d == start {
        return None;
    }
    if over {
        return None;
    }
    if d < stop {
        if line.get_char(d) != '.' {
            return None;
        }
        let mut k = d + 1;
        while k < stop && char_is_digit(line.get_char(k))
            invariant
                d + 1 <= k <= stop,
                stop < n,
                n == line@.len(),
                digits_end_from(line@, d + 1, stop as int) == digits_end_from(
                    line@,
                    k as int,
                    stop as int,
                ),
            decreases stop - k,
        {
            assert(digits_end_from(line@, k as int, stop as int) == digits_end_from(
                line@,
                k + 1,
                stop as int,
            ));
            k += 1;
        }
        assert(digits_end_from(line@, d + 1, stop as int) == k);
        if k < stop {
            return None;
        }
    }
    Some(acc as u8)
}

/// Parses one raw line of the extraction tool's output.  A line that is not
/// UTF-8 reports `Utf8Conversion` and ends the run; a line without the marker
/// or without a well-formed percentage yields no event and is skipped; a
/// progress line yields the event to emit, carrying the job's id.
pub fn progress_event(id: &str, line: Vec<u8>) -> (r: Result<Option<DownloadEvent>, YaydlError>)
    ensures
        !valid_utf8(line@) ==> (r matches Err(e) && e == YaydlError::Utf8Conversion),
        valid_utf8(line@) ==> ({
            let p = parse_progress(decode_utf8(line@));
            &&& p is None ==> (r matches Ok(o) && o is None)
            &&& p matches Some(pc) ==> (r matches Ok(o) && o matches Some(ev) && ev@.id == id@
                && ev@.progress == pc)
        }),
{
    let text = match utf8_to_string(line) {
        None => {
            return Err(YaydlError::Utf8Conversion);
        },
        Some(t) => t,
    };
    match parse_progress_line(text.as_str()) {
        None => Ok(None),
        Some(percent) => Ok(
            Some(DownloadEvent { id: String::from_str(id), progress: percent }),
        ),
    }
}

/// The flag set of an extraction run: newline-delimited progress, audio-only
/// extraction in the requested format, and the output template combining the
/// output directory with the source title.
pub fn extraction_args(settings: &Settings, url: &str) -> (r: Vec<String>)
    ensures
        r.deep_view() == seq![
            "--newline"@,
            "-x"@,
            "--audio-format"@,
            settings.output_format@,
            "-o"@,
            settings.output_dir@ + "/%(title)s.%(ext)s"@,
            url@,
        ],
{
    let mut r: Vec<String> = Vec::new();
    r.push(String::from_str("--newline"));
    r.push(String::from_str("-x"));
    r.push(String::from_str("--audio-format"));
    r.push(settings.output_format.clone());
    r.push(String::from_str("-o"));
    r.push(settings.output_dir.clone().concat("/%(title)s.%(ext)s"));
    r.push(String::from_str(url));
    proof {
        assert(r.deep_view() =~= seq![
            "--newline"@,
            "-x"@,
            "--audio-format"@,
            settings.output_format@,
            "-o"@,
            settings.output_dir@ + "/%(title)s.%(ext)s"@,
            url@,
        ]);
    }
    r
}

/// The caller-side rule closing one extraction run: a run that returned
/// without error leaves its job `Finished`, a failed run leaves it `Failure`.
pub fn apply_run_result(store: &mut JobStore, id: &str, run_ok: bool)
    requires
        old(store).wf(),
    ensures
        final(store).wf(),
        ({
            let i = find_id_from(old(store)@, id@, 0);
            let st = if run_ok {
                DownloadState::Finished
            } else {
                DownloadState::Failure
            };
            if i < old(store)@.len() {
                final(store)@ == old(store)@.update(
                    i,
                    (DownloadView { download_state: st, ..old(store)@[i] }),
                )
            } else {
                final(store)@ == old(store)@
            }
        }),
{
    if run_ok {
        store.update_state(id, DownloadState::Finished);
    } else {
        store.update_state(id, DownloadState::Failure);
    }
}

} // verus!
