//! Metadata fetcher, parsing half.  The driver invokes the external tool with
//! the flags built here, then hands its exit status and captured standard
//! output to `retreive_metadata`, which decodes the bytes as UTF-8, splits
//! them into paragraph blocks and builds the metadata record.  The subprocess
//! call itself stands outside the store's lock and outside this library.

use vstd::prelude::*;
use vstd::utf8::{decode_utf8, valid_utf8};

use crate::errors::{MetadataError, YaydlError};
use crate::text::utf8_to_string;
use crate::types::{Metadata, MetadataView};

verus! {

/// True when a paragraph separator (a blank line, two newline characters)
/// stands at position `i` of `s`.
pub open spec fn sep_at(s: Seq<char>, i: int) -> bool {
    0 <= i && i + 2 <= s.len() && s[i] == '\n' && s[i + 1] == '\n'
}

/// The first separator position at or after `i`, or `s.len()` when there is
/// none.
pub open spec fn first_sep_from(s: Seq<char>, i: int) -> int
    decreases s.len() - i,
{
    if sep_at(s, i) {
        i
    } else if 0 <= i && i + 2 <= s.len() {
        first_sep_from(s, i + 1)
    } else {
        s.len() as int
    }
}

/// The paragraph blocks of `s`: what splitting at each non-overlapping
/// blank-line separator yields, left to right.  There is always at least one
/// block; a trailing separator yields a final empty block.
pub open spec fn split_blocks(s: Seq<char>) -> Seq<Seq<char>>
    decreases s.len(),
{
    let i = first_sep_from(s, 0);
    if 0 <= i && i + 2 <= s.len() {
        seq![s.subrange(0, i)] + split_blocks(s.subrange(i + 2, s.len() as int))
    } else {
        seq![s]
    }
}

/// `first_sep_from` yields the first separator position at or after `i`: a
/// position in bounds carrying a separator, with none before it, or the
/// length when no separator remains.
proof fn lemma_first_sep_from(s: Seq<char>, i: int)
    requires
        0 <= i <= s.len(),
    ensures
        ({
            let r = first_sep_from(s, i);
            &&& i <= r <= s.len()
            &&& r < s.len() ==> sep_at(s, r)
            &&& forall|k: int| i <= k < r ==> !sep_at(s, k)
        }),
    decreases s.len() - i,
{
    if sep_at(s, i) {
    } else if i + 2 <= s.len() {
        lemma_first_sep_from(s, i + 1);
    }
}

/// Finds the first separator position of `text`, or its length when there is
/// none.
fn find_first_sep(text: &str) -> (r: usize)
    ensures
        r as int == first_sep_from(text@, 0),
{
    let n = text.unicode_len();
    let mut i: usize = 0;
    while i < n && i + 1 < n
        invariant
            i <= n,
            n == text@.len(),
            first_sep_from(text@, 0) == first_sep_from(text@, i as int),
        decreases n - i,
    {
        if text.get_char(i) == '\n' && text.get_char(i + 1) == '\n' {
            assert(sep_at(text@, i as int));
            assert(first_sep_from(text@, i as int) == i);
            return i;
        }
        assert(!sep_at(text@, i as int));
        assert(first_sep_from(text@, i as int) == first_sep_from(text@, i + 1));
        i += 1;
    }
    assert(first_sep_from(text@, i as int) == n);
    n
}

/// Splits `text` into its paragraph blocks.
fn split_blocks_exec(text: &str) -> (r: Vec<String>)
    ensures
        r.deep_view() == split_blocks(text@),
    decreases text@.len(),
{
    let n = text.unicode_len();
    let i = find_first_sep(text);
    proof {
        lemma_first_sep_from(text@, 0);
    }
    if n >= 2 && i <= n - 2 {
        let head = String::from_str(text.substring_char(0, i));
        let rest = text.substring_char(i + 2, n);
        let mut rv = split_blocks_exec(rest);
        rv.insert(0, head);
        proof {
            assert(rv.deep_view() =~= split_blocks(text@));
        }
        rv
    } else {
        let mut rv: Vec<String> = Vec::new();
        rv.push(String::from_str(text));
        proof {
            assert(rv.deep_view() =~= split_blocks(text@));
        }
        rv
    }
}

/// Parses what the external tool produced for a metadata fetch.  A non-zero
/// exit reports `RetreivalFailed` without looking at the output; output that
/// is not UTF-8 reports `Utf8Conversion`; fewer than four paragraph blocks
/// report `MissingFields`; otherwise the four blocks become title, id,
/// thumbnail and duration, in that order, with the fetch marked done.
pub fn retreive_metadata(url: &str, exit_ok: bool, stdout: Vec<u8>) -> (r: Result<
    Metadata,
    YaydlError,
>)
    ensures
        !exit_ok ==> (r matches Err(e) && e == YaydlError::MetadataError(
            MetadataError::RetreivalFailed,
        )),
        exit_ok && !valid_utf8(stdout@) ==> (r matches Err(e) && e == YaydlError::Utf8Conversion),
        exit_ok && valid_utf8(stdout@) ==> ({
            let blocks = split_blocks(decode_utf8(stdout@));
            &&& blocks.len() < 4 ==> (r matches Err(e) && e == YaydlError::MetadataError(
                MetadataError::MissingFields,
            ))
            &&& blocks.len() >= 4 ==> (r matches Ok(m) && m@ == (MetadataView {
                title: blocks[0],
                id: blocks[1],
                thumbnail: blocks[2],
                duration: blocks[3],
                url: url@,
                loading: false,
            }))
        }),
{
    if !exit_ok {
        return Err(YaydlError::MetadataError(MetadataError::RetreivalFailed));
    }
    let text = match utf8_to_string(stdout) {
        None => {
            return Err(YaydlError::Utf8Conversion);
        },
        Some(t) => t,
    };
    let blocks = split_blocks_exec(text.as_str());
    if blocks.len() < 4 {
        return Err(YaydlError::MetadataError(MetadataError::MissingFields));
    }
    Ok(
        Metadata {
            title: blocks[0].clone(),
            id: blocks[1].clone(),
            thumbnail: blocks[2].clone(),
            duration: blocks[3].clone(),
            url: String::from_str(url),
            loading: false,
        },
    )
}

/// The flag set of a metadata fetch: the four descriptive fields are
/// requested in a fixed order — id, title, duration, thumbnail — and the tool
/// prints one paragraph per field.
pub fn metadata_args(url: &str) -> (r: Vec<String>)
    ensures
        r.deep_view() == seq![
            "--verbose"@,
            "--get-id"@,
            "--get-title"@,
            "--get-duration"@,
            "--get-thumbnail"@,
            url@,
        ],
{
    let mut r: Vec<String> = Vec::new();
    r.push(String::from_str("--verbose"));
    r.push(String::from_str("--get-id"));
    r.push(String::from_str("--get-title"));
    r.push(String::from_str("--get-duration"));
    r.push(String::from_str("--get-thumbnail"));
    r.push(String::from_str(url));
    proof {
        assert(r.deep_view() =~= seq![
            "--verbose"@,
            "--get-id"@,
            "--get-title"@,
            "--get-duration"@,
            "--get-thumbnail"@,
            url@,
        ]);
    }
    r
}

} // verus!
