//! The decision logic around video uploads: extension screening, target
//! directory and collision-free filename construction, and the parsing of the
//! disk-space probe's output. The file system itself is the caller's
//! business.

use vstd::prelude::*;

use crate::errors::AppError;
use crate::outside::{sanitize_name, sanitized_of};
use crate::strings::{
    lemma_lex_le_total, lemma_lex_le_trans, lex_le, str_le,
    find_char_from, parse_u64, rfind_char, skip_ws, spec_all_digits, spec_dec_val,
    spec_find_char, spec_lower, spec_rfind_char, spec_skip_ws, spec_token_end, spec_u64_digits,
    str_eq, str_eq_lower, token_end, u64_to_string,
};

verus! {

/// Disk-space figures, in bytes.
#[derive(Debug, Clone, Copy, PartialEq, Eq, Structural)]
pub struct SpaceInfo {
    pub total: u64,
    pub used: u64,
    pub free: u64,
}

/// Places uploads under the media tree rooted at `plex_media_path`.
pub struct VideoUploader {
    pub plex_media_path: String,
}

/// The extension of `f`: what follows the last dot, or all of `f` when it
/// has none.
pub open spec fn spec_ext(f: Seq<char>) -> Seq<char> {
    match spec_rfind_char(f, '.') {
        None => f,
        Some(i) => f.subrange(i + 1, f.len() as int),
    }
}

/// The accepted video extensions, compared case-insensitively.
pub open spec fn spec_is_video_ext(e: Seq<char>) -> bool {
    e == "mp4"@ || e == "avi"@ || e == "mov"@ || e == "mkv"@ || e == "wmv"@ || e == "flv"@ || e
        == "m4v"@ || e == "webm"@ || e == "ts"@
}

pub open spec fn spec_is_valid_video_file(f: Seq<char>) -> bool {
    spec_is_video_ext(spec_lower(spec_ext(f)))
}

/// Is `filename` named like a video file?
pub fn is_valid_video_file(filename: &str) -> (r: bool)
    ensures
        r == spec_is_valid_video_file(filename@),
{
    let n = filename.unicode_len();
    let ext = match rfind_char(filename, '.') {
        None => filename,
        Some(i) => filename.substring_char(i + 1, n),
    };
    str_eq_lower(ext, "mp4") || str_eq_lower(ext, "avi") || str_eq_lower(ext, "mov")
        || str_eq_lower(ext, "mkv") || str_eq_lower(ext, "wmv") || str_eq_lower(ext, "flv")
        || str_eq_lower(ext, "m4v") || str_eq_lower(ext, "webm") || str_eq_lower(ext, "ts")
}

/// The filename tried at collision-avoidance round `counter`: a `_counter`
/// tag squeezed in before the extension (or appended, when there is none).
pub open spec fn spec_unique_candidate(f: Seq<char>, counter: u64) -> Seq<char> {
    match spec_rfind_char(f, '.') {
        None => f + "_"@ + spec_u64_digits(counter),
        Some(i) => f.subrange(0, i) + "_"@ + spec_u64_digits(counter) + f.subrange(
            i,
            f.len() as int,
        ),
    }
}

/// Build the candidate name for round `counter`. The caller probes the file
/// system and walks `counter` upward until a free name appears.
pub fn unique_name_candidate(filename: &str, counter: u64) -> (r: String)
    ensures
        r@ == spec_unique_candidate(filename@, counter),
{
    let n = filename.unicode_len();
    let digits = u64_to_string(counter);
    match rfind_char(filename, '.') {
        None => {
            let mut s = String::from_str(filename);
            s.append("_");
            s.append(digits.as_str());
            proof {
                assert(s@ =~= spec_unique_candidate(filename@, counter));
            }
            s
        },
        Some(i) => {
            let mut s = String::from_str(filename.substring_char(0, i));
            s.append("_");
            s.append(digits.as_str());
            s.append(filename.substring_char(i, n));
            proof {
                assert(s@ =~= spec_unique_candidate(filename@, counter));
            }
            s
        },
    }
}

/// The directory all clips live under.
pub open spec fn spec_clips_dir(plex: Seq<char>) -> Seq<char> {
    plex + "/Clips"@
}

/// Where an upload naming `folder` lands: the clips directory itself for no
/// folder or the literal `Clips`, otherwise the sanitized folder under it.
pub open spec fn spec_target_dir(plex: Seq<char>, folder: Option<&str>) -> Seq<char> {
    match folder {
        None => spec_clips_dir(plex),
        Some(f) => if f@ == "Clips"@ {
            spec_clips_dir(plex)
        } else {
            spec_clips_dir(plex) + "/"@ + sanitized_of(f@)
        },
    }
}

impl VideoUploader {
    /// Remember the media root. Ensuring the directory exists on disk is the
    /// caller's business; construction itself cannot fail.
    pub fn new(plex_media_path: &str) -> (r: Result<VideoUploader, AppError>)
        ensures
            r matches Ok(u) && u.plex_media_path@ == plex_media_path@,
    {
        Ok(VideoUploader { plex_media_path: String::from_str(plex_media_path) })
    }

    /// The clips directory's path.
    pub fn clips_dir(&self) -> (r: String)
        ensures
            r@ == spec_clips_dir(self.plex_media_path@),
    {
        let mut s = self.plex_media_path.clone();
        s.append("/Clips");
        s
    }

    /// The directory an upload naming `folder` is placed in.
    pub fn target_dir(&self, folder: Option<&str>) -> (r: String)
        ensures
            r@ == spec_target_dir(self.plex_media_path@, folder),
    {
        let mut s = self.clips_dir();
        let f = match folder {
            None => {
                return s;
            },
            Some(f) => f,
        };
        if str_eq(f, "Clips") {
            return s;
        }
        let clean = sanitize_name(f);
        s.append("/");
        s.append(clean.as_str());
        proof {
            assert(s@ =~= spec_target_dir(self.plex_media_path@, folder));
        }
        s
    }
}

/// The folder listing is handed out in ascending lexicographic order.
pub open spec fn spec_sorted_lex(v: Seq<String>) -> bool {
    forall|i: int, j: int| 0 <= i < j < v.len() ==> lex_le(v[i]@, v[j]@)
}

/// Sort folder names ascending. The result is ordered and holds exactly the
/// given names, multiplicities included.
pub fn sort_folder_names(names: Vec<String>) -> (r: Vec<String>)
    ensures
        spec_sorted_lex(r@),
        r@.to_multiset() == names@.to_multiset(),
{
    broadcast use vstd::seq_lib::group_to_multiset_ensures;
    broadcast use vstd::multiset::group_multiset_axioms;

    let mut rest = names;
    let mut out: Vec<String> = Vec::new();
    let ghost all = rest@.to_multiset();
    proof {
        assert(out@.to_multiset().add(rest@.to_multiset()) =~= all);
    }
    while rest.len() > 0
        invariant
            spec_sorted_lex(out@),
            forall|i: int, j: int|
                0 <= i < out@.len() && 0 <= j < rest@.len() ==> lex_le(out@[i]@, rest@[j]@),
            out@.to_multiset().add(rest@.to_multiset()) == all,
        decreases rest.len(),
    {
        // Select the least remaining name.
        proof {
            lemma_lex_le_total(rest@[0]@, rest@[0]@);
        }
        let mut m: usize = 0;
        let mut k: usize = 1;
        while k < rest.len()
            invariant
                m < k <= rest@.len() || (k <= rest@.len() && m == 0),
                m < rest@.len(),
                forall|j: int| 0 <= j < k ==> lex_le(rest@[m as int]@, rest@[j]@),
            decreases rest@.len() - k,
        {
            if str_le(rest[k].as_str(), rest[m].as_str()) {
                proof {
                    assert forall|j: int| 0 <= j < k + 1 implies lex_le(
                        rest@[k as int]@,
                        rest@[j]@,
                    ) by {
                        if j < k {
                            lemma_lex_le_trans(rest@[k as int]@, rest@[m as int]@, rest@[j]@);
                        } else {
                            lemma_lex_le_total(rest@[k as int]@, rest@[k as int]@);
                        }
                    }
                }
                m = k;
            } else {
                proof {
                    lemma_lex_le_total(rest@[k as int]@, rest@[m as int]@);
                }
            }
            k = k + 1;
        }
        let ghost pre = rest@;
        let x = rest.remove(m);
        proof {
            pre.to_multiset_ensures();
            out@.to_multiset_ensures();
            assert(pre.remove(m as int).to_multiset() =~= pre.to_multiset().remove(pre[m as int]));
            assert(out@.push(x).to_multiset() =~= out@.to_multiset().insert(x));
            assert(out@.push(x).to_multiset().add(rest@.to_multiset()) =~= all);
            assert(forall|j: int|
                0 <= j < rest@.len() ==> lex_le(x@, #[trigger] rest@[j]@));
        }
        out.push(x);
    }
    proof {
        assert(out@.to_multiset().add(rest@.to_multiset()) =~= out@.to_multiset());
    }
    out
}

/// Bounds of the `n`-th whitespace-separated field of `s` at or after
/// `from`, counted from zero.
pub open spec fn spec_nth_field(s: Seq<char>, from: int, n: nat) -> Option<(int, int)>
    decreases n,
{
    let st = spec_skip_ws(s, from);
    if st >= s.len() {
        None
    } else {
        let en = spec_token_end(s, st);
        if n == 0 {
            Some((st, en))
        } else {
            spec_nth_field(s, en, (n - 1) as nat)
        }
    }
}

/// Locate the `n`-th whitespace-separated field.
pub fn nth_field(s: &str, from: usize, n: u64) -> (r: Option<(usize, usize)>)
    requires
        from <= s@.len(),
    ensures
        match r {
            Some(b) => spec_nth_field(s@, from as int, n as nat) == Some((b.0 as int, b.1 as int))
                && from <= b.0 < b.1 <= s@.len(),
            None => spec_nth_field(s@, from as int, n as nat) is None,
        },
    decreases n,
{
    let st = skip_ws(s, from);
    if st == s.unicode_len() {
        return None;
    }
    let en = token_end(s, st);
    proof {
        crate::strings::lemma_skip_ws_props(s@, from as int);
        crate::strings::lemma_token_end_props(s@, st as int);
    }
    if n == 0 {
        Some((st, en))
    } else {
        nth_field(s, en, n - 1)
    }
}

/// The numeric value of the `n`-th field of `s`, when there is one and it is
/// a decimal number that fits.
pub open spec fn spec_field_val(s: Seq<char>, n: nat) -> Option<u64> {
    match spec_nth_field(s, 0, n) {
        None => None,
        Some(b) => {
            let tok = s.subrange(b.0, b.1);
            if tok.len() > 0 && spec_all_digits(tok) && spec_dec_val(tok) <= u64::MAX {
                Some(spec_dec_val(tok) as u64)
            } else {
                None
            }
        },
    }
}

/// Parse the `n`-th field of `s` as a number.
pub fn field_val(s: &str, n: u64) -> (r: Option<u64>)
    ensures
        r == spec_field_val(s@, n as nat),
{
    let b = match nth_field(s, 0, n) {
        None => {
            return None;
        },
        Some(b) => b,
    };
    parse_u64(s.substring_char(b.0, b.1))
}

/// The second line of `s`: what stands between the first newline and the
/// next one (or the end).
pub open spec fn spec_second_line(s: Seq<char>) -> Option<Seq<char>> {
    match spec_find_char(s, '\n', 0) {
        None => None,
        Some(nl) => {
            let end = match spec_find_char(s, '\n', nl + 1) {
                Some(e) => e,
                None => s.len() as int,
            };
            Some(s.subrange(nl + 1, end))
        },
    }
}

/// The total/used/free columns (in 1K blocks) reported on the value line of
/// a POSIX `df -k` output: fields one to three of the second line.
pub open spec fn spec_df_numbers(s: Seq<char>) -> Option<(u64, u64, u64)> {
    match spec_second_line(s) {
        None => None,
        Some(line) => {
            if spec_field_val(line, 1) is Some && spec_field_val(line, 2) is Some
                && spec_field_val(line, 3) is Some {
                Some(
                    (
                        spec_field_val(line, 1)->Some_0,
                        spec_field_val(line, 2)->Some_0,
                        spec_field_val(line, 3)->Some_0,
                    ),
                )
            } else {
                None
            }
        },
    }
}

/// Does a block count fit in bytes?
pub open spec fn spec_blocks_fit(v: u64) -> bool {
    v * 1024 <= u64::MAX
}

/// Read the space figures out of a `df -k` output, converting 1K blocks to
/// bytes. Fails exactly when the output has no value line, a column is
/// missing or not a number, or a byte count would not fit.
pub fn parse_df_output(s: &str) -> (r: Result<SpaceInfo, AppError>)
    ensures
        match r {
            Ok(info) => (match spec_df_numbers(s@) {
                Some(v) => spec_blocks_fit(v.0) && spec_blocks_fit(v.1) && spec_blocks_fit(v.2)
                    && info.total == v.0 * 1024 && info.used == v.1 * 1024 && info.free == v.2
                    * 1024,
                None => false,
            }),
            Err(e) => (e matches AppError::InternalError(_)) && (match spec_df_numbers(s@) {
                Some(v) => !(spec_blocks_fit(v.0) && spec_blocks_fit(v.1) && spec_blocks_fit(
                    v.2,
                )),
                None => true,
            }),
        },
{
    let n = s.unicode_len();
    let nl = match find_char_from(s, '\n', 0) {
        Some(i) => i,
        None => {
            return Err(AppError::InternalError(String::from_str("Unexpected 'df' output format")));
        },
    };
    let end = match find_char_from(s, '\n', nl + 1) {
        Some(e) => e,
        None => n,
    };
    let line = s.substring_char(nl + 1, end);
    let total_blocks = match field_val(line, 1) {
        Some(v) => v,
        None => {
            return Err(
                AppError::InternalError(String::from_str("Failed to parse total space")),
            );
        },
    };
    let used_blocks = match field_val(line, 2) {
        Some(v) => v,
        None => {
            return Err(AppError::InternalError(String::from_str("Failed to parse used space")));
        },
    };
    let free_blocks = match field_val(line, 3) {
        Some(v) => v,
        None => {
            return Err(AppError::InternalError(String::from_str("Failed to parse free space")));
        },
    };
    let limit: u64 = u64::MAX / 1024;
    if total_blocks > limit || used_blocks > limit || free_blocks > limit {
        return Err(AppError::InternalError(String::from_str("Disk size out of range")));
    }
    Ok(
        SpaceInfo {
            total: total_blocks * 1024,
            used: used_blocks * 1024,
            free: free_blocks * 1024,
        },
    )
}

} // verus!
