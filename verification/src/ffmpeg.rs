//! The encoder-facing surface: parsing the encoder's diagnostic output
//! (progress `time=` markers and the probe's `Duration:` line), the argument
//! lists of the probe and conversion invocations, and the derivation of the
//! output file path.
//!
//! Nothing here touches a process or the filesystem; an unverified driver
//! runs the encoder and hands the captured text to these functions.

use vstd::prelude::*;

use crate::error::AppError;
use crate::text::{
    find_char, find_sub, is_match, lemma_find_char_at_found, lemma_find_sub_at_found,
    spec_find_char, spec_find_sub, spec_rfind_char, spec_trim, rfind_char, trim_str,
};
use crate::timecode::{parse_clock_cs, spec_clock_cs};

verus! {

/// Marker struct owning the encoder-facing parsing functions.
pub struct FfmpegConverter;

/// Elapsed time in centiseconds announced by a diagnostic line: the clock
/// token strictly between the first `time=` and the next space. `None` when
/// the marker is absent, the token is not ended by a space, or the token is
/// malformed.
pub open spec fn spec_parse_time(line: Seq<char>) -> Option<int> {
    let i = spec_find_sub(line, "time="@);
    if i < 0 {
        None
    } else {
        let after = line.subrange(i + "time="@.len(), line.len() as int);
        let j = spec_find_char(after, ' ');
        if j < 0 {
            None
        } else {
            spec_clock_cs(after.take(j))
        }
    }
}

/// Trailing-field robustness of the progress parser: in a line made of any
/// prefix free of the marker, the marker `time=`, a space-free token and an
/// arbitrary remainder after the next space, the parsed elapsed time is the
/// value of the token alone — unrelated fields before or after it do not
/// affect the extraction.
pub proof fn lemma_parse_time_context(prefix: Seq<char>, tok: Seq<char>, suffix: Seq<char>)
    requires
        forall|j: int|
            0 <= j < prefix.len() ==> !is_match(
                prefix + "time="@ + tok + " "@ + suffix,
                "time="@,
                j,
            ),
        forall|k: int| 0 <= k < tok.len() ==> tok[k] != ' ',
    ensures
        spec_parse_time(prefix + "time="@ + tok + " "@ + suffix) == spec_clock_cs(tok),
{
    reveal_strlit("time=");
    reveal_strlit(" ");
    let line = prefix + "time="@ + tok + " "@ + suffix;
    let pat = "time="@;
    let pl = prefix.len() as int;
    assert(is_match(line, pat, pl)) by {
        assert(line.subrange(pl, pl + pat.len()) =~= pat);
    }
    lemma_find_sub_at_found(line, pat, 0, pl);
    let after = line.subrange(pl + pat.len(), line.len() as int);
    assert(after =~= tok + " "@ + suffix);
    assert(after[tok.len() as int] == ' ');
    lemma_find_char_at_found(after, ' ', 0, tok.len() as int);
    assert(after.take(tok.len() as int) =~= tok);
}

/// Total duration in centiseconds announced by the probe's diagnostic
/// output: the clock token after the first `Duration: ` marker, ended by the
/// first comma or line end, trimmed of surrounding whitespace. `None` when
/// the marker is absent or the token is malformed.
pub open spec fn spec_parse_duration(text: Seq<char>) -> Option<int> {
    let i = spec_find_sub(text, "Duration: "@);
    if i < 0 {
        None
    } else {
        let rest = text.subrange(i + "Duration: "@.len(), text.len() as int);
        let comma = spec_find_char(rest, ',');
        let eol = spec_find_char(rest, '\n');
        let end = if comma >= 0 && (eol < 0 || comma < eol) {
            comma
        } else if eol >= 0 {
            eol
        } else {
            rest.len() as int
        };
        spec_clock_cs(spec_trim(rest.take(end)))
    }
}

/// Base name of a path: everything after the last `/` separator.
pub open spec fn spec_base_name(path: Seq<char>) -> Seq<char> {
    path.subrange(spec_rfind_char(path, '/') + 1, path.len() as int)
}

/// Stem of a path's base name: the part before the last dot, unless the only
/// dot leads the name; `output` stands in for an empty base name.
pub open spec fn spec_file_stem(path: Seq<char>) -> Seq<char> {
    let base = spec_base_name(path);
    if base.len() == 0 {
        "output"@
    } else {
        let d = spec_rfind_char(base, '.');
        if d > 0 {
            base.take(d)
        } else {
            base
        }
    }
}

/// Output file path: the output directory, a `/` separator where the
/// directory does not already end in one, the input's stem and the `.gif`
/// extension.
pub open spec fn spec_output_path(input: Seq<char>, outdir: Seq<char>) -> Seq<char> {
    let name = spec_file_stem(input) + ".gif"@;
    if outdir.len() == 0 {
        name
    } else if outdir.last() == '/' {
        outdir + name
    } else {
        outdir + "/"@ + name
    }
}

impl FfmpegConverter {
    /// Extracts the elapsed time, in centiseconds, from one diagnostic line,
    /// as [`spec_parse_time`] states. Lines without a well-formed marker are
    /// skipped silently with `None`; they are not an error.
    pub fn parse_time(line: &str) -> (r: Option<u64>)
        ensures
            match r {
                Some(v) => spec_parse_time(line@) == Some(v as int),
                None => spec_parse_time(line@) is None,
            },
    {
        let n = line.unicode_len();
        let i = match find_sub(line, "time=") {
            None => {
                return None;
            },
            Some(i) => i,
        };
        proof {
            reveal_strlit("time=");
        }
        let after = line.substring_char(i + 5, n);
        let j = match find_char(after, ' ') {
            None => {
                return None;
            },
            Some(j) => j,
        };
        let tok = after.substring_char(0, j);
        proof {
            assert(tok@ =~= after@.take(j as int));
        }
        parse_clock_cs(tok)
    }

    /// Extracts the total duration, in centiseconds, from the probe
    /// invocation's captured diagnostic output, as [`spec_parse_duration`]
    /// states; a missing or malformed `Duration:` marker is the error
    /// `ConversionFailed`.
    pub fn parse_duration_output(text: &str) -> (r: Result<u64, AppError>)
        ensures
            match r {
                Ok(v) => spec_parse_duration(text@) == Some(v as int),
                Err(e) => spec_parse_duration(text@) is None && (e matches
                    AppError::ConversionFailed(m) && m@
                    == "Could not determine video duration"@),
            },
    {
        let n = text.unicode_len();
        let i = match find_sub(text, "Duration: ") {
            None => {
                return Err(
                    AppError::ConversionFailed(
                        String::from_str("Could not determine video duration"),
                    ),
                );
            },
            Some(i) => i,
        };
        proof {
            reveal_strlit("Duration: ");
        }
        let rest = text.substring_char(i + 10, n);
        let rn = rest.unicode_len();
        let comma = find_char(rest, ',');
        let eol = find_char(rest, '\n');
        let end: usize = match (comma, eol) {
            (Some(c), Some(e)) => if c < e {
                c
            } else {
                e
            },
            (Some(c), None) => c,
            (None, Some(e)) => e,
            (None, None) => rn,
        };
        let raw = rest.substring_char(0, end);
        proof {
            assert(raw@ =~= rest@.take(end as int));
        }
        let tok = trim_str(raw);
        match parse_clock_cs(tok.as_str()) {
            Some(v) => Ok(v),
            None => Err(
                AppError::ConversionFailed(String::from_str("Could not determine video duration")),
            ),
        }
    }

    /// Argument list of the probe invocation: inspect the input, producing
    /// no output file, so that the diagnostic stream carries the
    /// `Duration:` line.
    pub fn probe_args(input_path: &str) -> (r: Vec<String>)
        ensures
            r@.len() == 2,
            r@[0]@ == "-i"@,
            r@[1]@ == input_path@,
    {
        let mut v: Vec<String> = Vec::new();
        v.push(String::from_str("-i"));
        v.push(String::from_str(input_path));
        v
    }

    /// Argument list of the conversion invocation: input, the filter graph,
    /// the overwrite flag, machine-readable progress directed to the
    /// diagnostic stream, and the output path.
    pub fn conversion_args(input_path: &str, filter_complex: &str, output_path: &str) -> (r: Vec<
        String,
    >)
        ensures
            r@.len() == 8,
            r@[0]@ == "-i"@,
            r@[1]@ == input_path@,
            r@[2]@ == "-filter_complex"@,
            r@[3]@ == filter_complex@,
            r@[4]@ == "-y"@,
            r@[5]@ == "-progress"@,
            r@[6]@ == "pipe:2"@,
            r@[7]@ == output_path@,
    {
        let mut v: Vec<String> = Vec::new();
        v.push(String::from_str("-i"));
        v.push(String::from_str(input_path));
        v.push(String::from_str("-filter_complex"));
        v.push(String::from_str(filter_complex));
        v.push(String::from_str("-y"));
        v.push(String::from_str("-progress"));
        v.push(String::from_str("pipe:2"));
        v.push(String::from_str(output_path));
        v
    }

    /// Derives the output file path from the input path and the output
    /// directory, as [`spec_output_path`] states.
    pub fn output_path_for(input_path: &str, output_dir: &str) -> (r: String)
        ensures
            r@ == spec_output_path(input_path@, output_dir@),
    {
        let n = input_path.unicode_len();
        let base = match rfind_char(input_path, '/') {
            None => {
                let b = input_path.substring_char(0, n);
                proof {
                    assert(b@ =~= spec_base_name(input_path@));
                }
                b
            },
            Some(i) => {
                let b = input_path.substring_char(i + 1, n);
                proof {
                    assert(b@ =~= spec_base_name(input_path@));
                }
                b
            },
        };
        let bn = base.unicode_len();
        let stem: String = if bn == 0 {
            String::from_str("output")
        } else {
            match rfind_char(base, '.') {
                Some(d) if d > 0 => {
                    let s = base.substring_char(0, d);
                    proof {
                        assert(s@ =~= spec_file_stem(input_path@));
                    }
                    String::from_str(s)
                },
                _ => String::from_str(base),
            }
        };
        let dn = output_dir.unicode_len();
        let mut r: String = String::from_str(output_dir);
        if dn > 0 && output_dir.get_char(dn - 1) != '/' {
            r.append("/");
        }
        r.append(stem.as_str());
        r.append(".gif");
        proof {
            reveal_strlit("/");
            assert(r@ =~= spec_output_path(input_path@, output_dir@));
        }
        r
    }
}

} // verus!
