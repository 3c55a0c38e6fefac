//! Executable locator: the decision logic of the ordered fallback chain that
//! resolves a usable encoder binary. The driver performs the filesystem
//! probes (does a candidate exist? what did the `PATH` lookup print?) and
//! hands the observations to these functions.

use vstd::prelude::*;

use crate::error::AppError;
use crate::text::{find_char, spec_find_char, spec_trim, trim_str};

verus! {

/// Platform-specific binary name of the encoder.
pub open spec fn spec_encoder_binary_name(windows: bool) -> Seq<char> {
    if windows {
        "ffmpeg.exe"@
    } else {
        "ffmpeg"@
    }
}

/// Returns the encoder's binary name, with the `.exe` suffix on Windows.
pub fn encoder_binary_name(windows: bool) -> (r: &'static str)
    ensures
        r@ == spec_encoder_binary_name(windows),
{
    if windows {
        "ffmpeg.exe"
    } else {
        "ffmpeg"
    }
}

/// Path separator of the platform.
pub open spec fn spec_sep(windows: bool) -> Seq<char> {
    if windows {
        "\\"@
    } else {
        "/"@
    }
}

/// The two bundled candidate paths, in the order they are tried:
/// `<resources>/binaries/<name>` first, `<resources>/<name>` second.
pub open spec fn spec_candidate_paths(resource_dir: Seq<char>, windows: bool) -> Seq<Seq<char>> {
    let name = spec_encoder_binary_name(windows);
    let sep = spec_sep(windows);
    seq![
        resource_dir + sep + "binaries"@ + sep + name,
        resource_dir + sep + name,
    ]
}

/// Builds the bundled candidate paths for the resource directory.
pub fn candidate_paths(resource_dir: &str, windows: bool) -> (r: Vec<String>)
    ensures
        r@.len() == 2,
        r@[0]@ == spec_candidate_paths(resource_dir@, windows)[0],
        r@[1]@ == spec_candidate_paths(resource_dir@, windows)[1],
{
    let sep = if windows {
        "\\"
    } else {
        "/"
    };
    let name = encoder_binary_name(windows);
    let mut first = String::from_str(resource_dir);
    first.append(sep);
    first.append("binaries");
    first.append(sep);
    first.append(name);
    let mut second = String::from_str(resource_dir);
    second.append(sep);
    second.append(name);
    let mut v: Vec<String> = Vec::new();
    v.push(first);
    v.push(second);
    v
}

/// The cleaned result of a `PATH` lookup (`which`/`where`): the first output
/// line, trimmed; `None` when that line is empty.
pub open spec fn spec_lookup_path(out: Seq<char>) -> Option<Seq<char>> {
    let j = spec_find_char(out, '\n');
    let line = if j < 0 {
        out
    } else {
        out.take(j)
    };
    let t = spec_trim(line);
    if t.len() == 0 {
        None
    } else {
        Some(t)
    }
}

/// Cleans the captured output of a `PATH` lookup, as [`spec_lookup_path`]
/// states.
pub fn lookup_path(out: &str) -> (r: Option<String>)
    ensures
        match r {
            Some(p) => spec_lookup_path(out@) == Some(p@),
            None => spec_lookup_path(out@) is None,
        },
{
    let n = out.unicode_len();
    let line = match find_char(out, '\n') {
        None => out.substring_char(0, n),
        Some(j) => out.substring_char(0, j),
    };
    proof {
        if spec_find_char(out@, '\n') < 0 {
            assert(line@ =~= out@);
        }
    }
    let t = trim_str(line);
    if t.as_str().unicode_len() == 0 {
        None
    } else {
        Some(t)
    }
}

/// Index of the first existing candidate at or after `from`, or `None`.
pub open spec fn spec_first_existing_at(exists: Seq<bool>, from: int) -> int
    decreases exists.len() - from,
    when 0 <= from
{
    if from >= exists.len() {
        -1
    } else if exists[from] {
        from
    } else {
        spec_first_existing_at(exists, from + 1)
    }
}

/// First index at or after `from` whose candidate exists.
fn first_existing_from(exists: &Vec<bool>, from: usize) -> (r: Option<usize>)
    requires
        from <= exists@.len(),
    ensures
        match r {
            Some(i) => spec_first_existing_at(exists@, from as int) == i && i < exists@.len()
                && exists@[i as int],
            None => spec_first_existing_at(exists@, from as int) == -1,
        },
    decreases exists@.len() - from,
{
    if from >= exists.len() {
        None
    } else if exists[from] {
        Some(from)
    } else {
        first_existing_from(exists, from + 1)
    }
}

/// Resolves the encoder path by the ordered fallback chain: the first
/// candidate observed to exist wins; otherwise a successful `PATH` lookup
/// with a non-empty first line wins; otherwise the error `FfmpegNotFound`.
///
/// `exists[i]` records whether `candidates[i]` was observed to exist;
/// `lookup_output` is the captured output of a successful `PATH` lookup, or
/// `None` when that lookup failed or was not available.
pub fn select_encoder(candidates: &Vec<String>, exists: &Vec<bool>, lookup_output: Option<&str>) -> (r:
    Result<String, AppError>)
    requires
        candidates@.len() == exists@.len(),
    ensures
        match r {
            Ok(p) => {
                let f = spec_first_existing_at(exists@, 0);
                if f >= 0 {
                    p@ == candidates@[f]@
                } else {
                    lookup_output is Some && spec_lookup_path(lookup_output->Some_0@) == Some(p@)
                }
            },
            Err(e) => spec_first_existing_at(exists@, 0) == -1 && (lookup_output is None
                || spec_lookup_path(lookup_output->Some_0@) is None) && (e matches
                AppError::FfmpegNotFound(m) && m@
                == "FFmpeg not found. Please ensure it is installed or bundled with the app."@),
        },
{
    match first_existing_from(exists, 0) {
        Some(i) => Ok(candidates[i].clone()),
        None => {
            let found = match lookup_output {
                Some(out) => lookup_path(out),
                None => None,
            };
            match found {
                Some(p) => Ok(p),
                None => Err(
                    AppError::FfmpegNotFound(
                        String::from_str(
                            "FFmpeg not found. Please ensure it is installed or bundled with the app.",
                        ),
                    ),
                ),
            }
        },
    }
}

} // verus!
