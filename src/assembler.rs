//! Video assembly: the instruction list for the external encoder, its
//! arguments, where it is found, and how its exit is read.

use vstd::prelude::*;
use crate::records::ScreenshotTrace;

verus! {

/// Why a video could not be assembled.
#[derive(Debug, Clone, PartialEq, Eq)]
pub enum AssembleError {
    /// There was no image to assemble.
    NoImages,
    /// No known installation of the encoder answered a version probe.
    EncoderNotFound { tried: Vec<String> },
    /// The instruction list could not be written.
    ListWriteFailed { detail: String },
    /// The encoder could not be started.
    EncoderLaunchFailed { detail: String },
    /// The encoder exited with a failure; its diagnostic output.
    EncodeFailure { diagnostics: String },
}

/// The views of a sequence of strings.
pub open spec fn views(s: Seq<String>) -> Seq<Seq<char>> {
    s.map_values(|x: String| x@)
}

/// Where the encoder may be installed, probed in this order.
pub open spec fn encoder_candidates_spec(is_macos: bool) -> Seq<Seq<char>> {
    if is_macos {
        seq!["ffmpeg"@, "/usr/local/bin/ffmpeg"@, "/opt/homebrew/bin/ffmpeg"@]
    } else {
        seq!["ffmpeg"@]
    }
}

/// Where the encoder may be installed, probed in this order.
pub fn encoder_candidates(is_macos: bool) -> (r: Vec<String>)
    ensures
        views(r@) == encoder_candidates_spec(is_macos),
{
    let mut r: Vec<String> = Vec::new();
    r.push(String::from_str("ffmpeg"));
    if is_macos {
        r.push(String::from_str("/usr/local/bin/ffmpeg"));
        r.push(String::from_str("/opt/homebrew/bin/ffmpeg"));
    }
    assert(views(r@) =~= encoder_candidates_spec(is_macos));
    r
}

/// Picks the first candidate whose probe answered. `responded[i]` is the
/// outcome of probing `candidates[i]`; probing may stop at the first answer,
/// so `responded` may be shorter than `candidates`.
pub fn select_encoder(candidates: &Vec<String>, responded: &Vec<bool>) -> (r: Result<
    String,
    AssembleError,
>)
    requires
        responded@.len() <= candidates@.len(),
    ensures
        match r {
            Ok(c) => exists|i: int|
                0 <= i < responded@.len() && responded@[i] && c@ == candidates@[i]@ && forall|
                    k: int,
                | 0 <= k < i ==> !#[trigger] responded@[k],
            Err(e) => (forall|k: int| 0 <= k < responded@.len() ==> !#[trigger] responded@[k]) && (
            e matches AssembleError::EncoderNotFound { tried } && views(tried@) == views(
                candidates@,
            )),
        },
{
    let mut i: usize = 0;
    while i < responded.len()
        invariant
            i <= responded@.len() <= candidates@.len(),
            forall|k: int| 0 <= k < i ==> !#[trigger] responded@[k],
        decreases responded@.len() - i,
    {
        if responded[i] {
            return Ok(candidates[i].clone());
        }
        i = i + 1;
    }
    let mut tried: Vec<String> = Vec::new();
    let mut j: usize = 0;
    while j < candidates.len()
        invariant
            j <= candidates@.len(),
            tried@.len() == j,
            forall|k: int| 0 <= k < j ==> (#[trigger] tried@[k])@ == candidates@[k]@,
        decreases candidates@.len() - j,
    {
        tried.push(candidates[j].clone());
        j = j + 1;
    }
    assert(views(tried@) =~= views(candidates@));
    Err(AssembleError::EncoderNotFound { tried })
}

/// The file paths of the frames, in frame order.
pub fn frame_paths(frames: &Vec<ScreenshotTrace>) -> (r: Vec<String>)
    ensures
        r@.len() == frames@.len(),
        forall|i: int| 0 <= i < r@.len() ==> (#[trigger] r@[i])@ == frames@[i].file_path@,
{
    let mut r: Vec<String> = Vec::new();
    let mut i: usize = 0;
    while i < frames.len()
        invariant
            i <= frames@.len(),
            r@.len() == i,
            forall|k: int| 0 <= k < i ==> (#[trigger] r@[k])@ == frames@[k].file_path@,
        decreases frames@.len() - i,
    {
        r.push(frames[i].file_path.clone());
        i = i + 1;
    }
    r
}

/// The lines naming one image and how long it is shown.
pub open spec fn list_entry(path: Seq<char>, duration: Seq<char>) -> Seq<char> {
    "file '"@ + path + "'\n"@ + "duration "@ + duration + "\n"@
}

/// The entries of the first images of a list, in order.
pub open spec fn list_entries(paths: Seq<String>, duration: Seq<char>) -> Seq<char>
    decreases paths.len(),
{
    if paths.len() == 0 {
        Seq::empty()
    } else {
        list_entries(paths.drop_last(), duration) + list_entry(paths.last()@, duration)
    }
}

/// The encoder's instruction list: each image with its duration, then the
/// final image named once more, as the concatenation input requires.
pub open spec fn concat_list_spec(paths: Seq<String>, duration: Seq<char>) -> Seq<char> {
    list_entries(paths, duration) + "file '"@ + paths.last()@ + "'\n"@
}

/// Builds the encoder's instruction list for images shown `frame_duration`
/// seconds each (the decimal text of `1/fps`). Fails with `NoImages` when
/// there is no image.
pub fn concat_list(paths: &Vec<String>, frame_duration: &str) -> (r: Result<String, AssembleError>)
    ensures
        paths@.len() == 0 ==> r == Err::<String, AssembleError>(AssembleError::NoImages),
        paths@.len() > 0 ==> (r matches Ok(l) && l@ == concat_list_spec(paths@, frame_duration@)),
{
    if paths.len() == 0 {
        return Err(AssembleError::NoImages);
    }
    let mut l = String::new();
    let mut i: usize = 0;
    while i < paths.len()
        invariant
            i <= paths@.len(),
            l@ == list_entries(paths@.subrange(0, i as int), frame_duration@),
        decreases paths@.len() - i,
    {
        l.append("file '");
        l.append(paths[i].as_str());
        l.append("'\n");
        l.append("duration ");
        l.append(frame_duration);
        l.append("\n");
        proof {
            let s = paths@.subrange(0, i + 1);
            assert(s.drop_last() =~= paths@.subrange(0, i as int));
            assert(l@ =~= list_entries(s, frame_duration@));
        }
        i = i + 1;
    }
    assert(paths@.subrange(0, i as int) =~= paths@);
    let last = paths.len() - 1;
    l.append("file '");
    l.append(paths[last].as_str());
    l.append("'\n");
    assert(l@ =~= concat_list_spec(paths@, frame_duration@));
    Ok(l)
}

/// The downscale-and-letterbox filter applied to every video.
pub open spec fn scale_filter() -> Seq<char> {
    "scale=640:360:force_original_aspect_ratio=decrease,pad=640:360:(ow-iw)/2:(oh-ih)/2"@
}

/// The encoder's arguments: read the instruction list, downscale and
/// letterbox to 640x360, encode H.264 at constant quality 23 in yuv420p at
/// `fps` frames per second, and overwrite `output_path`.
pub open spec fn encoder_args_spec(list_path: Seq<char>, output_path: Seq<char>, fps: Seq<char>) -> Seq<
    Seq<char>,
> {
    seq![
        "-f"@,
        "concat"@,
        "-safe"@,
        "0"@,
        "-i"@,
        list_path,
        "-vf"@,
        scale_filter(),
        "-c:v"@,
        "libx264"@,
        "-preset"@,
        "fast"@,
        "-crf"@,
        "23"@,
        "-pix_fmt"@,
        "yuv420p"@,
        "-r"@,
        fps,
        "-y"@,
        output_path,
    ]
}

/// The encoder's arguments for an instruction list and an output file.
pub fn encoder_args(list_path: &str, output_path: &str, fps: u32) -> (r: Vec<String>)
    ensures
        views(r@) == encoder_args_spec(list_path@, output_path@, crate::text::decimal(fps as nat)),
{
    let mut r: Vec<String> = Vec::new();
    r.push(String::from_str("-f"));
    r.push(String::from_str("concat"));
    r.push(String::from_str("-safe"));
    r.push(String::from_str("0"));
    r.push(String::from_str("-i"));
    r.push(String::from_str(list_path));
    r.push(String::from_str("-vf"));
    r.push(
        String::from_str(
            "scale=640:360:force_original_aspect_ratio=decrease,pad=640:360:(ow-iw)/2:(oh-ih)/2",
        ),
    );
    r.push(String::from_str("-c:v"));
    r.push(String::from_str("libx264"));
    r.push(String::from_str("-preset"));
    r.push(String::from_str("fast"));
    r.push(String::from_str("-crf"));
    r.push(String::from_str("23"));
    r.push(String::from_str("-pix_fmt"));
    r.push(String::from_str("yuv420p"));
    r.push(String::from_str("-r"));
    r.push(crate::text::decimal_string(fps as u64));
    r.push(String::from_str("-y"));
    r.push(String::from_str(output_path));
    assert(views(r@) =~= encoder_args_spec(list_path@, output_path@, crate::text::decimal(fps as nat)));
    r
}

/// Reads the encoder's exit: success, or `EncodeFailure` carrying its
/// diagnostic output.
pub fn encode_result(exit_success: bool, diagnostics: String) -> (r: Result<(), AssembleError>)
    ensures
        exit_success ==> r is Ok,
        !exit_success ==> (r matches Err(AssembleError::EncodeFailure { diagnostics: d }) && d@
            == diagnostics@),
{
    if exit_success {
        Ok(())
    } else {
        Err(AssembleError::EncodeFailure { diagnostics })
    }
}

} // verus!
