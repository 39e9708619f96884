use clarity::assembler::{
    concat_list, encode_result, encoder_args, encoder_candidates, select_encoder, AssembleError,
};

#[test]
fn instruction_list_repeats_last_image() {
    let paths = vec!["/a/1.jpg".to_string(), "/a/2.jpg".to_string()];
    assert_eq!(
        concat_list(&paths, "0.5").unwrap(),
        "file '/a/1.jpg'\nduration 0.5\nfile '/a/2.jpg'\nduration 0.5\nfile '/a/2.jpg'\n"
    );
}

#[test]
fn no_images_is_an_error() {
    assert_eq!(concat_list(&vec![], "1"), Err(AssembleError::NoImages));
}

#[test]
fn encoder_found_at_first_answering_path() {
    let c = encoder_candidates(true);
    assert_eq!(c, vec!["ffmpeg", "/usr/local/bin/ffmpeg", "/opt/homebrew/bin/ffmpeg"]);
    assert_eq!(encoder_candidates(false), vec!["ffmpeg"]);
    assert_eq!(select_encoder(&c, &vec![false, true]), Ok("/usr/local/bin/ffmpeg".to_string()));
    assert_eq!(
        select_encoder(&c, &vec![false, false, false]),
        Err(AssembleError::EncoderNotFound { tried: c.clone() })
    );
}

#[test]
fn encoder_arguments() {
    let a = encoder_args("/tmp/list.txt", "/v/out.mp4", 1);
    assert_eq!(
        a,
        vec![
            "-f", "concat", "-safe", "0", "-i", "/tmp/list.txt", "-vf",
            "scale=640:360:force_original_aspect_ratio=decrease,pad=640:360:(ow-iw)/2:(oh-ih)/2",
            "-c:v", "libx264", "-preset", "fast", "-crf", "23", "-pix_fmt", "yuv420p", "-r", "1",
            "-y", "/v/out.mp4",
        ]
    );
    assert_eq!(encoder_args("l", "o", 30)[17], "30");
}

#[test]
fn encoder_exit_is_read() {
    assert_eq!(encode_result(true, String::new()), Ok(()));
    assert_eq!(
        encode_result(false, "bad input".to_string()),
        Err(AssembleError::EncodeFailure { diagnostics: "bad input".to_string() })
    );
}
