use smoothie::render::{
    preview_pipeline, progress_pipeline, progress_template, Payload, SmCommand, Stream,
};

fn command(ffplay: bool) -> SmCommand {
    SmCommand {
        vs_path: "vspipe".to_string(),
        vs_args: vec!["-c".to_string(), "y4m".to_string()],
        ff_path: "ffmpeg".to_string(),
        ff_args: vec!["-i".to_string(), "-".to_string()],
        ffplay_path: if ffplay { Some("ffplay".to_string()) } else { None },
        ffplay_args: if ffplay { Some(vec!["-".to_string()]) } else { None },
        payload: Payload { basename: "clip".to_string(), in_path: "clip.mp4".to_string() },
    }
}

#[test]
fn pipeline_without_preview() {
    for (enabled, ffplay) in [(false, true), (true, false), (false, false)] {
        let stages = preview_pipeline(command(ffplay), enabled);
        assert_eq!(stages.len(), 2);
        assert_eq!(stages[0].program, "vspipe");
        assert_eq!(stages[0].args, vec!["-c", "y4m"]);
        assert!(!stages[0].stdin_from_previous);
        assert_eq!(stages[0].stdout, Stream::Piped);
        assert_eq!(stages[1].program, "ffmpeg");
        assert!(stages[1].stdin_from_previous);
        assert_eq!(stages[1].stdout, Stream::Inherit);
    }
}

#[test]
fn pipeline_with_preview() {
    let stages = preview_pipeline(command(true), true);
    assert_eq!(stages.len(), 3);
    assert_eq!(stages[1].stdout, Stream::Piped);
    assert_eq!(stages[2].program, "ffplay");
    assert_eq!(stages[2].args, vec!["-"]);
    assert!(stages[2].stdin_from_previous);
    assert_eq!(stages[2].stdout, Stream::Inherit);
}

#[test]
fn pipeline_with_progress() {
    let stages = progress_pipeline(command(false));
    assert_eq!(stages.len(), 2);
    assert_eq!(stages[0].stderr, Stream::Piped);
    assert_eq!(stages[1].stderr, Stream::Null);
    assert_eq!(stages[1].stdout, Stream::Inherit);
    assert!(stages[1].stdin_from_previous);
}

#[test]
fn template_names_the_job() {
    assert_eq!(
        progress_template("clip"),
        " [clip] {wide_bar:.cyan/blue} {percent}% | ETA: {eta_precise}"
    );
}
