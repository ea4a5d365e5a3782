use smoothie::cli::{crash_report, launch_mode, CrashLocation, LaunchMode};

#[test]
fn first_words() {
    for w in ["enc", "encoding", "presets", "encpresets", "macros"] {
        assert_eq!(launch_mode(w), LaunchMode::OpenEncodingPresets);
    }
    for w in ["rc", "recipe", "conf", "config"] {
        assert_eq!(launch_mode(w), LaunchMode::OpenRecipe);
    }
    for w in ["root", "dir", "folder"] {
        assert_eq!(launch_mode(w), LaunchMode::ShowDirectory);
    }
    for w in ["!!", "-!!", "--!!", "-rerun", "--rerun"] {
        assert_eq!(launch_mode(w), LaunchMode::Rerun);
    }
    for w in ["", "-i", "Enc", "rerun", "video.mp4"] {
        assert_eq!(launch_mode(w), LaunchMode::Run);
    }
}

#[test]
fn crash_report_with_location() {
    let loc = Some(CrashLocation {
        file: "src/main.rs".to_string(),
        line: "12".to_string(),
        column: "5".to_string(),
    });
    let args = vec!["sm".to_string(), "-i".to_string()];
    let text = crash_report("boom", &loc, &format!("{args:?}"));
    let expected = format!(
        r#"Error message:
{msg}

Location in source:
{file}:{line}:{column}

Arguments passed:
{args:?}

Note: If your PC is still going BRRR the video might still be rendering :)

If you'd like help, take a screenshot of this message and your recipe and come over to discord.gg/CTT and make a post in #support
                    "#,
        msg = "boom",
        file = "src/main.rs",
        line = "12",
        column = "5",
        args = args
    );
    assert_eq!(text, expected);
}

#[test]
fn crash_report_without_location() {
    let text = crash_report("Unknown panic payload", &None, "[]");
    assert!(text.starts_with("Error message:\nUnknown panic payload\n\nLocation in source:\n?:?:?\n\nArguments passed:\n[]\n\n"));
}
