use smoothie::progress::{chunk_action_of, ProgressAction, ProgressTracker};

#[test]
fn first_counter_sets_length_then_only_position() {
    let mut t = ProgressTracker::new();
    assert!(!t.length_known);
    assert_eq!(
        t.step("Frame: 10/200\r"),
        Some(ProgressAction::Advance { length: Some(200), position: 10 })
    );
    assert!(t.length_known);
    assert_eq!(
        t.step("Frame: 11/200 (3.5 fps)\r"),
        Some(ProgressAction::Advance { length: None, position: 11 })
    );
    assert!(t.length_known);
}

#[test]
fn end_word_finishes() {
    let mut t = ProgressTracker::new();
    assert_eq!(t.step("Output 200 frames in 3.2 seconds\r"), Some(ProgressAction::Finish));
    assert!(!t.length_known);
    assert_eq!(t.step("Frame: 1/2 Output"), Some(ProgressAction::Finish));
}

#[test]
fn other_chunks_skip() {
    let mut t = ProgressTracker::new();
    assert_eq!(t.step("Script evaluation done\r"), Some(ProgressAction::Skip));
    assert_eq!(t.step(""), Some(ProgressAction::Skip));
    assert_eq!(t.step("Frame: /200"), Some(ProgressAction::Skip));
    assert!(!t.length_known);
}

#[test]
fn unreadable_counter_is_refused() {
    let mut t = ProgressTracker::new();
    // too large for 64 bits: the counter cannot be read
    assert_eq!(t.step("Frame: 99999999999999999999/5"), None);
    assert!(!t.length_known);
    // the total is only read while the length is unknown
    assert_eq!(t.step("Frame: 1/99999999999999999999"), None);
    t.length_known = true;
    assert_eq!(
        t.step("Frame: 1/99999999999999999999"),
        Some(ProgressAction::Advance { length: None, position: 1 })
    );
}

#[test]
fn action_from_captures() {
    let groups = Some(vec![Some("Frame: 3/9".to_string()), Some("3".to_string()), Some("9".to_string())]);
    assert_eq!(
        chunk_action_of(false, false, &groups),
        ProgressAction::Advance { length: Some(9), position: 3 }
    );
    assert_eq!(
        chunk_action_of(true, false, &groups),
        ProgressAction::Advance { length: None, position: 3 }
    );
    assert_eq!(chunk_action_of(false, true, &groups), ProgressAction::Finish);
    assert_eq!(chunk_action_of(false, false, &None), ProgressAction::Skip);
}
