use smoothie::replay::{replay_content, replay_lines};

fn strings(v: &[&str]) -> Vec<String> {
    v.iter().map(|s| s.to_string()).collect()
}

#[test]
fn content_has_one_line_per_argument() {
    let args = strings(&["smoothie", "-i", "clip one.mp4"]);
    assert_eq!(replay_content(&args), "smoothie\n-i\nclip one.mp4\n");
}

#[test]
fn content_of_no_arguments_is_empty() {
    assert_eq!(replay_content(&Vec::new()), "");
}

#[test]
fn lines_follow_std_lines() {
    let text = "foo\r\nbar\n\nbaz\r";
    let expected: Vec<String> = text.lines().map(|s| s.to_string()).collect();
    assert_eq!(replay_lines(text), expected);
    assert_eq!(replay_lines(text), strings(&["foo", "bar", "", "baz\r"]));
}

#[test]
fn lines_of_empty_and_single_newline() {
    assert_eq!(replay_lines(""), Vec::<String>::new());
    assert_eq!(replay_lines("\n"), strings(&[""]));
    assert_eq!(replay_lines("a"), strings(&["a"]));
    assert_eq!(replay_lines("a\n"), strings(&["a"]));
}

#[test]
fn replayed_arguments_come_back() {
    let args = strings(&["smoothie", "--ov", "flowblur;amount;40", "", "é ü"]);
    assert_eq!(replay_lines(&replay_content(&args)), args);
}

#[test]
fn argument_with_line_feed_does_not_come_back() {
    let args = strings(&["a\nb"]);
    assert_eq!(replay_lines(&replay_content(&args)), strings(&["a", "b"]));
    let args = strings(&["a\r"]);
    assert_eq!(replay_lines(&replay_content(&args)), strings(&["a"]));
}
