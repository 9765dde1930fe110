use linux_setup::text::{
    chars_of, concat_text, contains_text, join, lines, owned, same_text, string_of, text_starts_with,
    text_strip_suffix, without_char,
};

fn strings(items: &[&str]) -> Vec<String> {
    items.iter().map(|s| s.to_string()).collect()
}

#[test]
fn lines_split_at_line_feeds() {
    assert_eq!(lines("a\nb\nc"), strings(&["a", "b", "c"]));
}

#[test]
fn lines_drop_a_final_line_ending() {
    assert_eq!(lines("a\nb\n"), strings(&["a", "b"]));
    assert_eq!(lines(""), Vec::<String>::new());
    assert_eq!(lines("\n"), strings(&[""]));
}

#[test]
fn lines_drop_carriage_return_before_line_feed_only() {
    assert_eq!(lines("a\r\nb\r"), strings(&["a", "b\r"]));
    assert_eq!(lines("x\r\r\ny"), strings(&["x\r", "y"]));
}

#[test]
fn lines_agree_with_std() {
    for s in ["", "a", "a\n", "\n\n", "a\r\nb\n\r\nc\r", "héllo\nwörld"] {
        let ours = lines(s);
        let std_lines: Vec<String> = s.lines().map(|l| l.to_string()).collect();
        assert_eq!(ours, std_lines, "{:?}", s);
    }
}

#[test]
fn join_puts_separator_between() {
    assert_eq!(join(&strings(&["a", "b", "c"]), ","), "a,b,c");
    assert_eq!(join(&strings(&["only"]), ","), "only");
    assert_eq!(join(&Vec::new(), ","), "");
}

#[test]
fn substring_search() {
    let hay = chars_of("en_US.UTF-8 UTF-8");
    assert!(contains_text(&hay, &chars_of("US.UTF")));
    assert!(contains_text(&hay, &chars_of("")));
    assert!(!contains_text(&hay, &chars_of("de_DE")));
    assert!(!contains_text(&chars_of("ab"), &chars_of("abc")));
}

#[test]
fn removing_a_character() {
    assert_eq!(without_char(&chars_of("#en_US #x#"), '#'), "en_US x");
}

#[test]
fn small_string_helpers() {
    assert_eq!(owned("abc"), "abc");
    assert_eq!(concat_text("ab", "cd"), "abcd");
    assert_eq!(string_of(&chars_of("hello"), 1, 4), "ell");
    assert!(same_text("root", "root"));
    assert!(!same_text("root", "roots"));
    assert!(text_starts_with("hypr/hyprland.conf", "hypr"));
    assert!(!text_starts_with("kitty", "kitty/x"));
    assert_eq!(text_strip_suffix("~/.config/hypr", "hypr"), Some("~/.config/".to_string()));
    assert_eq!(text_strip_suffix("~/.config/hypr", "nvim"), None);
}
