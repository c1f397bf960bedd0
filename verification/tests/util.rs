use binup::util::{format_list, format_multiline, join, unique, unknown_names};

fn strings(items: &[&str]) -> Vec<String> {
    items.iter().map(|item| item.to_string()).collect()
}

#[test]
fn format_list_puts_each_item_on_a_line() {
    assert_eq!(format_list(&strings(&["a", "b"])), "\n* a\n* b");
    assert_eq!(format_list(&strings(&["only"])), "\n* only");
}

#[test]
fn format_list_of_nothing_is_a_lone_bullet() {
    assert_eq!(format_list(&Vec::new()), "\n* ");
}

#[test]
fn format_multiline_keeps_a_single_line_on_the_line() {
    assert_eq!(format_multiline("error \n\t "), " error");
    assert_eq!(format_multiline(""), " ");
}

#[test]
fn format_multiline_moves_several_lines_below() {
    assert_eq!(format_multiline("one\ntwo\n"), "\none\ntwo");
}

#[test]
fn format_multiline_trims_unicode_white_space() {
    assert_eq!(format_multiline("text\u{a0}\u{2003}\u{3000}\u{85}"), " text");
    assert_eq!(format_multiline("text\u{200b}"), " text\u{200b}");
}

#[test]
fn join_puts_the_separator_between_items() {
    assert_eq!(join(&strings(&["a", "b", "c"]), ", "), "a, b, c");
    assert_eq!(join(&strings(&["a"]), ", "), "a");
    assert_eq!(join(&strings(&[]), ", "), "");
    assert_eq!(join(&strings(&["", ""]), "-"), "-");
}

#[test]
fn unique_keeps_the_first_of_each_name() {
    assert_eq!(unique(&strings(&["b", "a", "b", "c", "a"])), strings(&["b", "a", "c"]));
    assert_eq!(unique(&strings(&[])), strings(&[]));
}

#[test]
fn unknown_names_are_those_not_known() {
    let known = strings(&["a", "b"]);
    assert_eq!(unknown_names(&known, &strings(&["c", "a", "d", "c"])), strings(&["c", "d", "c"]));
    assert_eq!(unknown_names(&known, &strings(&["b", "a"])), strings(&[]));
}
