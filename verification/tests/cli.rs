use installer::cli::{
    complain, confirm, get_choice, join, log, print, put, put_all, silence, Color, Confirm, Line,
    Lvl, Sink, NO, UNKNOWN, YES,
};

#[test]
fn log_keeps_level_and_text() {
    let line = log(Lvl::Warning, "Package already installed: cuda");
    assert_eq!(line.sink, Sink::Log(Lvl::Warning));
    assert_eq!(line.text, "Package already installed: cuda");
}

#[test]
fn log_of_each_level() {
    assert_eq!(log(Lvl::Success, "a").sink, Sink::Log(Lvl::Success));
    assert_eq!(log(Lvl::Error, "b").sink, Sink::Log(Lvl::Error));
    assert_eq!(log(Lvl::Info, "c").sink, Sink::Log(Lvl::Info));
}

#[test]
fn levels_have_their_colours() {
    assert_eq!(Lvl::Warning.color(), Color::Yellow);
    assert_eq!(Lvl::Success.color(), Color::Green);
    assert_eq!(Lvl::Error.color(), Color::Red);
    assert_eq!(Lvl::Info.color(), Color::White);
}

#[test]
fn print_goes_to_standard_output_undressed() {
    let line = print("To fix this error, run the following command:");
    assert_eq!(line.sink, Sink::Stdout);
    assert_eq!(line.text, "To fix this error, run the following command:");
}

#[test]
fn complain_goes_to_standard_error() {
    let line = complain("Failed to check link: timeout");
    assert_eq!(line.sink, Sink::Stderr);
    assert_eq!(line.text, "Failed to check link: timeout");
}

#[test]
fn join_keeps_both_texts_in_order() {
    assert_eq!(join("Running command: ", "ls"), "Running command: ls");
    assert_eq!(join("", "x"), "x");
    assert_eq!(join("x", ""), "x");
}

#[test]
fn silence_is_empty() {
    assert!(silence().is_empty());
}

#[test]
fn put_appends_one_line() {
    let mut lines = silence();
    put(&mut lines, log(Lvl::Info, "one"));
    put(&mut lines, print("two"));
    assert_eq!(lines, vec![log(Lvl::Info, "one"), print("two")]);
}

#[test]
fn put_all_appends_in_order() {
    let mut lines = vec![print("one")];
    put_all(&mut lines, vec![print("two"), print("three")]);
    let texts: Vec<&str> = lines.iter().map(|l: &Line| l.text.as_str()).collect();
    assert_eq!(texts, vec!["one", "two", "three"]);
}

#[test]
fn get_choice_preselects_the_first_item() {
    let menu = get_choice("Recent", "Compatible", "Which one?");
    assert_eq!(menu.prompt, "Which one?");
    assert_eq!(menu.first, "Recent");
    assert_eq!(menu.second, "Compatible");
    assert_eq!(menu.default, 0);
}

#[test]
fn confirm_reads_the_first_item_as_yes() {
    assert_eq!(confirm(0), Confirm::Yes);
}

#[test]
fn confirm_reads_the_second_item_as_no() {
    assert_eq!(confirm(1), Confirm::No);
}

#[test]
fn menu_words() {
    assert_eq!(YES, "Yes");
    assert_eq!(NO, "No");
    assert_eq!(UNKNOWN, "Unknown Error Occurred");
}
