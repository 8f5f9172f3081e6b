use plugin_host::command::{launch_reply, open_url, plan_launch, Launch};
use plugin_host::shortcut::{on_shortcut, ShortcutState};
use plugin_host::text::{chars_of, ends_with, find_char, skip_char, starts_with};
use plugin_host::window::{on_focus_change, WindowAction};
use std::cell::RefCell;
use std::rc::Rc;

fn opened(line: &str) -> String {
    match plan_launch(line) {
        Launch::Open(url) => url,
        Launch::Refuse(reason) => panic!("refused: {}", reason),
    }
}

fn refused(line: &str) -> String {
    match plan_launch(line) {
        Launch::Refuse(reason) => reason,
        Launch::Open(url) => panic!("opened: {}", url),
    }
}

#[test]
fn google_opens_the_search_engine() {
    assert_eq!(opened("google"), "https://www.google.com");
    assert_eq!(opened(">google"), "https://www.google.com");
    assert_eq!(opened(">>>google"), "https://www.google.com");
    assert_eq!(opened("google anything at all"), "https://www.google.com");
}

#[test]
fn wiki_opens_the_page_of_its_term() {
    assert_eq!(opened(">wiki Rust"), "https://en.wikipedia.org/wiki/Rust");
    assert_eq!(opened("wiki Alan Turing"), "https://en.wikipedia.org/wiki/Alan Turing");
    assert_eq!(opened("wiki "), "https://en.wikipedia.org/wiki/");
    assert_eq!(opened("wiki  x"), "https://en.wikipedia.org/wiki/ x");
    assert_eq!(opened("wiki >x"), "https://en.wikipedia.org/wiki/>x");
    assert_eq!(opened("wiki caf\u{e9}"), "https://en.wikipedia.org/wiki/caf\u{e9}");
}

#[test]
fn wiki_needs_a_term() {
    assert_eq!(refused("wiki"), "Missing search term for wiki command");
    assert_eq!(refused(">wiki"), "Missing search term for wiki command");
}

#[test]
fn other_commands_are_unknown() {
    assert_eq!(refused("bing x"), "Unknown command: bing");
    assert_eq!(refused(""), "Unknown command: ");
    assert_eq!(refused(">"), "Unknown command: ");
    assert_eq!(refused(" google"), "Unknown command: ");
    assert_eq!(refused("Google"), "Unknown command: Google");
    assert_eq!(refused("> google"), "Unknown command: ");
    assert_eq!(refused("goo>gle"), "Unknown command: goo>gle");
    assert_eq!(refused("wikia x"), "Unknown command: wikia");
}

#[test]
fn replies() {
    assert_eq!(launch_reply("https://www.google.com", true), Ok("Opened https://www.google.com".to_string()));
    assert_eq!(launch_reply("https://www.google.com", false), Err("Failed to open URL".to_string()));
}

#[test]
fn open_url_opens_what_the_table_gives() {
    let asked: Rc<RefCell<Vec<String>>> = Rc::new(RefCell::new(Vec::new()));
    let sink = asked.clone();
    let reply = open_url(">wiki Verus", move |url: String| {
        sink.borrow_mut().push(url);
        true
    });
    assert_eq!(reply, Ok("Opened https://en.wikipedia.org/wiki/Verus".to_string()));
    assert_eq!(*asked.borrow(), vec!["https://en.wikipedia.org/wiki/Verus".to_string()]);
}

#[test]
fn open_url_reports_a_failed_open() {
    let reply = open_url("google", |_url: String| false);
    assert_eq!(reply, Err("Failed to open URL".to_string()));
}

#[test]
fn open_url_does_not_open_for_a_refusal() {
    let calls: Rc<RefCell<usize>> = Rc::new(RefCell::new(0));
    let counter = calls.clone();
    let reply = open_url("nope", move |_url: String| {
        *counter.borrow_mut() += 1;
        true
    });
    assert_eq!(reply, Err("Unknown command: nope".to_string()));
    assert_eq!(*calls.borrow(), 0);
}

#[test]
fn shortcut_press_toggles_the_window() {
    assert_eq!(on_shortcut(ShortcutState::Pressed, true, true), vec![WindowAction::Hide]);
    assert_eq!(on_shortcut(ShortcutState::Pressed, true, false), vec![WindowAction::Hide]);
    assert_eq!(
        on_shortcut(ShortcutState::Pressed, false, true),
        vec![WindowAction::Show, WindowAction::Focus]
    );
    assert_eq!(
        on_shortcut(ShortcutState::Pressed, false, false),
        vec![WindowAction::Show, WindowAction::PinOnTop, WindowAction::Focus]
    );
}

#[test]
fn shortcut_release_does_nothing() {
    assert!(on_shortcut(ShortcutState::Released, true, false).is_empty());
    assert!(on_shortcut(ShortcutState::Released, false, false).is_empty());
}

#[test]
fn window_hides_when_it_loses_focus() {
    assert_eq!(on_focus_change(false, true), Some(WindowAction::Hide));
    assert_eq!(on_focus_change(false, false), None);
    assert_eq!(on_focus_change(true, true), None);
    assert_eq!(on_focus_change(true, false), None);
}

#[test]
fn text_helpers() {
    let text = chars_of(">>ab c");
    assert_eq!(text, vec!['>', '>', 'a', 'b', ' ', 'c']);
    assert_eq!(skip_char(&text, '>', 0), 2);
    assert_eq!(skip_char(&text, '>', 3), 3);
    assert_eq!(find_char(&text, ' ', 0), 4);
    assert_eq!(find_char(&text, ' ', 5), 6);
    assert_eq!(find_char(&text, 'z', 0), 6);
    assert!(starts_with(&text, &chars_of(">>a")));
    assert!(starts_with(&text, &chars_of("")));
    assert!(!starts_with(&text, &chars_of(">a")));
    assert!(!starts_with(&chars_of("ab"), &chars_of("abc")));
    assert!(ends_with(&text, &chars_of("b c")));
    assert!(ends_with(&text, &chars_of("")));
    assert!(!ends_with(&text, &chars_of("bc")));
    assert!(!ends_with(&chars_of("c"), &chars_of(" c")));
}
