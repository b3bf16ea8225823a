use rustjerkbot::command::TransformCommand;
use rustjerkbot::huify::Huify;
use rustjerkbot::transform::TransformText;
use rustjerkbot::dispatch::{reply_target, Dispatcher, ReplyTo};
use rustjerkbot::entities::{Pair, UserData};
use rustjerkbot::render::{TemplateError, TemplateKind, TemplateStore};
use rustjerkbot::schedule::{parse_day, Day, Weekday};

fn member(id: i64, name: &str) -> UserData {
    UserData {
        id,
        first_name: String::from(name),
        last_name: None,
        username: None,
    }
}

const TEMPLATES: &str = "[found]\nold {{first}} with {{second}}\n\n[not-found]\nnobody here\n\n[new]\nline for {{first}}\nline for {{second}}\n";

#[test]
fn templates_load_by_section() {
    let mut store = TemplateStore::new();
    store.load_str(TEMPLATES).unwrap();
    assert_eq!(store.found.len(), 1);
    assert_eq!(store.not_found.len(), 1);
    assert_eq!(store.new.len(), 1);
    assert_eq!(store.found[0], "\nold {{first}} with {{second}}");
    assert_eq!(store.not_found[0], "\nnobody here");
    assert_eq!(store.new[0], "\nline for {{first}}\nline for {{second}}");
}

#[test]
fn templates_reject_unknown_section() {
    let mut store = TemplateStore::new();
    let err = store.load_str("[bogus]\nx\n").unwrap_err();
    match err {
        TemplateError::UnknownSection(s) => assert_eq!(s, "[bogus]"),
        other => panic!("unexpected error: {:?}", other),
    }
    assert_eq!(store.found.len() + store.not_found.len() + store.new.len(), 0);
}

#[test]
fn templates_reject_text_before_section() {
    let mut store = TemplateStore::new();
    let err = store.load_str("stray text\n").unwrap_err();
    assert!(matches!(err, TemplateError::NoSection));
}

#[test]
fn render_substitutes_mentions() {
    let mut store = TemplateStore::new();
    store.load_str(TEMPLATES).unwrap();
    let rendered = store
        .render_template(TemplateKind::Found, "@a", "@b")
        .unwrap()
        .unwrap();
    assert_eq!(rendered, "old @a with @b");
    let err = store.render_template(TemplateKind::NotFound, "@a", "@b").unwrap_err();
    assert!(matches!(err, TemplateError::UnexpectedKind(TemplateKind::NotFound)));
    let empty = TemplateStore::new();
    assert!(empty.render_template(TemplateKind::New, "@a", "@b").unwrap().is_none());
}

#[test]
fn unsupported_template_features_fail_rendering() {
    let mut store = TemplateStore::new();
    store
        .load_str("[new]\n{{ first | upcase }} and {{ second }}\n")
        .unwrap();
    let err = store.render_template(TemplateKind::New, "@a", "@b").unwrap_err();
    assert!(matches!(err, TemplateError::Render));

    let phrases = rustjerkbot::phrases::TemplateStore::new(
        String::from("{% if first %}x{% endif %}"),
        String::from("n"),
        vec![],
        vec![],
    );
    let err = phrases
        .render_template(rustjerkbot::phrases::TemplateKind::Found, "@a", "@b")
        .unwrap_err();
    assert!(matches!(err, rustjerkbot::render::TemplateError::Render));
}

#[test]
fn announcement_for_each_outcome() {
    let mut store = TemplateStore::new();
    store.load_str(TEMPLATES).unwrap();

    let none = store.render_announcement(&None, "@a", "@b").unwrap();
    assert_eq!(none, vec![String::from("\nnobody here")]);

    let mut reused = Pair::new(member(1, "a"), member(2, "b"), 990);
    reused.mark_as_old();
    let lines = store.render_announcement(&Some(reused), "@a", "@b").unwrap();
    assert_eq!(lines, vec![String::from("old @a with @b")]);

    let fresh = Pair::new(member(1, "a"), member(2, "b"), 990);
    let lines = store.render_announcement(&Some(fresh), "@a", "@b").unwrap();
    assert_eq!(
        lines,
        vec![String::from("line for @a"), String::from("line for @b")]
    );

    let empty = TemplateStore::new();
    let fallback = empty.render_announcement(&None, "@a", "@b").unwrap();
    assert_eq!(fallback, vec![String::from("Pair not found")]);
}

#[test]
fn phrase_store_renders_and_bans() {
    let store = rustjerkbot::phrases::TemplateStore::new(
        String::from("back {{first}}"),
        String::from("no pair today"),
        vec![String::from("met {{second}}")],
        vec![5],
    );
    assert!(store.is_user_banned(5));
    assert!(!store.is_user_banned(6));
    assert_eq!(store.get_not_found_message(), "no pair today");
    let found = store
        .render_template(rustjerkbot::phrases::TemplateKind::Found, "@a", "@b")
        .unwrap()
        .unwrap();
    assert_eq!(found, "back @a");
    let fresh = store
        .render_template(rustjerkbot::phrases::TemplateKind::New, "@a", "@b")
        .unwrap()
        .unwrap();
    assert_eq!(fresh, "met @b");
    let empty = rustjerkbot::phrases::TemplateStore::new(
        String::from("f"),
        String::from("n"),
        vec![],
        vec![],
    );
    assert!(empty
        .render_template(rustjerkbot::phrases::TemplateKind::New, "@a", "@b")
        .unwrap()
        .is_none());
}

#[test]
fn dispatcher_preserves_order() {
    let mut d = Dispatcher::new(
        vec![String::from("one"), String::from("two"), String::from("three")],
        2,
    );
    assert_eq!(d.delay_secs, 2);
    assert_eq!(d.remaining(), 3);
    assert_eq!(d.next_line(), Some(String::from("one")));
    assert_eq!(d.next_line(), Some(String::from("two")));
    assert_eq!(d.next_line(), Some(String::from("three")));
    assert_eq!(d.next_line(), None);
    assert_eq!(d.remaining(), 0);
}

#[test]
fn reply_targets() {
    assert_eq!(reply_target(ReplyTo::Incoming, 10, Some(7)), 10);
    assert_eq!(reply_target(ReplyTo::Reply, 10, Some(7)), 7);
    assert_eq!(reply_target(ReplyTo::Reply, 10, None), 10);
}

#[test]
fn day_parsing_and_intervals() {
    assert_eq!(parse_day("*").unwrap(), Day::Any);
    assert_eq!(parse_day("mon").unwrap(), Day::Weekday(Weekday::Mon));
    assert_eq!(parse_day("sun").unwrap(), Day::Weekday(Weekday::Sun));
    let err = parse_day("xyz").unwrap_err();
    assert_eq!(err.message(), "unknown day: xyz");

    assert_eq!(Day::Any.get_loop_interval(), 1);
    assert_eq!(Day::Weekday(Weekday::Fri).get_loop_interval(), 7);
    assert_eq!(Day::Any.get_start_interval(Weekday::Wed), 0);
    assert_eq!(Day::Weekday(Weekday::Mon).get_start_interval(Weekday::Wed), 5);
    assert_eq!(Day::Weekday(Weekday::Wed).get_start_interval(Weekday::Wed), 0);
    assert_eq!(Day::Weekday(Weekday::Sun).get_start_interval(Weekday::Mon), 6);
}

#[test]
fn commands_respond() {
    let huify = TransformCommand::huify();
    assert!(huify.matches_name("/huify"));
    assert!(!huify.matches_name("/arrow"));
    assert_eq!(huify.respond("Андрей"), "хуяндрей");

    let arrow = TransformCommand::arrow();
    assert_eq!(
        arrow.respond("aa"),
        "Text must contain from 3 up to 100 characters"
    );
    assert_eq!(arrow.respond("ab"), "Text must contain from 3 up to 100 characters");
    assert_eq!(arrow.respond("abc"), "<pre>A B C\nB B\nC   C\n\n</pre>");

    let reverse = TransformCommand::reverse();
    assert_eq!(reverse.respond("test"), "tset");
}

#[test]
fn jerkify_composes_its_chain() {
    let jerkify = TransformCommand::jerkify();
    let input = "тест и проверка";
    let h = Huify::new();
    let step1 = h.transform(input).unwrap();
    let step2: String = step1.chars().rev().collect();
    let step3 = h.transform(&step2).unwrap();
    let expected: String = step3.chars().rev().collect();
    assert_eq!(jerkify.transformer.transform(input).unwrap(), expected);
    assert_eq!(jerkify.respond(input), expected);
}

#[test]
fn old_command_surface() {
    let cmd = rustjerkbot::text::TransformCommand::new(7u32);
    assert!(cmd.monospace_reply);
    let cmd = cmd.without_monospace_reply();
    assert!(!cmd.monospace_reply);
    assert_eq!(cmd.transform, 7u32);
    assert_eq!(rustjerkbot::text::transform("abc").unwrap(), "cba");
}
