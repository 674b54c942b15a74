use helix_term::completion::{Completion, CompletionMenu, MenuFilter};
use helix_term::docs::{doc_area, doc_placement, language_of, DocPlacement};
use helix_term::edit::{item_to_transaction, on_prompt_event, CompletionChange, PromptEvent};
use helix_term::geometry::{Position, Rect};
use helix_term::input::{Event, KeyCode, KeyEvent, KeyModifiers};
use helix_term::item::{
    CompletionItem, CompletionTextEdit, Documentation, LspPosition, LspRange, MarkupContent,
    MarkupKind, TextEdit,
};
use helix_term::popup::PopupEventResult;

#[derive(Default)]
struct RecordingMenu {
    options: Vec<String>,
    items: Vec<String>,
    scored: Vec<String>,
    cleared: bool,
}

impl CompletionMenu for RecordingMenu {
    fn filter_state(&self) -> MenuFilter {
        unreachable!("a specification function is not called at run time")
    }

    fn no_items(&self) -> bool {
        self.items.is_empty()
    }

    fn matches_none(&self, _pattern: vstd::seq::Seq<char>) -> bool {
        unreachable!("a specification function is not called at run time")
    }

    fn score(&mut self, pattern: &str) {
        self.scored.push(pattern.to_string());
        self.items = self.options.iter().filter(|i| i.starts_with(pattern)).cloned().collect();
    }

    fn clear(&mut self) {
        self.cleared = true;
        self.items.clear();
    }

    fn is_empty(&self) -> bool {
        self.items.is_empty()
    }
}

fn menu(items: &[&str]) -> RecordingMenu {
    let options: Vec<String> = items.iter().map(|s| s.to_string()).collect();
    RecordingMenu { items: options.clone(), options, ..Default::default() }
}

fn item(label: &str) -> CompletionItem {
    CompletionItem {
        label: label.to_string(),
        kind: None,
        detail: None,
        documentation: None,
        filter_text: None,
        insert_text: None,
        text_edit: None,
        additional_text_edits: None,
    }
}

fn edit(line: u32, text: &str) -> TextEdit {
    let p = LspPosition { line, character: 0 };
    TextEdit { range: LspRange { start: p, end: p }, new_text: text.to_string() }
}

fn change_text(c: &CompletionChange) -> (usize, usize, String) {
    match c {
        CompletionChange::Change { from, to, text } => (*from, *to, text.clone()),
        CompletionChange::Edits(_) => panic!("expected an insertion"),
    }
}

#[test]
fn new_scores_the_typed_word() {
    let c = Completion::new(menu(&["world", "word", "other"]), "hello wor", 9, 6, 9);
    assert!(!c.is_empty());
}

#[test]
fn filter_pattern_is_text_from_start_to_cursor() {
    let c = Completion::new(menu(&["world"]), "hello wor", 9, 6, 9);
    assert_eq!(c.filter_pattern("hello worl", 10), Some("worl"));
    assert_eq!(c.filter_pattern("hello wo", 8), None);
}

#[test]
fn new_with_cursor_before_trigger_is_empty() {
    let c = Completion::new(menu(&["world"]), "hello wo", 8, 6, 9);
    assert!(c.is_empty());
}

#[test]
fn backspacing_before_trigger_clears_menu() {
    let mut c = Completion::new(menu(&["world", "word"]), "hello wor", 9, 6, 9);
    assert!(!c.is_empty());
    c.update("hello wo", 8);
    assert!(c.is_empty());
}

#[test]
fn typing_narrows_menu() {
    let mut c = Completion::new(menu(&["world", "word"]), "hello wor", 9, 6, 9);
    c.recompute_filter("hello worl", 10);
    assert!(!c.is_empty());
    c.recompute_filter("hello worx", 10);
    assert!(c.is_empty());
}

#[test]
fn escape_is_left_to_editor() {
    let mut c = Completion::new(menu(&["a"]), "a", 1, 0, 1);
    let esc = Event::Key(KeyEvent {
        code: KeyCode::Esc,
        modifiers: KeyModifiers { shift: false, control: true, alt: false },
    });
    assert_eq!(c.handle_event(&esc), PopupEventResult::Ignored);
    let ctrl_c = Event::Key(KeyEvent { code: KeyCode::Char('c'), modifiers: KeyModifiers::control_only() });
    assert_eq!(c.handle_event(&ctrl_c), PopupEventResult::Close);
    let a = Event::Key(KeyEvent { code: KeyCode::Char('a'), modifiers: KeyModifiers::none() });
    assert_eq!(c.handle_event(&a), PopupEventResult::Delegate);
}

#[test]
fn insert_text_drops_typed_prefix_once() {
    let mut i = item("foobar");
    let c = item_to_transaction("let x = fo", &i, 8, 10);
    assert_eq!(change_text(&c), (10, 10, "obar".to_string()));
    let ssh = item("ssh");
    let c = item_to_transaction("s", &ssh, 0, 1);
    assert_eq!(change_text(&c), (1, 1, "sh".to_string()));
    i.insert_text = Some("fofofoo".to_string());
    let c = item_to_transaction("let x = fo", &i, 8, 10);
    assert_eq!(change_text(&c), (10, 10, "fofoo".to_string()));
    let c = item_to_transaction("let x = ba", &i, 8, 10);
    assert_eq!(change_text(&c), (10, 10, "fofofoo".to_string()));
    let c = item_to_transaction("let x = ", &i, 8, 8);
    assert_eq!(change_text(&c), (8, 8, "fofofoo".to_string()));
}

#[test]
fn server_edit_is_used_as_is() {
    let mut i = item("foobar");
    i.text_edit = Some(CompletionTextEdit::Edit(edit(3, "foobar()")));
    match item_to_transaction("fo", &i, 0, 2) {
        CompletionChange::Edits(v) => {
            assert_eq!(v.len(), 1);
            assert_eq!(v[0].new_text, "foobar()");
            assert_eq!(v[0].range.start.line, 3);
        }
        _ => panic!("expected the server's edit"),
    }
}

#[test]
fn prompt_events_plan_changes() {
    let mut i = item("foobar");
    i.additional_text_edits = Some(vec![edit(0, "use foo::foobar;\n")]);
    let abort = on_prompt_event(PromptEvent::Abort, None, "fo", 0, 2);
    assert!(!abort.savepoint);
    assert!(abort.changes.is_empty());
    let update = on_prompt_event(PromptEvent::Update, Some(&i), "fo", 0, 2);
    assert!(update.savepoint);
    assert_eq!(update.changes.len(), 1);
    assert_eq!(change_text(&update.changes[0]), (2, 2, "obar".to_string()));
    let validate = on_prompt_event(PromptEvent::Validate, Some(&i), "fo", 0, 2);
    assert!(!validate.savepoint);
    assert_eq!(validate.changes.len(), 2);
    match &validate.changes[1] {
        CompletionChange::Edits(v) => assert_eq!(v[0].new_text, "use foo::foobar;\n"),
        _ => panic!("expected the additional edits"),
    }
    i.additional_text_edits = Some(vec![]);
    let validate = on_prompt_event(PromptEvent::Validate, Some(&i), "fo", 0, 2);
    assert_eq!(validate.changes.len(), 1);
}

#[test]
fn language_from_scope() {
    assert_eq!(language_of(Some("source.rust")), "rust");
    assert_eq!(language_of(Some("text.html")), "");
    assert_eq!(language_of(None), "");
}

#[test]
fn documentation_beside_menu() {
    let mut c = Completion::new(menu(&["foo"]), "fo", 2, 0, 2);
    let area = Rect::new(0, 0, 80, 24);
    let cursor = Some(Position { row: 2, col: 3 });
    c.render(area, cursor, (20, 5));
    let mut i = item("foo");
    i.detail = Some("fn foo()".to_string());
    i.documentation = Some(Documentation::MarkupContent(MarkupContent {
        kind: MarkupKind::Markdown,
        value: "Does foo".to_string(),
    }));
    let d = c.documentation(area, cursor, &i, Some("source.rust"), 2, 0, 24).unwrap();
    assert_eq!(d.markdown, "```rust\nfn foo()\n```\nDoes foo");
    assert_eq!(d.placement, DocPlacement::Beside { x: 23, y: 3, max_width: 57, max_height: 21 });
    assert_eq!(doc_area(d.placement, Some((30, 4))), Rect::new(23, 3, 30, 4));
    assert_eq!(doc_area(d.placement, None), Rect::new(23, 3, 57, 21));
}

#[test]
fn documentation_texts() {
    let mut c = Completion::new(menu(&["foo"]), "fo", 2, 0, 2);
    let area = Rect::new(0, 0, 80, 24);
    let cursor = Some(Position { row: 2, col: 3 });
    c.render(area, cursor, (20, 5));
    let mut i = item("foo");
    assert!(c.documentation(area, cursor, &i, Some("source.rust"), 2, 0, 24).is_none());
    i.detail = Some("u32".to_string());
    let d = c.documentation(area, cursor, &i, None, 2, 0, 24).unwrap();
    assert_eq!(d.markdown, "```\nu32\n```");
    i.documentation = Some(Documentation::String("plain".to_string()));
    let d = c.documentation(area, cursor, &i, Some("source.c"), 2, 0, 24).unwrap();
    assert_eq!(d.markdown, "```c\nu32\n```\nplain");
    i.detail = None;
    i.documentation = Some(Documentation::MarkupContent(MarkupContent {
        kind: MarkupKind::PlainText,
        value: "text".to_string(),
    }));
    let d = c.documentation(area, cursor, &i, Some("source.c"), 2, 0, 24).unwrap();
    assert_eq!(d.markdown, "```c\n\n```\ntext");
}

#[test]
fn documentation_across_when_no_room_beside() {
    let area = Rect::new(0, 0, 40, 24);
    assert_eq!(doc_placement(area, 10, 3, 20, 5, 24), DocPlacement::Across(Rect::new(0, 10, 40, 12)));
    assert_eq!(doc_placement(area, 10, 3, 20, 15, 24), DocPlacement::Across(Rect::new(0, 0, 40, 12)));
    let thirty = Rect::new(0, 0, 40, 30);
    assert_eq!(doc_placement(thirty, 10, 3, 20, 13, 30), DocPlacement::Across(Rect::new(0, 0, 40, 13)));
    assert_eq!(doc_placement(thirty, 10, 3, 20, 5, 30), DocPlacement::Across(Rect::new(0, 13, 40, 15)));
    assert_eq!(doc_placement(thirty, 10, 3, 20, 14, 32), DocPlacement::Across(Rect::new(0, 0, 40, 14)));
    let tall = Rect::new(0, 0, 40, 50);
    assert_eq!(doc_placement(tall, 10, 3, 20, 5, 50), DocPlacement::Across(Rect::new(0, 33, 40, 15)));
    assert_eq!(doc_placement(area, 10, 3, 0, 5, 24), DocPlacement::Across(Rect::new(0, 10, 40, 12)));
    let wider = Rect::new(0, 0, 41, 24);
    assert_eq!(
        doc_placement(wider, 10, 3, 0, 5, 24),
        DocPlacement::Beside { x: 10, y: 3, max_width: 31, max_height: 21 }
    );
}

#[test]
fn filtering_twice_is_filtering_once() {
    let mut c = Completion::new(menu(&["world", "word", "other"]), "hello wor", 9, 6, 9);
    c.recompute_filter("hello worl", 10);
    let once = c.is_empty();
    c.recompute_filter("hello worl", 10);
    assert_eq!(c.is_empty(), once);
    c.recompute_filter("hello wo", 8);
    let once = c.is_empty();
    c.recompute_filter("hello wo", 8);
    assert_eq!(c.is_empty(), once);
}
