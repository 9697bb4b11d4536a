use autocomplete_rs::client::completion::{output, present, ClientError};
use autocomplete_rs::daemon::messages::{CompletionResponse, Suggestion};
use autocomplete_rs::tui::render::{label, render_entry, Color, Screen, Span, Style};
use autocomplete_rs::tui::selection::{CompletionUI, Key, Outcome};

fn suggestion(text: &str, description: &str) -> Suggestion {
    Suggestion { text: text.to_string(), description: description.to_string() }
}

fn numbered(count: usize) -> Vec<Suggestion> {
    (0..count).map(|i| suggestion(&format!("entry{}", i), "")).collect()
}

fn span(content: &str, color: Color, bold: bool) -> Span {
    Span { content: content.to_string(), style: Style { color, bold } }
}

#[test]
fn new_list_highlights_the_first_entry() {
    let ui = CompletionUI::new(numbered(3));
    assert_eq!(ui.selected_index(), 0);
    assert_eq!(ui.suggestions(), &numbered(3));
}

#[test]
fn move_down_steps_and_wraps() {
    let mut ui = CompletionUI::new(numbered(3));
    ui.move_down();
    assert_eq!(ui.selected_index(), 1);
    ui.move_down();
    assert_eq!(ui.selected_index(), 2);
    ui.move_down();
    assert_eq!(ui.selected_index(), 0);
}

#[test]
fn move_up_steps_and_wraps() {
    let mut ui = CompletionUI::new(numbered(3));
    ui.move_up();
    assert_eq!(ui.selected_index(), 2);
    ui.move_up();
    assert_eq!(ui.selected_index(), 1);
    ui.move_up();
    assert_eq!(ui.selected_index(), 0);
}

#[test]
fn n_moves_down_return_to_the_start() {
    for count in 1..8usize {
        for start in 0..count {
            let mut ui = CompletionUI::new(numbered(count));
            for _ in 0..start {
                ui.move_down();
            }
            assert_eq!(ui.selected_index(), start);
            let outcome = ui.run(&vec![Key::Down; count]);
            assert_eq!(outcome, Outcome::Pending);
            assert_eq!(ui.selected_index(), start);
        }
    }
}

#[test]
fn n_moves_up_return_to_the_start() {
    for count in 1..8usize {
        for start in 0..count {
            let mut ui = CompletionUI::new(numbered(count));
            for _ in 0..start {
                ui.move_down();
            }
            let outcome = ui.run(&vec![Key::Up; count]);
            assert_eq!(outcome, Outcome::Pending);
            assert_eq!(ui.selected_index(), start);
        }
    }
}

#[test]
fn single_entry_never_moves() {
    let mut ui = CompletionUI::new(numbered(1));
    ui.move_down();
    assert_eq!(ui.selected_index(), 0);
    ui.move_up();
    assert_eq!(ui.selected_index(), 0);
    assert_eq!(ui.handle_key(Key::Down), Outcome::Pending);
    assert_eq!(ui.handle_key(Key::Up), Outcome::Pending);
    assert_eq!(ui.selected_index(), 0);
    assert_eq!(ui.confirm(), Some(suggestion("entry0", "")));
}

#[test]
fn confirm_returns_the_highlighted_suggestion() {
    let mut ui = CompletionUI::new(numbered(4));
    assert_eq!(ui.confirm(), Some(suggestion("entry0", "")));
    ui.move_up();
    assert_eq!(ui.confirm(), Some(suggestion("entry3", "")));
    ui.move_down();
    ui.move_down();
    assert_eq!(ui.confirm(), Some(suggestion("entry1", "")));
    assert_eq!(ui.selected_index(), 1);
}

#[test]
fn confirm_does_not_depend_on_an_earlier_cancelled_list() {
    let mut earlier = CompletionUI::new(numbered(5));
    assert_eq!(earlier.run(&vec![Key::Down, Key::Down, Key::Esc]), Outcome::Cancelled);
    assert_eq!(earlier.selected_index(), 2);

    let mut later = CompletionUI::new(numbered(5));
    assert_eq!(later.selected_index(), 0);
    assert_eq!(later.handle_key(Key::Enter), Outcome::Chosen(suggestion("entry0", "")));
}

#[test]
fn keys_other_than_the_four_change_nothing() {
    let mut ui = CompletionUI::new(numbered(3));
    ui.move_down();
    assert_eq!(ui.handle_key(Key::Other), Outcome::Pending);
    assert_eq!(ui.selected_index(), 1);
    assert_eq!(ui.suggestions(), &numbered(3));
}

#[test]
fn escape_cancels_and_leaves_the_highlight() {
    let mut ui = CompletionUI::new(numbered(3));
    ui.move_down();
    assert_eq!(ui.handle_key(Key::Esc), Outcome::Cancelled);
    assert_eq!(ui.selected_index(), 1);
}

#[test]
fn run_stops_at_the_first_closing_key() {
    let mut ui = CompletionUI::new(numbered(3));
    let outcome = ui.run(&vec![Key::Down, Key::Other, Key::Enter, Key::Down, Key::Esc]);
    assert_eq!(outcome, Outcome::Chosen(suggestion("entry1", "")));
    assert_eq!(ui.selected_index(), 1);
}

#[test]
fn run_without_a_closing_key_stays_pending() {
    let mut ui = CompletionUI::new(numbered(3));
    assert_eq!(ui.run(&vec![]), Outcome::Pending);
    assert_eq!(ui.run(&vec![Key::Up, Key::Other]), Outcome::Pending);
    assert_eq!(ui.selected_index(), 2);
}

#[test]
fn empty_list_is_never_shown() {
    let mut ui = CompletionUI::new(vec![]);
    assert_eq!(ui.run(&vec![Key::Down, Key::Enter]), Outcome::Cancelled);
    assert_eq!(ui.run(&vec![]), Outcome::Cancelled);
    assert_eq!(ui.selected_index(), 0);
    assert_eq!(ui.confirm(), None);
    assert_eq!(ui.highlighted(), None);
    assert_eq!(ui.handle_key(Key::Down), Outcome::Pending);
    assert_eq!(ui.handle_key(Key::Up), Outcome::Pending);
    assert_eq!(ui.handle_key(Key::Enter), Outcome::Cancelled);
    assert_eq!(ui.selected_index(), 0);
    assert_eq!(ui.render().rows.len(), 0);
}

#[test]
fn label_joins_text_and_description() {
    assert_eq!(label(&suggestion("commit", "Record changes")), "commit - Record changes");
    assert_eq!(label(&suggestion("common", "")), "common");
    assert_eq!(label(&suggestion("", "only")), " - only");
}

#[test]
fn entry_with_description_has_three_spans() {
    assert_eq!(
        render_entry(&suggestion("commit", "Record changes"), true),
        vec![
            span("commit", Color::Yellow, true),
            span(" - ", Color::Inherit, false),
            span("Record changes", Color::Yellow, false),
        ]
    );
    assert_eq!(
        render_entry(&suggestion("commit", "Record changes"), false),
        vec![
            span("commit", Color::White, false),
            span(" - ", Color::Inherit, false),
            span("Record changes", Color::Gray, false),
        ]
    );
}

#[test]
fn entry_without_description_has_one_span() {
    assert_eq!(render_entry(&suggestion("common", ""), true), vec![span("common", Color::Yellow, true)]);
    assert_eq!(render_entry(&suggestion("common", ""), false), vec![span("common", Color::White, false)]);
}

#[test]
fn screen_highlights_only_the_selected_row() {
    let mut ui = CompletionUI::new(vec![suggestion("commit", "Record changes"), suggestion("common", "")]);
    ui.move_down();
    assert_eq!(
        ui.render(),
        Screen {
            title: "Completions".to_string(),
            frame: Style { color: Color::Cyan, bold: false },
            rows: vec![
                vec![
                    span("commit", Color::White, false),
                    span(" - ", Color::Inherit, false),
                    span("Record changes", Color::Gray, false),
                ],
                vec![span("common", Color::Yellow, true)],
            ],
        }
    );
}

#[test]
fn rows_read_as_their_labels() {
    let listed = vec![suggestion("commit", "Record changes"), suggestion("common", ""), suggestion("", "x")];
    let ui = CompletionUI::new(listed.clone());
    let screen = ui.render();
    for (row, entry) in screen.rows.iter().zip(listed.iter()) {
        let text: String = row.iter().map(|s| s.content.as_str()).collect();
        assert_eq!(text, label(entry));
    }
}

#[test]
fn answer_without_suggestions_is_not_presented() {
    assert!(present(CompletionResponse { suggestions: vec![] }).is_none());
}

#[test]
fn answer_with_suggestions_is_presented_in_order() {
    let shown = present(CompletionResponse { suggestions: numbered(3) }).unwrap();
    assert_eq!(shown.suggestions(), &numbered(3));
    assert_eq!(shown.selected_index(), 0);
}

#[test]
fn only_a_choice_is_printed() {
    assert_eq!(output(&Outcome::Chosen(suggestion("commit", "Record changes"))), Some("commit".to_string()));
    assert_eq!(output(&Outcome::Chosen(suggestion("", "d"))), Some(String::new()));
    assert_eq!(output(&Outcome::Cancelled), None);
    assert_eq!(output(&Outcome::Pending), None);
}

#[test]
fn client_errors_have_their_messages() {
    assert_eq!(ClientError::Connection.message(), "Failed to connect to daemon. Is it running?");
    assert_eq!(ClientError::ProtocolDecode.message(), "Failed to parse daemon response");
}

#[test]
fn end_to_end_selection_for_git_comm() {
    let provided = vec![suggestion("commit", "Record changes"), suggestion("common", "")];
    let mut ui = present(CompletionResponse { suggestions: provided }).unwrap();
    assert_eq!(ui.highlighted(), Some("commit - Record changes".to_string()));
    assert_eq!(ui.handle_key(Key::Down), Outcome::Pending);
    assert_eq!(ui.highlighted(), Some("common".to_string()));
    let outcome = ui.handle_key(Key::Enter);
    assert_eq!(outcome, Outcome::Chosen(suggestion("common", "")));
    assert_eq!(output(&outcome), Some("common".to_string()));
}
