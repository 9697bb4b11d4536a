//! What the selection list looks like: one row of styled spans per
//! suggestion inside a titled frame. Drawing the rows on a terminal is left
//! to the caller; which text goes where, and in which style, is decided here.

use crate::daemon::messages::{Suggestion, SuggestionView};
use crate::tui::selection::{CompletionUI, UiView};
use vstd::prelude::*;

verus! {

/// Foreground colour of a piece of text.
#[derive(Clone, Copy, Debug, PartialEq, Eq)]
pub enum Color {
    /// Whatever the surrounding widget uses.
    Inherit,
    Yellow,
    White,
    Gray,
    Cyan,
}

/// How a piece of text is drawn.
#[derive(Clone, Copy, Debug, PartialEq, Eq)]
pub struct Style {
    pub color: Color,
    pub bold: bool,
}

/// A run of text in one style.
#[derive(Debug, PartialEq, Eq)]
pub struct Span {
    pub content: String,
    pub style: Style,
}

/// What a `Span` stands for in contracts.
pub struct SpanView {
    pub content: Seq<char>,
    pub style: Style,
}

impl View for Span {
    type V = SpanView;

    open spec fn view(&self) -> SpanView {
        SpanView { content: self.content@, style: self.style }
    }
}

/// The whole list as drawn: a frame with a title around one row per entry.
#[derive(Debug, PartialEq, Eq)]
pub struct Screen {
    /// Title shown on the frame.
    pub title: String,
    /// Style of the frame, which is drawn on all four sides.
    pub frame: Style,
    /// One row per suggestion, in display order.
    pub rows: Vec<Vec<Span>>,
}

/// What a `Screen` stands for in contracts.
pub struct ScreenView {
    pub title: Seq<char>,
    pub frame: Style,
    pub rows: Seq<Seq<SpanView>>,
}

/// The views of a row's spans, in order.
pub open spec fn span_views(spans: Seq<Span>) -> Seq<SpanView> {
    spans.map_values(|span: Span| span@)
}

impl View for Screen {
    type V = ScreenView;

    open spec fn view(&self) -> ScreenView {
        ScreenView {
            title: self.title@,
            frame: self.frame,
            rows: self.rows@.map_values(|row: Vec<Span>| span_views(row@)),
        }
    }
}

/// Style of an entry's text: bold yellow when highlighted, white otherwise.
pub open spec fn text_style(selected: bool) -> Style {
    if selected {
        Style { color: Color::Yellow, bold: true }
    } else {
        Style { color: Color::White, bold: false }
    }
}

/// Style of an entry's description: yellow when highlighted, gray otherwise.
pub open spec fn description_style(selected: bool) -> Style {
    if selected {
        Style { color: Color::Yellow, bold: false }
    } else {
        Style { color: Color::Gray, bold: false }
    }
}

/// Style of the separator between text and description.
pub open spec fn separator_style() -> Style {
    Style { color: Color::Inherit, bold: false }
}

/// Style of the frame around the list.
pub open spec fn frame_style() -> Style {
    Style { color: Color::Cyan, bold: false }
}

/// The spans of one entry: its text, then, where it has a description, a
/// separator and the description.
pub open spec fn entry_spans(entry: SuggestionView, selected: bool) -> Seq<SpanView> {
    let text = SpanView { content: entry.text, style: text_style(selected) };
    if entry.description.len() == 0 {
        seq![text]
    } else {
        seq![
            text,
            SpanView { content: " - "@, style: separator_style() },
            SpanView { content: entry.description, style: description_style(selected) },
        ]
    }
}

/// What an entry reads as: its text, followed by `" - "` and the description
/// where the description is not empty.
pub open spec fn entry_label(entry: SuggestionView) -> Seq<char> {
    if entry.description.len() == 0 {
        entry.text
    } else {
        entry.text + " - "@ + entry.description
    }
}

/// The text of a row: the contents of its spans, one after the other.
pub open spec fn row_text(spans: Seq<SpanView>) -> Seq<char>
    decreases spans.len(),
{
    if spans.len() == 0 {
        Seq::empty()
    } else {
        row_text(spans.drop_last()) + spans.last().content
    }
}

/// The screen for a list: row `i` shows entry `i`, drawn as highlighted
/// exactly where `i` is the selected index.
pub open spec fn screen_of(ui: UiView) -> ScreenView {
    ScreenView {
        title: "Completions"@,
        frame: frame_style(),
        rows: Seq::new(
            ui.suggestions.len(),
            |i: int| entry_spans(ui.suggestions[i]@, i == ui.selected),
        ),
    }
}

/// Whatever the highlight, a row reads as its entry's label.
pub proof fn lemma_row_reads_as_label(entry: SuggestionView, selected: bool)
    ensures
        row_text(entry_spans(entry, selected)) == entry_label(entry),
{
    let spans = entry_spans(entry, selected);
    assert(row_text(Seq::<SpanView>::empty()) == Seq::<char>::empty());
    if entry.description.len() == 0 {
        assert(spans.drop_last() == Seq::<SpanView>::empty());
        assert(row_text(spans) == Seq::<char>::empty() + entry.text);
    } else {
        let two = spans.drop_last();
        let one = two.drop_last();
        assert(one.drop_last() == Seq::<SpanView>::empty());
        assert(row_text(one) == Seq::<char>::empty() + entry.text);
        assert(row_text(two) == row_text(one) + " - "@);
        assert(row_text(spans) == row_text(two) + entry.description);
    }
}

/// The spans that show `suggestion`, highlighted or not.
pub fn render_entry(suggestion: &Suggestion, selected: bool) -> (spans: Vec<Span>)
    ensures
        span_views(spans@) == entry_spans(suggestion@, selected),
{
    let mut spans: Vec<Span> = Vec::new();
    let text_style = if selected {
        Style { color: Color::Yellow, bold: true }
    } else {
        Style { color: Color::White, bold: false }
    };
    spans.push(Span { content: suggestion.text.clone(), style: text_style });
    if !suggestion.description.as_str().is_empty() {
        spans.push(
            Span { content: " - ".to_owned(), style: Style { color: Color::Inherit, bold: false } },
        );
        let description_style = if selected {
            Style { color: Color::Yellow, bold: false }
        } else {
            Style { color: Color::Gray, bold: false }
        };
        spans.push(Span { content: suggestion.description.clone(), style: description_style });
    }
    assert(span_views(spans@) =~= entry_spans(suggestion@, selected));
    spans
}

/// The label of `suggestion`: what its row reads as.
pub fn label(suggestion: &Suggestion) -> (text: String)
    ensures
        text@ == entry_label(suggestion@),
{
    let mut text = suggestion.text.clone();
    if !suggestion.description.as_str().is_empty() {
        text.append(" - ");
        text.append(suggestion.description.as_str());
    }
    text
}

impl CompletionUI {
    /// The list as it is to be drawn now.
    pub fn render(&self) -> (screen: Screen)
        ensures
            screen@ == screen_of(self@),
    {
        let suggestions = self.suggestions();
        let selected = self.selected_index();
        let mut rows: Vec<Vec<Span>> = Vec::new();
        let mut at: usize = 0;
        while at < suggestions.len()
            invariant
                at <= suggestions.len(),
                rows.len() == at,
                forall|i: int|
                    0 <= i < at ==> span_views(#[trigger] rows[i]@) == entry_spans(
                        suggestions[i]@,
                        i == selected,
                    ),
            decreases suggestions.len() - at,
        {
            rows.push(render_entry(&suggestions[at], at == selected));
            at = at + 1;
        }
        let screen = Screen {
            title: "Completions".to_owned(),
            frame: Style { color: Color::Cyan, bold: false },
            rows,
        };
        assert(screen@.rows =~= screen_of(self@).rows);
        screen
    }

    /// The label of the highlighted entry, or `None` where the list is empty.
    pub fn highlighted(&self) -> (text: Option<String>)
        ensures
            self@.suggestions.len() == 0 ==> text is None,
            self@.suggestions.len() > 0 ==> text is Some && text->Some_0@ == entry_label(
                self@.suggestions[self@.selected as int]@,
            ),
    {
        let suggestions = self.suggestions();
        let selected = self.selected_index();
        if suggestions.len() == 0 {
            None
        } else {
            Some(label(&suggestions[selected]))
        }
    }
}

} // verus!
