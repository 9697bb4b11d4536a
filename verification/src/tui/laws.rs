//! Laws of navigation: moving through the list is cyclic.

use crate::tui::selection::{
    cursor_in_range, feed, lemma_next_index, lemma_prev_index, step, Key, Outcome, UiView,
};
use vstd::arithmetic::div_mod::{
    lemma_mod_add_multiples_vanish, lemma_mod_sub_multiples_vanish, lemma_small_mod,
};
use vstd::prelude::*;

verus! {

/// The same key, pressed `count` times.
pub open spec fn presses(key: Key, count: nat) -> Seq<Key> {
    Seq::new(count, |i: int| key)
}

/// Pressing down `count` times leaves the list open, with the highlight
/// `count` entries further down, counted cyclically.
pub proof fn lemma_down_presses(ui: UiView, count: nat)
    requires
        cursor_in_range(ui),
        ui.suggestions.len() > 0,
    ensures
        feed(ui, presses(Key::Down, count)) == (
            UiView { selected: (ui.selected + count) % ui.suggestions.len(), ..ui },
            Outcome::Pending,
        ),
    decreases count,
{
    let entries = ui.suggestions.len();
    if count == 0 {
        lemma_small_mod(ui.selected, entries);
    } else {
        let keys = presses(Key::Down, count);
        let moved = step(ui, Key::Down).0;
        assert(keys.first() == Key::Down);
        assert(keys.drop_first() == presses(Key::Down, (count - 1) as nat));
        lemma_next_index(ui.selected, entries);
        lemma_down_presses(moved, (count - 1) as nat);
        if ui.selected + 1 == entries {
            lemma_mod_add_multiples_vanish(count - 1, entries as int);
        }
    }
}

/// Pressing up `count` times leaves the list open, with the highlight
/// `count` entries further up, counted cyclically.
pub proof fn lemma_up_presses(ui: UiView, count: nat)
    requires
        cursor_in_range(ui),
        ui.suggestions.len() > 0,
    ensures
        feed(ui, presses(Key::Up, count)) == (
            UiView { selected: ((ui.selected - count) % (ui.suggestions.len() as int)) as nat, ..ui },
            Outcome::Pending,
        ),
    decreases count,
{
    let entries = ui.suggestions.len();
    if count == 0 {
        lemma_small_mod(ui.selected, entries);
    } else {
        let keys = presses(Key::Up, count);
        let moved = step(ui, Key::Up).0;
        assert(keys.first() == Key::Up);
        assert(keys.drop_first() == presses(Key::Up, (count - 1) as nat));
        lemma_prev_index(ui.selected, entries);
        lemma_up_presses(moved, (count - 1) as nat);
        if ui.selected == 0 {
            lemma_mod_add_multiples_vanish(0 - count, entries as int);
        }
    }
}

/// Navigation is cyclic: in a list of `N` entries, `N` presses of down bring
/// the highlight back to where it was, and so do `N` presses of up.
pub proof fn lemma_navigation_is_cyclic(ui: UiView)
    requires
        cursor_in_range(ui),
        ui.suggestions.len() > 0,
    ensures
        feed(ui, presses(Key::Down, ui.suggestions.len())) == (ui, Outcome::Pending),
        feed(ui, presses(Key::Up, ui.suggestions.len())) == (ui, Outcome::Pending),
{
    let entries = ui.suggestions.len();
    lemma_down_presses(ui, entries);
    lemma_up_presses(ui, entries);
    lemma_mod_add_multiples_vanish(ui.selected as int, entries as int);
    lemma_mod_sub_multiples_vanish(ui.selected as int, entries as int);
    lemma_small_mod(ui.selected, entries);
}

/// In a list of one entry, neither down nor up moves the highlight.
pub proof fn lemma_single_entry_stays(ui: UiView)
    requires
        cursor_in_range(ui),
        ui.suggestions.len() == 1,
    ensures
        step(ui, Key::Down) == (ui, Outcome::Pending),
        step(ui, Key::Up) == (ui, Outcome::Pending),
{
    lemma_next_index(ui.selected, 1);
    lemma_prev_index(ui.selected, 1);
}

/// Enter confirms what is highlighted at that moment: after any keys that
/// left the list open, enter closes it on the entry the highlight has
/// reached, and the entries are those the list began with.
pub proof fn lemma_enter_confirms_highlighted(ui: UiView, moves: Seq<Key>)
    requires
        cursor_in_range(ui),
        ui.suggestions.len() > 0,
        feed(ui, moves).1 is Pending,
    ensures
        feed(ui, moves).0.suggestions == ui.suggestions,
        cursor_in_range(feed(ui, moves).0),
        feed(ui, moves.push(Key::Enter)) == (
            feed(ui, moves).0,
            Outcome::Chosen(ui.suggestions[feed(ui, moves).0.selected as int]),
        ),
    decreases moves.len(),
{
    let keys = moves.push(Key::Enter);
    if moves.len() == 0 {
        assert(keys.first() == Key::Enter);
    } else {
        let next = step(ui, moves.first()).0;
        lemma_step_keeps_cursor_in_range(ui, moves.first());
        assert(keys.first() == moves.first());
        assert(keys.drop_first() == moves.drop_first().push(Key::Enter));
        lemma_enter_confirms_highlighted(next, moves.drop_first());
    }
}

/// Moving never changes the entries and never leaves the list: after any
/// key, the highlight is still on an entry.
pub proof fn lemma_step_keeps_cursor_in_range(ui: UiView, key: Key)
    requires
        cursor_in_range(ui),
    ensures
        cursor_in_range(step(ui, key).0),
        step(ui, key).0.suggestions == ui.suggestions,
{
    if ui.suggestions.len() > 0 {
        lemma_next_index(ui.selected, ui.suggestions.len());
        lemma_prev_index(ui.selected, ui.suggestions.len());
    }
}

} // verus!
