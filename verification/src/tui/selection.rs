//! The selection state machine.

use crate::daemon::messages::Suggestion;
use vstd::prelude::*;

verus! {

/// A key press, as far as the selection list tells keys apart.
#[derive(Clone, Copy, Debug, PartialEq, Eq)]
pub enum Key {
    /// Arrow up.
    Up,
    /// Arrow down.
    Down,
    /// Enter: confirm the highlighted entry.
    Enter,
    /// Escape: leave without choosing.
    Esc,
    /// Any other input.
    Other,
}

/// Where a selection stands after some input.
#[derive(Debug, PartialEq, Eq)]
pub enum Outcome {
    /// Still open: more input is awaited.
    Pending,
    /// Closed by confirming this suggestion.
    Chosen(Suggestion),
    /// Closed without a choice.
    Cancelled,
}

/// What a `CompletionUI` stands for in contracts.
pub struct UiView {
    /// The entries, in display order; fixed for the life of the list.
    pub suggestions: Seq<Suggestion>,
    /// Index of the highlighted entry.
    pub selected: nat,
}

/// The index below `selected` in a list of `count` entries, wrapping to the top.
pub open spec fn next_index(selected: nat, count: nat) -> nat
    recommends
        count > 0,
{
    (selected + 1) % count
}

/// The index above `selected` in a list of `count` entries, wrapping to the bottom.
pub open spec fn prev_index(selected: nat, count: nat) -> nat
    recommends
        count > 0,
{
    ((selected + count - 1) as nat) % count
}

/// The cursor is on an entry, or the list is empty and the cursor rests at 0.
pub open spec fn cursor_in_range(ui: UiView) -> bool {
    ui.selected < ui.suggestions.len() || (ui.suggestions.len() == 0 && ui.selected == 0)
}

/// The list after a key press, and whether the press closed it.
///
/// Up and down move the cursor cyclically, enter closes the list on the
/// highlighted entry, escape closes it without a choice, and anything else
/// changes nothing. An empty list has nothing to move over or to confirm:
/// enter closes it without a choice.
pub open spec fn step(ui: UiView, key: Key) -> (UiView, Outcome) {
    let count = ui.suggestions.len();
    match key {
        Key::Down => if count == 0 {
            (ui, Outcome::Pending)
        } else {
            (UiView { selected: next_index(ui.selected, count), ..ui }, Outcome::Pending)
        },
        Key::Up => if count == 0 {
            (ui, Outcome::Pending)
        } else {
            (UiView { selected: prev_index(ui.selected, count), ..ui }, Outcome::Pending)
        },
        Key::Enter => if count == 0 {
            (ui, Outcome::Cancelled)
        } else {
            (ui, Outcome::Chosen(ui.suggestions[ui.selected as int]))
        },
        Key::Esc => (ui, Outcome::Cancelled),
        Key::Other => (ui, Outcome::Pending),
    }
}

/// The list after a run of key presses: each key is applied in turn until one
/// closes the list; the keys after that one are not looked at.
pub open spec fn feed(ui: UiView, keys: Seq<Key>) -> (UiView, Outcome)
    decreases keys.len(),
{
    if keys.len() == 0 {
        (ui, Outcome::Pending)
    } else {
        let (next, outcome) = step(ui, keys.first());
        if outcome is Pending {
            feed(next, keys.drop_first())
        } else {
            (next, outcome)
        }
    }
}

/// What showing the list to a user who presses `keys` comes to: an empty list
/// is not shown at all and counts as cancelled; otherwise the keys are fed in.
pub open spec fn run_result(ui: UiView, keys: Seq<Key>) -> (UiView, Outcome) {
    if ui.suggestions.len() == 0 {
        (ui, Outcome::Cancelled)
    } else {
        feed(ui, keys)
    }
}

/// A navigable list of suggestions with one highlighted entry.
pub struct CompletionUI {
    suggestions: Vec<Suggestion>,
    selected: usize,
}

impl View for CompletionUI {
    type V = UiView;

    closed spec fn view(&self) -> UiView {
        UiView { suggestions: self.suggestions@, selected: self.selected as nat }
    }
}

impl CompletionUI {
    #[verifier::type_invariant]
    spec fn cursor_valid(self) -> bool {
        cursor_in_range(self@)
    }

    /// A list over `suggestions` with the first entry highlighted.
    pub fn new(suggestions: Vec<Suggestion>) -> (ui: CompletionUI)
        ensures
            ui@ == (UiView { suggestions: suggestions@, selected: 0 }),
    {
        CompletionUI { suggestions, selected: 0 }
    }

    /// The entries, in display order.
    pub fn suggestions(&self) -> (entries: &Vec<Suggestion>)
        ensures
            entries@ == self@.suggestions,
    {
        &self.suggestions
    }

    /// Index of the highlighted entry; 0 where the list is empty.
    pub fn selected_index(&self) -> (index: usize)
        ensures
            index == self@.selected,
            cursor_in_range(self@),
    {
        proof {
            use_type_invariant(self);
        }
        self.selected
    }

    /// Feeds `keys` to the list in order, stopping at the first key that
    /// closes it. An empty list is never shown: it yields `Cancelled` whatever
    /// the keys are. `Pending` means the keys ran out with the list still open.
    pub fn run(&mut self, keys: &[Key]) -> (outcome: Outcome)
        ensures
            (final(self)@, outcome) == run_result(old(self)@, keys@),
            cursor_in_range(final(self)@),
    {
        proof {
            use_type_invariant(&*self);
        }
        if self.suggestions.len() == 0 {
            return Outcome::Cancelled;
        }
        let mut at: usize = 0;
        assert(keys@.skip(0) == keys@);
        while at < keys.len()
            invariant
                at <= keys.len(),
                cursor_in_range(self@),
                run_result(old(self)@, keys@) == feed(self@, keys@.skip(at as int)),
            decreases keys.len() - at,
        {
            assert(keys@.skip(at as int).first() == keys@[at as int]);
            assert(keys@.skip(at as int).drop_first() == keys@.skip(at + 1));
            let outcome = self.handle_key(keys[at]);
            match outcome {
                Outcome::Pending => {},
                _ => {
                    return outcome;
                },
            }
            at = at + 1;
        }
        Outcome::Pending
    }

    /// Applies one key press and says whether it closed the list.
    pub fn handle_key(&mut self, key: Key) -> (outcome: Outcome)
        ensures
            (final(self)@, outcome) == step(old(self)@, key),
            cursor_in_range(final(self)@),
    {
        proof {
            use_type_invariant(&*self);
        }
        match key {
            Key::Esc => Outcome::Cancelled,
            Key::Enter => match self.confirm() {
                Some(chosen) => Outcome::Chosen(chosen),
                None => Outcome::Cancelled,
            },
            Key::Down => {
                self.move_down();
                Outcome::Pending
            },
            Key::Up => {
                self.move_up();
                Outcome::Pending
            },
            Key::Other => Outcome::Pending,
        }
    }

    /// The highlighted suggestion, or `None` where the list is empty.
    pub fn confirm(&self) -> (chosen: Option<Suggestion>)
        ensures
            chosen == if self@.suggestions.len() == 0 {
                None
            } else {
                Some(self@.suggestions[self@.selected as int])
            },
    {
        proof {
            use_type_invariant(self);
        }
        if self.suggestions.len() == 0 {
            None
        } else {
            Some(self.suggestions[self.selected].clone())
        }
    }

    /// Moves the highlight one entry down, from the last entry to the first.
    pub fn move_down(&mut self)
        ensures
            final(self)@ == step(old(self)@, Key::Down).0,
            cursor_in_range(final(self)@),
    {
        proof {
            use_type_invariant(&*self);
        }
        let count = self.suggestions.len();
        if count > 0 {
            proof {
                lemma_next_index(self.selected as nat, count as nat);
            }
            self.selected = (self.selected + 1) % count;
        }
    }

    /// Moves the highlight one entry up, from the first entry to the last.
    pub fn move_up(&mut self)
        ensures
            final(self)@ == step(old(self)@, Key::Up).0,
            cursor_in_range(final(self)@),
    {
        proof {
            use_type_invariant(&*self);
        }
        let count = self.suggestions.len();
        if count > 0 {
            proof {
                lemma_prev_index(self.selected as nat, count as nat);
            }
            if self.selected == 0 {
                self.selected = count - 1;
            } else {
                self.selected -= 1;
            }
        }
    }
}

/// Stepping down without the modulus: one further, or from the last entry to 0.
pub proof fn lemma_next_index(selected: nat, count: nat)
    requires
        selected < count,
    ensures
        next_index(selected, count) == if selected + 1 == count {
            0
        } else {
            selected + 1
        },
        next_index(selected, count) < count,
{
    if selected + 1 == count {
        vstd::arithmetic::div_mod::lemma_mod_self_0(count as int);
    } else {
        vstd::arithmetic::div_mod::lemma_small_mod(selected + 1, count);
    }
}

/// Stepping up without the modulus: one back, or from entry 0 to the last.
pub proof fn lemma_prev_index(selected: nat, count: nat)
    requires
        selected < count,
    ensures
        prev_index(selected, count) == if selected == 0 {
            count - 1
        } else {
            selected - 1
        },
        prev_index(selected, count) < count,
{
    if selected == 0 {
        vstd::arithmetic::div_mod::lemma_small_mod((count - 1) as nat, count);
    } else {
        vstd::arithmetic::div_mod::lemma_mod_add_multiples_vanish(
            selected - 1,
            count as int,
        );
        vstd::arithmetic::div_mod::lemma_small_mod((selected - 1) as nat, count);
    }
}

} // verus!
