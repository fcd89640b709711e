//! The per-entry controllers: each turns one navigation event into a change
//! of its own editing state, or into the outcome of the page.

use crate::config::{
    ChoiceView, EntryBoolean, EntryBooleanView, EntryChoice, EntryChoiceView, EntryText,
    EntryTextView,
};
use crate::viewport::Viewport;
use vstd::prelude::*;

verus! {

/// A discrete navigation event, as the terminal delivers it.
#[derive(Clone, Copy, Debug, PartialEq, Eq, Structural)]
pub enum Event {
    MoveUp,
    MoveDown,
    MoveLeft,
    MoveRight,
    Confirm,
    Cancel,
    CharacterInput(char),
    DeleteBack,
}

/// How a page ended.
#[derive(Clone, Copy, Debug, PartialEq, Eq, Structural)]
pub enum InputResult {
    /// The answer was committed; go on to the next page.
    Accept,
    /// Go to the previous page; nothing was committed.
    Back,
    /// Abandon the whole wizard.
    Cancel,
}

/// `String::push` appends one character.
pub assume_specification[ String::push ](s: &mut String, ch: char)
    ensures
        final(s)@ == old(s)@.push(ch),
;

/// `String::pop` removes the last character and returns it; on an empty
/// string it returns `None` and changes nothing.
pub assume_specification[ String::pop ](s: &mut String) -> (r: Option<char>)
    ensures
        old(s)@.len() == 0 ==> r is None && final(s)@ == old(s)@,
        old(s)@.len() > 0 ==> r == Some(old(s)@.last()) && final(s)@ == old(s)@.drop_last(),
;

/// The editing state of a text page: the line as typed so far.
#[derive(Debug)]
pub struct TextInput {
    pub buffer: String,
}

impl View for TextInput {
    type V = Seq<char>;

    open spec fn view(&self) -> Seq<char> {
        self.buffer@
    }
}

/// What one event does to a text page: the entry, the buffer and the
/// outcome afterwards.
pub open spec fn text_step(entry: EntryTextView, buffer: Seq<char>, event: Event) -> (
    EntryTextView,
    Seq<char>,
    Option<InputResult>,
) {
    match event {
        Event::CharacterInput(c) => (entry, buffer.push(c), None),
        Event::DeleteBack => (
            entry,
            if buffer.len() > 0 {
                buffer.drop_last()
            } else {
                buffer
            },
            None,
        ),
        Event::Confirm | Event::MoveRight => (
            EntryTextView { value: buffer, ..entry },
            buffer,
            Some(InputResult::Accept),
        ),
        Event::MoveLeft => (entry, buffer, Some(InputResult::Back)),
        Event::Cancel => (entry, buffer, Some(InputResult::Cancel)),
        Event::MoveUp | Event::MoveDown => (entry, buffer, None),
    }
}

impl TextInput {
    /// Starts editing with the entry's current answer in the buffer.
    pub fn new(entry: &EntryText) -> (input: TextInput)
        ensures
            input@ == entry@.value,
    {
        TextInput { buffer: entry.value.clone() }
    }
}

/// Handles one event on a text page. Returns the outcome once the page has
/// ended, `None` while it goes on.
pub fn input_text(entry: &mut EntryText, input: &mut TextInput, event: Event) -> (r: Option<
    InputResult,
>)
    ensures
        (final(entry)@, final(input)@, r) == text_step(old(entry)@, old(input)@, event),
{
    match event {
        Event::CharacterInput(c) => {
            input.buffer.push(c);
            None
        },
        Event::DeleteBack => {
            input.buffer.pop();
            None
        },
        Event::Confirm | Event::MoveRight => {
            entry.value = input.buffer.clone();
            Some(InputResult::Accept)
        },
        Event::MoveLeft => Some(InputResult::Back),
        Event::Cancel => Some(InputResult::Cancel),
        Event::MoveUp | Event::MoveDown => None,
    }
}

/// The editing state of a yes/no page: which of the two rows is marked.
#[derive(Clone, Copy, Debug, PartialEq, Eq, Structural)]
pub struct BooleanInput {
    pub yes: bool,
}

/// What one event does to a yes/no page.
pub open spec fn bool_step(entry: EntryBooleanView, input: BooleanInput, event: Event) -> (
    EntryBooleanView,
    BooleanInput,
    Option<InputResult>,
) {
    match event {
        Event::MoveUp | Event::MoveDown => (entry, BooleanInput { yes: !input.yes }, None),
        Event::Confirm | Event::MoveRight => (
            EntryBooleanView { value: input.yes, ..entry },
            input,
            Some(InputResult::Accept),
        ),
        Event::MoveLeft => (entry, input, Some(InputResult::Back)),
        Event::Cancel => (entry, input, Some(InputResult::Cancel)),
        Event::CharacterInput(_) | Event::DeleteBack => (entry, input, None),
    }
}

impl BooleanInput {
    /// Starts with the row of the entry's current answer marked.
    pub fn new(entry: &EntryBoolean) -> (input: BooleanInput)
        ensures
            input.yes == entry@.value,
    {
        BooleanInput { yes: entry.value }
    }

    /// The marked row: 0 for "Yes", 1 for "No".
    pub fn selected_index(&self) -> (i: usize)
        ensures
            i == (if self.yes {
                0usize
            } else {
                1usize
            }),
    {
        if self.yes {
            0
        } else {
            1
        }
    }
}

/// Handles one event on a yes/no page. Returns the outcome once the page
/// has ended, `None` while it goes on.
pub fn input_bool(entry: &mut EntryBoolean, input: &mut BooleanInput, event: Event) -> (r: Option<
    InputResult,
>)
    ensures
        (final(entry)@, *final(input), r) == bool_step(old(entry)@, *old(input), event),
{
    match event {
        Event::MoveUp | Event::MoveDown => {
            input.yes = !input.yes;
            None
        },
        Event::Confirm | Event::MoveRight => {
            entry.value = input.yes;
            Some(InputResult::Accept)
        },
        Event::MoveLeft => Some(InputResult::Back),
        Event::Cancel => Some(InputResult::Cancel),
        Event::CharacterInput(_) | Event::DeleteBack => None,
    }
}

/// Screen rows that the frame around a page takes.
pub const TERMINAL_MIN_HEIGHT: u16 = 7;

/// The rows left for a list on a terminal of `terminal_height` rows.
pub open spec fn list_rows(terminal_height: u16) -> int {
    if terminal_height >= TERMINAL_MIN_HEIGHT {
        terminal_height - TERMINAL_MIN_HEIGHT
    } else {
        0
    }
}

/// `index` is where a choice page starts: on the first option whose value
/// is `value`, or on the first option when none has that value.
pub open spec fn is_initial_selection(
    choices: Seq<ChoiceView>,
    value: Seq<char>,
    index: int,
) -> bool {
    if exists|i: int| 0 <= i < choices.len() && choices[i].value == value {
        &&& 0 <= index < choices.len()
        &&& choices[index].value == value
        &&& forall|j: int| 0 <= j < index ==> choices[j].value != value
    } else {
        index == 0
    }
}

/// The editing state of a choice page: the marked option and the part of
/// the list that is on screen.
#[derive(Clone, Copy, Debug, PartialEq, Eq, Structural)]
pub struct ChoiceInput {
    pub selected_index: usize,
    pub viewport: Viewport,
    pub window_height: usize,
}

impl ChoiceInput {
    /// The state fits a list of `list_length` options: the marked option
    /// exists, and the window is valid and shows it whenever the screen has
    /// a row.
    pub open spec fn wf(self, list_length: int) -> bool {
        &&& self.selected_index < list_length
        &&& self.viewport.wf(list_length, self.window_height as int)
        &&& self.window_height >= 1 ==> self.viewport.shows(self.selected_index as int)
    }

    /// The state a page over `entry` starts in on a terminal of
    /// `terminal_height` rows.
    pub open spec fn begins(self, entry: EntryChoiceView, terminal_height: u16) -> bool {
        &&& is_initial_selection(entry.choices, entry.value, self.selected_index as int)
        &&& self.window_height == list_rows(terminal_height)
        &&& self.viewport == Viewport::initial(
            entry.choices.len() as int,
            self.window_height as int,
        ).scrolled(
            entry.choices.len() as int,
            self.window_height as int,
            self.selected_index as int,
        )
    }

    /// The state with the mark moved to `selected` and the window scrolled
    /// after it.
    pub open spec fn moved_to(self, list_length: int, selected: int) -> ChoiceInput {
        ChoiceInput {
            selected_index: selected as usize,
            viewport: self.viewport.scrolled(list_length, self.window_height as int, selected),
            window_height: self.window_height,
        }
    }

    /// Starts on the option that holds the entry's current answer.
    pub fn new(entry: &EntryChoice, terminal_height: u16) -> (input: ChoiceInput)
        requires
            entry.choices.len() > 0,
        ensures
            input.begins(entry@, terminal_height),
            input.wf(entry.choices.len() as int),
    {
        let n: usize = entry.choices.len();
        let mut found: usize = n;
        let mut i: usize = 0;
        while i < n && found == n
            invariant
                n == entry.choices.len(),
                i <= n,
                found == n || found < i,
                found == n ==> forall|j: int|
                    0 <= j < i ==> entry@.choices[j].value != entry@.value,
                found < n ==> entry@.choices[found as int].value == entry@.value && forall|j: int|
                    0 <= j < found ==> entry@.choices[j].value != entry@.value,
            decreases n - i,
        {
            if entry.choices[i].value == entry.value {
                found = i;
            }
            i += 1;
        }
        let selected_index: usize = if found < n {
            found
        } else {
            0
        };
        let window_height: usize = if terminal_height >= TERMINAL_MIN_HEIGHT {
            (terminal_height - TERMINAL_MIN_HEIGHT) as usize
        } else {
            0
        };
        let viewport = Viewport::new(n, window_height).scroll(n, window_height, selected_index);
        ChoiceInput { selected_index, viewport, window_height }
    }
}

/// What one event does to a choice page.
pub open spec fn choice_step(entry: EntryChoiceView, input: ChoiceInput, event: Event) -> (
    EntryChoiceView,
    ChoiceInput,
    Option<InputResult>,
) {
    match event {
        Event::MoveUp => (
            entry,
            if input.selected_index > 0 {
                input.moved_to(entry.choices.len() as int, input.selected_index - 1)
            } else {
                input
            },
            None,
        ),
        Event::MoveDown => (
            entry,
            if input.selected_index + 1 < entry.choices.len() {
                input.moved_to(entry.choices.len() as int, input.selected_index + 1)
            } else {
                input
            },
            None,
        ),
        Event::Confirm | Event::MoveRight => (
            EntryChoiceView { value: entry.choices[input.selected_index as int].value, ..entry },
            input,
            Some(InputResult::Accept),
        ),
        Event::MoveLeft => (entry, input, Some(InputResult::Back)),
        Event::Cancel => (entry, input, Some(InputResult::Cancel)),
        Event::CharacterInput(_) | Event::DeleteBack => (entry, input, None),
    }
}

/// Handles one event on a choice page. Returns the outcome once the page
/// has ended, `None` while it goes on.
pub fn input_choice(entry: &mut EntryChoice, input: &mut ChoiceInput, event: Event) -> (r: Option<
    InputResult,
>)
    requires
        old(input).wf(old(entry).choices.len() as int),
    ensures
        (final(entry)@, *final(input), r) == choice_step(old(entry)@, *old(input), event),
        final(input).wf(final(entry).choices.len() as int),
{
    let n: usize = entry.choices.len();
    match event {
        Event::MoveUp => {
            if input.selected_index > 0 {
                input.selected_index -= 1;
                input.viewport =
                input.viewport.scroll(n, input.window_height, input.selected_index);
            }
            None
        },
        Event::MoveDown => {
            if input.selected_index + 1 < n {
                input.selected_index += 1;
                input.viewport =
                input.viewport.scroll(n, input.window_height, input.selected_index);
            }
            None
        },
        Event::Confirm | Event::MoveRight => {
            entry.value = entry.choices[input.selected_index].value.clone();
            Some(InputResult::Accept)
        },
        Event::MoveLeft => Some(InputResult::Back),
        Event::Cancel => Some(InputResult::Cancel),
        Event::CharacterInput(_) | Event::DeleteBack => None,
    }
}

/// The answer that a choice page commits is the value of one of the
/// entry's options.
pub proof fn lemma_committed_choice_is_offered(
    entry: EntryChoiceView,
    input: ChoiceInput,
    event: Event,
)
    requires
        input.wf(entry.choices.len() as int),
        choice_step(entry, input, event).2 == Some(InputResult::Accept),
    ensures
        exists|i: int|
            0 <= i < entry.choices.len() && choice_step(entry, input, event).0.value
                == #[trigger] entry.choices[i].value,
{
    assert(choice_step(entry, input, event).0.value
        == entry.choices[input.selected_index as int].value);
}

/// Whatever a choice page is sent, its state stays within the list, and
/// on a screen with at least one row the window shows the marked option.
pub proof fn lemma_choice_step_keeps_wf(entry: EntryChoiceView, input: ChoiceInput, event: Event)
    requires
        input.wf(entry.choices.len() as int),
    ensures
        choice_step(entry, input, event).1.wf(entry.choices.len() as int),
        choice_step(entry, input, event).0.choices == entry.choices,
{
}

} // verus!
