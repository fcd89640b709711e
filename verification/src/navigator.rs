//! The page-by-page walk through a configuration.

use crate::config::{
    lemma_page_fixes_position, lemma_page_of_in_range, lemma_pages_before_monotonic,
    lemma_same_shape_same_pages, Configuration, ConfigurationView, Entry, EntryView,
};
use crate::input::{
    bool_step, choice_step, input_bool, input_choice, input_text, text_step, BooleanInput,
    ChoiceInput, Event, InputResult, TextInput, TERMINAL_MIN_HEIGHT,
};
use crate::frame::{
    bool_body, bool_body_of, choice_body, choice_body_of, draw_frame, frame_of, text_body,
    text_body_of, Body, BodyView, Frame, FrameView, Rect,
};
use crate::render::{field_map, render_message, rendered, RenderError};
use crate::tui_config::{TUIConfig, TUILayout, TuiSymbols};
use vstd::prelude::*;

verus! {

/// Where the walk stands.
#[derive(Clone, Copy, Debug, PartialEq, Eq, Structural)]
pub enum Status {
    /// A page is being asked.
    Active,
    /// Every page was accepted.
    Completed,
    /// The user gave up.
    Cancelled,
}

/// The editing state of the page being asked.
#[derive(Debug)]
pub enum Input {
    Text(TextInput),
    Choice(ChoiceInput),
    Boolean(BooleanInput),
}

/// An editing state, as specifications see it.
#[verifier::ext_equal]
pub enum InputView {
    Text(Seq<char>),
    Choice(ChoiceInput),
    Boolean(BooleanInput),
}

impl View for Input {
    type V = InputView;

    open spec fn view(&self) -> InputView {
        match self {
            Input::Text(t) => InputView::Text(t@),
            Input::Choice(c) => InputView::Choice(*c),
            Input::Boolean(b) => InputView::Boolean(*b),
        }
    }
}

impl InputView {
    /// The editing state is of the entry's kind and within its bounds.
    pub open spec fn fits(self, entry: EntryView) -> bool {
        match (self, entry) {
            (InputView::Text(_), EntryView::Text(_)) => true,
            (InputView::Choice(i), EntryView::Choice(e)) => i.wf(e.choices.len() as int),
            (InputView::Boolean(_), EntryView::Boolean(_)) => true,
            _ => false,
        }
    }

    /// The editing state a page over `entry` starts in: seeded from the
    /// entry's current answer.
    pub open spec fn begins(self, entry: EntryView, terminal_height: u16) -> bool {
        match (self, entry) {
            (InputView::Text(buffer), EntryView::Text(e)) => buffer == e.value,
            (InputView::Choice(i), EntryView::Choice(e)) => i.begins(e, terminal_height),
            (InputView::Boolean(i), EntryView::Boolean(e)) => i.yes == e.value,
            _ => false,
        }
    }
}

/// What one event does to the page being asked: the entry, the editing
/// state and the outcome afterwards.
pub open spec fn page_step(entry: EntryView, input: InputView, event: Event) -> (
    EntryView,
    InputView,
    Option<InputResult>,
) {
    match (entry, input) {
        (EntryView::Text(e), InputView::Text(i)) => {
            let r = text_step(e, i, event);
            (EntryView::Text(r.0), InputView::Text(r.1), r.2)
        },
        (EntryView::Choice(e), InputView::Choice(i)) => {
            let r = choice_step(e, i, event);
            (EntryView::Choice(r.0), InputView::Choice(r.1), r.2)
        },
        (EntryView::Boolean(e), InputView::Boolean(i)) => {
            let r = bool_step(e, i, event);
            (EntryView::Boolean(r.0), InputView::Boolean(r.1), r.2)
        },
        _ => (entry, input, None),
    }
}

/// The walk: the configuration being filled in, the page being asked and
/// the editing state of that page.
#[derive(Debug)]
pub struct Navigator {
    config: Configuration,
    section_index: usize,
    entry_index: usize,
    page_number: usize,
    total_pages: usize,
    status: Status,
    input: Input,
}

/// The walk, as specifications see it: the configuration with the answers
/// given so far, the position, the page counter, the status and the
/// editing state.
#[verifier::ext_equal]
pub struct NavigatorView {
    pub config: ConfigurationView,
    pub section_index: usize,
    pub entry_index: usize,
    pub page_number: usize,
    pub status: Status,
    pub input: InputView,
}

impl NavigatorView {
    /// The entry at the position.
    pub open spec fn current_entry(self) -> EntryView {
        self.config.entry_at(self.section_index as int, self.entry_index as int)
    }

    /// The position names an entry, and the page number is that entry's.
    pub open spec fn on_page(self) -> bool {
        &&& self.config.has_entry(self.section_index as int, self.entry_index as int)
        &&& self.page_number == self.config.page_of(
            self.section_index as int,
            self.entry_index as int,
        )
    }

    /// The page counter and the position are in step. While a page is
    /// asked, the counter is that page's number and the editing state fits
    /// its entry; after the last page was accepted the counter is one past
    /// the total.
    pub open spec fn wf(self) -> bool {
        &&& self.config.navigable()
        &&& match self.status {
            Status::Active => self.on_page() && self.input.fits(self.current_entry()),
            Status::Cancelled => self.on_page(),
            Status::Completed => self.page_number == self.config.total_pages() + 1,
        }
    }

    /// `next` is this state after the page being asked was accepted: the
    /// counter is one higher, and the walk stands on the page of that
    /// number with a fresh editing state, or is completed when this was the
    /// last page.
    pub open spec fn accepted(self, next: NavigatorView, terminal_height: u16) -> bool {
        &&& next.config == self.config
        &&& next.page_number == self.page_number + 1
        &&& if self.page_number < self.config.total_pages() {
            &&& next.status == Status::Active
            &&& next.on_page()
            &&& next.input.begins(next.current_entry(), terminal_height)
        } else {
            &&& next.status == Status::Completed
            &&& next.section_index == self.section_index
            &&& next.entry_index == self.entry_index
            &&& next.input == self.input
        }
    }

    /// `next` is this state after the user went back: the counter is one
    /// lower, but never below 1, and the walk stands on the page of that
    /// number with a fresh editing state.
    pub open spec fn backed(self, next: NavigatorView, terminal_height: u16) -> bool {
        &&& next.config == self.config
        &&& next.status == Status::Active
        &&& next.page_number == if self.page_number > 1 {
            self.page_number - 1
        } else {
            1
        }
        &&& next.on_page()
        &&& next.input.begins(next.current_entry(), terminal_height)
    }

    /// This state with the walk given up; nothing else changes.
    pub open spec fn cancelled(self) -> NavigatorView {
        NavigatorView { status: Status::Cancelled, ..self }
    }

    /// This state after the page being asked has taken `event`, before the
    /// outcome of the page is acted on.
    pub open spec fn edited(self, event: Event) -> NavigatorView {
        let r = page_step(self.current_entry(), self.input, event);
        NavigatorView {
            config: self.config.with_entry(
                self.section_index as int,
                self.entry_index as int,
                r.0,
            ),
            input: r.1,
            ..self
        }
    }

    /// `next` is this state after `outcome` ended the page being asked.
    pub open spec fn applied(
        self,
        outcome: InputResult,
        terminal_height: u16,
        next: NavigatorView,
    ) -> bool {
        match outcome {
            InputResult::Accept => self.accepted(next, terminal_height),
            InputResult::Back => self.backed(next, terminal_height),
            InputResult::Cancel => next == self.cancelled(),
        }
    }

    /// `next` is this state after `event`: a walk that has ended ignores
    /// it; otherwise the page being asked takes it, and if that ends the
    /// page, the outcome moves the walk. Only an accepted page commits its
    /// answer; going back and cancelling leave the configuration as it
    /// was.
    pub open spec fn handled(
        self,
        event: Event,
        terminal_height: u16,
        next: NavigatorView,
    ) -> bool {
        if self.status != Status::Active {
            next == self
        } else {
            match page_step(self.current_entry(), self.input, event).2 {
                None => next == self.edited(event),
                Some(InputResult::Accept) => self.edited(event).accepted(next, terminal_height),
                Some(InputResult::Back) => self.backed(next, terminal_height),
                Some(InputResult::Cancel) => next == self.cancelled(),
            }
        }
    }

    /// The state a walk starts in: on page 1 with a fresh editing state, or
    /// already completed when there is no page at all; the position and the
    /// editing state of such a walk are placeholders.
    pub open spec fn starts(self, terminal_height: u16) -> bool {
        &&& self.page_number == 1
        &&& if self.config.total_pages() == 0 {
            &&& self.status == Status::Completed
            &&& self.section_index == 0
            &&& self.entry_index == 0
            &&& self.input == InputView::Boolean(BooleanInput { yes: false })
        } else {
            &&& self.status == Status::Active
            &&& self.on_page()
            &&& self.input.begins(self.current_entry(), terminal_height)
        }
    }
}

impl View for Navigator {
    type V = NavigatorView;

    closed spec fn view(&self) -> NavigatorView {
        NavigatorView {
            config: self.config@,
            section_index: self.section_index,
            entry_index: self.entry_index,
            page_number: self.page_number,
            status: self.status,
            input: self.input@,
        }
    }
}

impl Input {
    /// The editing state a page over `entry` starts in.
    pub fn new(entry: &Entry, terminal_height: u16) -> (input: Input)
        requires
            entry@ matches EntryView::Choice(c) ==> c.choices.len() > 0,
        ensures
            input@.begins(entry@, terminal_height),
            input@.fits(entry@),
    {
        match entry {
            Entry::Text(e) => Input::Text(TextInput::new(e)),
            Entry::Choice(e) => Input::Choice(ChoiceInput::new(e, terminal_height)),
            Entry::Boolean(e) => Input::Boolean(BooleanInput::new(e)),
        }
    }
}

impl Navigator {
    /// The invariant of the walk.
    pub closed spec fn wf(&self) -> bool {
        &&& self@.wf()
        &&& self.total_pages == self.config@.total_pages()
    }

    /// A walk that keeps its invariant shows a state in which counter and
    /// position are in step.
    pub proof fn lemma_view_wf(&self)
        requires
            self.wf(),
        ensures
            self@.wf(),
    {
    }

    /// Starts the walk on the first page. `None` when the configuration
    /// cannot be walked.
    pub fn new(config: Configuration, terminal_height: u16) -> (r: Option<Navigator>)
        ensures
            match r {
                Some(nav) => {
                    &&& config@.navigable()
                    &&& nav.wf()
                    &&& nav@.config == config@
                    &&& nav@.starts(terminal_height)
                },
                None => !config@.navigable(),
            },
    {
        if !config.is_navigable() {
            return None;
        }
        let total_pages: usize = match config.total_pages() {
            Some(n) => n,
            None => {
                return None;
            },
        };
        let mut section_index: usize = 0;
        while section_index < config.sections.len() && config.sections[section_index].entries.len()
            == 0
            invariant
                section_index <= config.sections.len(),
                config@.pages_before(section_index as int) == 0,
            decreases config.sections.len() - section_index,
        {
            section_index += 1;
        }
        if section_index < config.sections.len() {
            proof {
                lemma_page_of_in_range(config@, section_index as int, 0);
                assert(config@.sections[section_index as int].entries[0]
                    == config.sections[section_index as int].entries[0]@);
            }
            let input = Input::new(&config.sections[section_index].entries[0], terminal_height);
            Some(
                Navigator {
                    config,
                    section_index,
                    entry_index: 0,
                    page_number: 1,
                    total_pages,
                    status: Status::Active,
                    input,
                },
            )
        } else {
            Some(
                Navigator {
                    config,
                    section_index: 0,
                    entry_index: 0,
                    page_number: 1,
                    total_pages,
                    status: Status::Completed,
                    input: Input::Boolean(BooleanInput { yes: false }),
                },
            )
        }
    }
}

impl Navigator {
    /// The editing state for the entry at the position.
    fn fresh_input(&self, terminal_height: u16) -> (input: Input)
        requires
            self@.config.navigable(),
            self@.on_page(),
        ensures
            input@.begins(self@.current_entry(), terminal_height),
            input@.fits(self@.current_entry()),
    {
        Input::new(
            &self.config.sections[self.section_index].entries[self.entry_index],
            terminal_height,
        )
    }

    /// Moves on after the page being asked was accepted.
    fn advance(&mut self, terminal_height: u16)
        requires
            old(self).wf(),
            old(self)@.status == Status::Active,
        ensures
            final(self).wf(),
            old(self)@.accepted(final(self)@, terminal_height),
    {
        proof {
            lemma_page_of_in_range(
                self.config@,
                self.section_index as int,
                self.entry_index as int,
            );
        }
        if self.page_number < self.total_pages {
            if self.entry_index + 1 < self.config.sections[self.section_index].entries.len() {
                self.entry_index += 1;
            } else {
                let mut next: usize = self.section_index + 1;
                while next < self.config.sections.len() && self.config.sections[next].entries.len()
                    == 0
                    invariant
                        next <= self.config.sections.len(),
                        self.config@.pages_before(next as int) == self.page_number,
                    decreases self.config.sections.len() - next,
                {
                    next += 1;
                }
                self.section_index = next;
                self.entry_index = 0;
            }
            self.page_number += 1;
            self.input = self.fresh_input(terminal_height);
        } else {
            self.page_number += 1;
            self.status = Status::Completed;
        }
    }

    /// Moves to the page before the one being asked, if there is one.
    fn retreat(&mut self, terminal_height: u16)
        requires
            old(self).wf(),
            old(self)@.status == Status::Active,
        ensures
            final(self).wf(),
            old(self)@.backed(final(self)@, terminal_height),
    {
        proof {
            lemma_page_of_in_range(
                self.config@,
                self.section_index as int,
                self.entry_index as int,
            );
        }
        if self.page_number > 1 {
            if self.entry_index > 0 {
                self.entry_index -= 1;
            } else {
                let mut previous: usize = self.section_index;
                while previous > 0 && self.config.sections[previous - 1].entries.len() == 0
                    invariant
                        previous <= self.section_index < self.config.sections.len(),
                        self.config@.pages_before(previous as int) == self.page_number - 1,
                        self.page_number > 1,
                    decreases previous,
                {
                    previous -= 1;
                }
                self.section_index = previous - 1;
                self.entry_index = self.config.sections[self.section_index].entries.len() - 1;
            }
            self.page_number -= 1;
        }
        self.input = self.fresh_input(terminal_height);
    }

    /// Acts on the outcome of the page being asked. A walk that has ended
    /// stays as it is.
    pub fn apply(&mut self, outcome: InputResult, terminal_height: u16)
        requires
            old(self).wf(),
        ensures
            final(self).wf(),
            old(self)@.status == Status::Active ==> old(self)@.applied(
                outcome,
                terminal_height,
                final(self)@,
            ),
            old(self)@.status != Status::Active ==> final(self)@ == old(self)@,
    {
        if self.status == Status::Active {
            match outcome {
                InputResult::Accept => self.advance(terminal_height),
                InputResult::Back => self.retreat(terminal_height),
                InputResult::Cancel => {
                    self.status = Status::Cancelled;
                },
            }
        }
    }
}

impl Navigator {
    /// Hands `event` to the controller of the page being asked.
    fn edit(&mut self, event: Event) -> (r: Option<InputResult>)
        requires
            old(self).wf(),
            old(self)@.status == Status::Active,
        ensures
            final(self).wf(),
            final(self)@ == old(self)@.edited(event),
            r == page_step(old(self)@.current_entry(), old(self)@.input, event).2,
            r == Some(InputResult::Back) || r == Some(InputResult::Cancel) ==> final(self)@ == old(
                self,
            )@,
    {
        let s: usize = self.section_index;
        let e: usize = self.entry_index;
        let r = match &mut self.input {
            Input::Text(input) => match &mut self.config.sections[s].entries[e] {
                Entry::Text(entry) => input_text(entry, input, event),
                _ => None,
            },
            Input::Choice(input) => match &mut self.config.sections[s].entries[e] {
                Entry::Choice(entry) => input_choice(entry, input, event),
                _ => None,
            },
            Input::Boolean(input) => match &mut self.config.sections[s].entries[e] {
                Entry::Boolean(entry) => input_bool(entry, input, event),
                _ => None,
            },
        };
        proof {
            let before = old(self).config@;
            let after = self.config@;
            let step = page_step(old(self)@.current_entry(), old(self)@.input, event);
            assert(after.sections[s as int].entries =~= before.sections[s as int].entries.update(
                e as int,
                step.0,
            ));
            assert(after == before.with_entry(s as int, e as int, step.0));
            lemma_edited_keeps_wf(old(self)@, event);
        }
        r
    }

    /// Takes one event. A walk that has ended ignores it; otherwise the
    /// controller of the page being asked takes it, and once the page has
    /// ended, the outcome moves the walk. `terminal_height` is the height
    /// of the terminal now; a choice page that starts here sizes its list
    /// by it.
    pub fn handle(&mut self, event: Event, terminal_height: u16)
        requires
            old(self).wf(),
        ensures
            final(self).wf(),
            old(self)@.handled(event, terminal_height, final(self)@),
    {
        if self.status == Status::Active {
            match self.edit(event) {
                Some(outcome) => self.apply(outcome, terminal_height),
                None => {},
            }
        }
    }
}

/// While the walk has not been completed, the page counter lies between 1
/// and the number of pages.
pub proof fn lemma_page_counter_in_bounds(nav: NavigatorView)
    requires
        nav.wf(),
        nav.status != Status::Completed,
    ensures
        1 <= nav.page_number <= nav.config.total_pages(),
{
    lemma_page_of_in_range(nav.config, nav.section_index as int, nav.entry_index as int);
}

/// Accepting an entry that is not the last of its section leads to the
/// next entry of the same section.
pub proof fn lemma_accept_within_section(
    nav: NavigatorView,
    next: NavigatorView,
    terminal_height: u16,
)
    requires
        nav.wf(),
        nav.status == Status::Active,
        nav.entry_index + 1 < nav.config.sections[nav.section_index as int].entries.len(),
        nav.accepted(next, terminal_height),
    ensures
        next.status == Status::Active,
        next.section_index == nav.section_index,
        next.entry_index == nav.entry_index + 1,
        next.page_number == nav.page_number + 1,
{
    let s = nav.section_index as int;
    let e = nav.entry_index as int;
    lemma_page_of_in_range(nav.config, s, e + 1);
    lemma_page_fixes_position(
        nav.config,
        s,
        e + 1,
        next.section_index as int,
        next.entry_index as int,
    );
}

/// Accepting the last entry of a section that is followed by a section
/// with entries leads to the first entry of that section.
pub proof fn lemma_accept_into_next_section(
    nav: NavigatorView,
    next: NavigatorView,
    terminal_height: u16,
)
    requires
        nav.wf(),
        nav.status == Status::Active,
        nav.entry_index + 1 == nav.config.sections[nav.section_index as int].entries.len(),
        nav.section_index + 1 < nav.config.sections.len(),
        nav.config.sections[nav.section_index + 1].entries.len() > 0,
        nav.accepted(next, terminal_height),
    ensures
        next.status == Status::Active,
        next.section_index == nav.section_index + 1,
        next.entry_index == 0,
        next.page_number == nav.page_number + 1,
{
    let s = nav.section_index as int;
    lemma_page_of_in_range(nav.config, s + 1, 0);
    lemma_page_fixes_position(
        nav.config,
        s + 1,
        0,
        next.section_index as int,
        next.entry_index as int,
    );
}

/// Accepting the last entry of the last section completes the walk.
pub proof fn lemma_accept_at_last_entry(
    nav: NavigatorView,
    next: NavigatorView,
    terminal_height: u16,
)
    requires
        nav.wf(),
        nav.status == Status::Active,
        nav.section_index + 1 == nav.config.sections.len(),
        nav.entry_index + 1 == nav.config.sections[nav.section_index as int].entries.len(),
        nav.accepted(next, terminal_height),
    ensures
        next.status == Status::Completed,
{
}

/// Going back from an entry that is not the first of its section leads to
/// the entry before it.
pub proof fn lemma_back_within_section(
    nav: NavigatorView,
    next: NavigatorView,
    terminal_height: u16,
)
    requires
        nav.wf(),
        nav.status == Status::Active,
        nav.entry_index > 0,
        nav.backed(next, terminal_height),
    ensures
        next.section_index == nav.section_index,
        next.entry_index == nav.entry_index - 1,
        next.page_number == nav.page_number - 1,
{
    let s = nav.section_index as int;
    let e = nav.entry_index as int;
    lemma_pages_before_monotonic(nav.config, 0, s);
    lemma_page_fixes_position(
        nav.config,
        s,
        e - 1,
        next.section_index as int,
        next.entry_index as int,
    );
}

/// Going back from the first entry of a section that follows a section
/// with entries leads to the last entry of that section, and the page
/// counter is then the number of entries up to and including it.
pub proof fn lemma_back_into_previous_section(
    nav: NavigatorView,
    next: NavigatorView,
    terminal_height: u16,
)
    requires
        nav.wf(),
        nav.status == Status::Active,
        nav.entry_index == 0,
        nav.section_index > 0,
        nav.config.sections[nav.section_index - 1].entries.len() > 0,
        nav.backed(next, terminal_height),
    ensures
        next.section_index == nav.section_index - 1,
        next.entry_index == nav.config.sections[nav.section_index - 1].entries.len() - 1,
        next.page_number == nav.page_number - 1,
        next.page_number == nav.config.pages_before(nav.section_index as int),
{
    let s = nav.section_index as int;
    let last = nav.config.sections[s - 1].entries.len() - 1;
    lemma_pages_before_monotonic(nav.config, 0, s - 1);
    lemma_page_fixes_position(
        nav.config,
        s - 1,
        last,
        next.section_index as int,
        next.entry_index as int,
    );
}

/// Going back on page 1 changes neither the position nor the page
/// counter.
pub proof fn lemma_back_at_first_page(
    nav: NavigatorView,
    next: NavigatorView,
    terminal_height: u16,
)
    requires
        nav.wf(),
        nav.status == Status::Active,
        nav.page_number == 1,
        nav.backed(next, terminal_height),
    ensures
        next.section_index == nav.section_index,
        next.entry_index == nav.entry_index,
        next.page_number == 1,
        next.status == Status::Active,
        next.config == nav.config,
{
    lemma_page_fixes_position(
        nav.config,
        nav.section_index as int,
        nav.entry_index as int,
        next.section_index as int,
        next.entry_index as int,
    );
}

/// Cancelling ends the walk wherever it stands, and no event moves it
/// afterwards.
pub proof fn lemma_cancel_is_final(
    nav: NavigatorView,
    event: Event,
    terminal_height: u16,
    next: NavigatorView,
)
    requires
        nav.status == Status::Active,
        nav.cancelled().handled(event, terminal_height, next),
    ensures
        nav.cancelled().status == Status::Cancelled,
        next == nav.cancelled(),
{
}

/// Why a walk gave no message.
#[derive(Debug)]
pub enum WizardError {
    /// The user gave up.
    Cancelled,
    /// Pages are still to be asked.
    Unfinished,
    /// The template engine failed; the text is its own.
    Render(String),
}

/// The body of the page over `entry` in the editing state `input`; for a
/// state of another kind than the entry, the body of the state alone.
pub open spec fn page_body_of(symbols: TuiSymbols, entry: EntryView, input: InputView) -> BodyView {
    match input {
        InputView::Text(buffer) => text_body_of(symbols, buffer),
        InputView::Boolean(i) => bool_body_of(i),
        InputView::Choice(i) => match entry {
            EntryView::Choice(e) => choice_body_of(e, i),
            _ => bool_body_of(BooleanInput { yes: false }),
        },
    }
}

/// A centred frame needs a terminal at least eight cells wide, and a body
/// whose height, with the rows of the frame added, is a screen height.
pub open spec fn frame_fits(layout: TUILayout, terminal_area: Rect, body_height: u16) -> bool {
    layout == TUILayout::FullscreenCenter ==> terminal_area.width >= 8 && body_height
        + TERMINAL_MIN_HEIGHT <= u16::MAX
}

impl NavigatorView {
    /// What is drawn for the page being asked.
    pub open spec fn frame(self, tui_config: TUIConfig, terminal_area: Rect) -> FrameView {
        let body = page_body_of(tui_config.symbols, self.current_entry(), self.input);
        frame_of(
            tui_config,
            self.page_number as nat,
            self.config.total_pages() as nat,
            body.height,
            self.current_entry().label(),
            self.current_entry().description(),
            terminal_area,
            body.lines,
            body.dimensions,
        )
    }

    /// What a walk in this state has to show for itself: the rendered
    /// message once every page was accepted, and else the reason why there
    /// is none.
    pub open spec fn outcome(self) -> Outcome {
        match self.status {
            Status::Cancelled => Outcome::Cancelled,
            Status::Active => Outcome::Unfinished,
            Status::Completed => match rendered(
                self.config.template,
                field_map(self.config.fields()),
            ) {
                Ok(text) => Outcome::Message(text),
                Err(why) => Outcome::Render(why),
            },
        }
    }
}

/// The outcome of a walk, in views.
pub enum Outcome {
    Message(Seq<char>),
    Cancelled,
    Unfinished,
    Render(Seq<char>),
}

/// The outcome that a result stands for.
pub open spec fn outcome_of(r: Result<String, WizardError>) -> Outcome {
    match r {
        Ok(text) => Outcome::Message(text@),
        Err(WizardError::Cancelled) => Outcome::Cancelled,
        Err(WizardError::Unfinished) => Outcome::Unfinished,
        Err(WizardError::Render(why)) => Outcome::Render(why@),
    }
}

impl Navigator {
    /// Where the walk stands.
    pub fn status(&self) -> (r: Status)
        ensures
            r == self@.status,
    {
        self.status
    }

    /// The number of the page being asked, counted from 1.
    pub fn page_number(&self) -> (r: usize)
        ensures
            r == self@.page_number,
    {
        self.page_number
    }

    /// The number of pages.
    pub fn total_pages(&self) -> (r: usize)
        requires
            self.wf(),
        ensures
            r == self@.config.total_pages(),
    {
        self.total_pages
    }

    /// The section of the page being asked.
    pub fn section_index(&self) -> (r: usize)
        ensures
            r == self@.section_index,
    {
        self.section_index
    }

    /// The place of the page being asked in its section.
    pub fn entry_index(&self) -> (r: usize)
        ensures
            r == self@.entry_index,
    {
        self.entry_index
    }

    /// The configuration with the answers given so far.
    pub fn configuration(&self) -> (r: &Configuration)
        ensures
            r@ == self@.config,
    {
        &self.config
    }

    /// The editing state of the page being asked.
    pub fn input(&self) -> (r: &Input)
        ensures
            r@ == self@.input,
    {
        &self.input
    }

    /// The entry being asked; `None` once the walk has ended.
    pub fn current_entry(&self) -> (r: Option<&Entry>)
        requires
            self.wf(),
        ensures
            match r {
                Some(entry) => self@.status == Status::Active && entry@ == self@.current_entry(),
                None => self@.status != Status::Active,
            },
    {
        if self.status == Status::Active {
            Some(&self.config.sections[self.section_index].entries[self.entry_index])
        } else {
            None
        }
    }

    /// The lines of the page being asked.
    fn body(&self, symbols: &TuiSymbols) -> (body: Body)
        requires
            self.wf(),
            self@.status == Status::Active,
        ensures
            body@ == page_body_of(*symbols, self@.current_entry(), self@.input),
    {
        match &self.input {
            Input::Text(input) => text_body(symbols, input),
            Input::Boolean(input) => bool_body(input),
            Input::Choice(input) => {
                match &self.config.sections[self.section_index].entries[self.entry_index] {
                    Entry::Choice(entry) => choice_body(entry, input),
                    _ => bool_body(&BooleanInput { yes: false }),
                }
            },
        }
    }

    /// What is to be drawn for the page being asked, on a terminal whose
    /// drawing area is `terminal_area`. `None` once the walk has ended, and
    /// where a centred frame does not fit.
    pub fn frame(&self, tui_config: &TUIConfig, terminal_area: Rect) -> (r: Option<Frame>)
        requires
            self.wf(),
        ensures
            match r {
                Some(frame) => {
                    &&& self@.status == Status::Active
                    &&& frame_fits(
                        tui_config.layout,
                        terminal_area,
                        page_body_of(tui_config.symbols, self@.current_entry(), self@.input).height,
                    )
                    &&& frame@ == self@.frame(*tui_config, terminal_area)
                },
                None => self@.status != Status::Active || !frame_fits(
                    tui_config.layout,
                    terminal_area,
                    page_body_of(tui_config.symbols, self@.current_entry(), self@.input).height,
                ),
            },
    {
        if self.status != Status::Active {
            return None;
        }
        let body = self.body(&tui_config.symbols);
        if tui_config.layout == TUILayout::FullscreenCenter && (terminal_area.width < 8
            || body.height > u16::MAX - TERMINAL_MIN_HEIGHT) {
            return None;
        }
        let entry = &self.config.sections[self.section_index].entries[self.entry_index];
        Some(
            draw_frame(
                tui_config,
                self.page_number,
                self.total_pages,
                body.height,
                entry.label(),
                entry.description(),
                terminal_area,
                body.lines,
                body.dimensions,
            ),
        )
    }

    /// Turns the outcome of the template engine into the outcome of a
    /// completed walk.
    pub fn report(rendering: Result<String, RenderError>) -> (r: Result<String, WizardError>)
        ensures
            match rendering {
                Ok(text) => r == Ok::<String, WizardError>(text),
                Err(RenderError::Template(why)) => r == Err::<String, WizardError>(
                    WizardError::Render(why),
                ),
            },
    {
        match rendering {
            Ok(text) => Ok(text),
            Err(RenderError::Template(why)) => Err(WizardError::Render(why)),
        }
    }

    /// The message of the walk. A cancelled walk reports the cancellation
    /// and renders nothing; a completed walk hands the answers of all
    /// entries to the template engine and returns what it renders or the
    /// error it reports.
    pub fn finish(&self) -> (r: Result<String, WizardError>)
        ensures
            outcome_of(r) == self@.outcome(),
    {
        match self.status {
            Status::Cancelled => Err(WizardError::Cancelled),
            Status::Active => Err(WizardError::Unfinished),
            Status::Completed => Navigator::report(
                render_message(self.config.field_values(), &self.config.template),
            ),
        }
    }
}

/// An event changes answers only: the questions, their order and the
/// template stay as they are.
pub proof fn lemma_events_change_answers_only(
    nav: NavigatorView,
    event: Event,
    terminal_height: u16,
    next: NavigatorView,
)
    requires
        nav.wf(),
        nav.handled(event, terminal_height, next),
    ensures
        next.config.reset() == nav.config.reset(),
        next.config.total_pages() == nav.config.total_pages(),
{
    if nav.status == Status::Active {
        let mid = nav.edited(event);
        assert forall|i: int|
            0 <= i < nav.config.sections.len() implies mid.config.sections[i].reset()
            == nav.config.sections[i].reset() by {}
        assert(mid.config.reset().sections =~= nav.config.reset().sections);
        lemma_edited_keeps_wf(nav, event);
    }
}

/// An event taken by the page being asked leaves the walk in step: the
/// position, the counter and the number of pages stay, and the editing
/// state still fits the entry. Going back and cancelling change neither
/// the entry nor the editing state.
pub proof fn lemma_edited_keeps_wf(nav: NavigatorView, event: Event)
    requires
        nav.wf(),
        nav.status == Status::Active,
    ensures
        nav.edited(event).wf(),
        nav.edited(event).config.total_pages() == nav.config.total_pages(),
        page_step(nav.current_entry(), nav.input, event).2 == Some(InputResult::Back) || page_step(
            nav.current_entry(),
            nav.input,
            event,
        ).2 == Some(InputResult::Cancel) ==> nav.edited(event) == nav,
{
    let s = nav.section_index as int;
    let before = nav.config;
    let step = page_step(nav.current_entry(), nav.input, event);
    let after = nav.edited(event).config;
    lemma_same_shape_same_pages(before, after, s);
    lemma_same_shape_same_pages(before, after, before.sections.len() as int);
    assert forall|i: int, j: int| #![trigger after.sections[i].entries[j]]
        after.has_entry(i, j) implies (after.sections[i].entries[j] matches EntryView::Choice(c)
        ==> 0 < c.choices.len() <= usize::MAX) by {}
    if step.2 == Some(InputResult::Back) || step.2 == Some(InputResult::Cancel) {
        assert(after.sections[s].entries =~= before.sections[s].entries);
    }
}

} // verus!
