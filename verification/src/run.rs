//! Runs of the walk: what holds of every sequence of events.

use crate::config::{lemma_page_of_in_range, EntryView};
use crate::input::{Event, InputResult};
use crate::navigator::{
    lemma_edited_keeps_wf, lemma_events_change_answers_only, page_step, InputView, NavigatorView,
    Status,
};
use crate::viewport::{lemma_initial_window_valid, lemma_scroll_shows_selection, Viewport};
use vstd::prelude::*;

verus! {

/// A run: the states that a walk passes through, from its start, and the
/// events that lead from each to the next. `heights` holds the height of
/// the terminal at the start and after each event.
pub open spec fn is_run(states: Seq<NavigatorView>, events: Seq<Event>, heights: Seq<u16>) -> bool {
    &&& states.len() == events.len() + 1
    &&& heights.len() == states.len()
    &&& states[0].config.navigable()
    &&& states[0].starts(heights[0])
    &&& forall|i: int|
        0 <= i < events.len() ==> #[trigger] states[i].handled(
            events[i],
            heights[i + 1],
            states[i + 1],
        )
}

/// An editing state that a page starts in fits the page's entry.
pub proof fn lemma_fresh_input_fits(input: InputView, entry: EntryView, terminal_height: u16)
    requires
        input.begins(entry, terminal_height),
        entry matches EntryView::Choice(c) ==> 0 < c.choices.len() <= usize::MAX,
    ensures
        input.fits(entry),
{
    match (input, entry) {
        (InputView::Choice(i), EntryView::Choice(e)) => {
            let length = e.choices.len() as int;
            let height = i.window_height as int;
            lemma_initial_window_valid(length, height);
            if height >= 1 {
                lemma_scroll_shows_selection(
                    Viewport::initial(length, height),
                    length,
                    height,
                    i.selected_index as int,
                );
            }
        },
        _ => {},
    }
}

/// The state in which a walk starts keeps counter and position in step.
pub proof fn lemma_start_is_valid(nav: NavigatorView, terminal_height: u16)
    requires
        nav.config.navigable(),
        nav.starts(terminal_height),
    ensures
        nav.wf(),
{
    if nav.config.total_pages() != 0 {
        assert(nav.config.has_entry(nav.section_index as int, nav.entry_index as int));
        lemma_fresh_input_fits(nav.input, nav.current_entry(), terminal_height);
    }
}

/// An event leads from a state with counter and position in step to
/// another such state.
pub proof fn lemma_handled_keeps_wf(
    nav: NavigatorView,
    event: Event,
    terminal_height: u16,
    next: NavigatorView,
)
    requires
        nav.wf(),
        nav.handled(event, terminal_height, next),
    ensures
        next.wf(),
        next.config.total_pages() == nav.config.total_pages(),
{
    lemma_events_change_answers_only(nav, event, terminal_height, next);
    if nav.status == Status::Active {
        lemma_edited_keeps_wf(nav, event);
        lemma_page_of_in_range(nav.config, nav.section_index as int, nav.entry_index as int);
        if next.status == Status::Active {
            assert(next.config.has_entry(next.section_index as int, next.entry_index as int));
            if page_step(nav.current_entry(), nav.input, event).2 is Some {
                lemma_fresh_input_fits(next.input, next.current_entry(), terminal_height);
            }
        }
    }
}

/// Every state of a run keeps counter and position in step, and the number
/// of pages never changes.
pub proof fn lemma_run_keeps_wf(
    states: Seq<NavigatorView>,
    events: Seq<Event>,
    heights: Seq<u16>,
    i: int,
)
    requires
        is_run(states, events, heights),
        0 <= i < states.len(),
    ensures
        states[i].wf(),
        states[i].config.total_pages() == states[0].config.total_pages(),
    decreases i,
{
    if i == 0 {
        lemma_start_is_valid(states[0], heights[0]);
    } else {
        let k = i - 1;
        lemma_run_keeps_wf(states, events, heights, k);
        assert(states[k].handled(events[k], heights[k + 1], states[k + 1]));
        lemma_handled_keeps_wf(states[k], events[k], heights[k + 1], states[k + 1]);
    }
}

/// In every state of a run that is not completed, the page counter lies
/// between 1 and the number of pages.
pub proof fn lemma_run_page_in_bounds(
    states: Seq<NavigatorView>,
    events: Seq<Event>,
    heights: Seq<u16>,
    i: int,
)
    requires
        is_run(states, events, heights),
        0 <= i < states.len(),
        states[i].status != Status::Completed,
    ensures
        1 <= states[i].page_number <= states[0].config.total_pages(),
{
    lemma_run_keeps_wf(states, events, heights, i);
    lemma_page_of_in_range(
        states[i].config,
        states[i].section_index as int,
        states[i].entry_index as int,
    );
}

/// The event at place `i` of a run accepts page `page`.
pub open spec fn accepts_page(
    states: Seq<NavigatorView>,
    events: Seq<Event>,
    i: int,
    page: int,
) -> bool {
    &&& 0 <= i < events.len()
    &&& states[i].status == Status::Active
    &&& states[i].page_number == page
    &&& page_step(states[i].current_entry(), states[i].input, events[i]).2 == Some(
        InputResult::Accept,
    )
}

/// The last place before `upto` at which the page counter of a run is not
/// above `page`.
proof fn last_at_or_below(
    states: Seq<NavigatorView>,
    events: Seq<Event>,
    heights: Seq<u16>,
    page: int,
    upto: int,
) -> (i: int)
    requires
        is_run(states, events, heights),
        1 <= page,
        0 <= upto < states.len(),
        states[upto].page_number > page,
    ensures
        0 <= i < upto,
        states[i].page_number <= page,
        states[i + 1].page_number > page,
    decreases upto,
{
    if states[upto - 1].page_number <= page {
        upto - 1
    } else {
        last_at_or_below(states, events, heights, page, upto - 1)
    }
}

/// A run that ends completed has accepted every page: for each page there
/// is an event of the run that accepts it.
pub proof fn lemma_completed_run_accepted_every_page(
    states: Seq<NavigatorView>,
    events: Seq<Event>,
    heights: Seq<u16>,
    page: int,
)
    requires
        is_run(states, events, heights),
        states.last().status == Status::Completed,
        1 <= page <= states[0].config.total_pages(),
    ensures
        exists|i: int| accepts_page(states, events, i, page),
{
    let last = states.len() - 1;
    lemma_run_keeps_wf(states, events, heights, last);
    let i = last_at_or_below(states, events, heights, page, last);
    lemma_run_keeps_wf(states, events, heights, i);
    assert(states[i].handled(events[i], heights[i + 1], states[i + 1]));
    lemma_edited_keeps_wf(states[i], events[i]);
    assert(accepts_page(states, events, i, page));
}

/// A run that was cancelled stays cancelled, whatever follows.
pub proof fn lemma_cancelled_run_stays_cancelled(
    states: Seq<NavigatorView>,
    events: Seq<Event>,
    heights: Seq<u16>,
    i: int,
    j: int,
)
    requires
        is_run(states, events, heights),
        0 <= i <= j < states.len(),
        states[i].status == Status::Cancelled,
    ensures
        states[j] == states[i],
    decreases j - i,
{
    if i < j {
        let k = j - 1;
        lemma_cancelled_run_stays_cancelled(states, events, heights, i, k);
        assert(states[k].handled(events[k], heights[k + 1], states[k + 1]));
    }
}

} // verus!
