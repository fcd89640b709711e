use commity::config::{
    Choice, Configuration, Entry, EntryBoolean, EntryChoice, EntryText, Section,
};
use commity::input::{Event, InputResult};
use commity::navigator::{Input, Navigator, Status, WizardError};

fn text(name: &str, default: &str) -> Entry {
    Entry::Text(EntryText {
        name: name.to_string(),
        label: format!("Label of {}", name),
        description: format!("About {}", name),
        min_length: 0,
        max_length: 100,
        multi_line: false,
        default: default.to_string(),
        value: default.to_string(),
    })
}

fn boolean(name: &str, default: bool) -> Entry {
    Entry::Boolean(EntryBoolean {
        name: name.to_string(),
        label: format!("Label of {}", name),
        description: format!("About {}", name),
        default,
        value: default,
    })
}

fn choice(name: &str, values: &[&str], default: &str) -> Entry {
    Entry::Choice(EntryChoice {
        name: name.to_string(),
        label: format!("Label of {}", name),
        description: format!("About {}", name),
        choices: values
            .iter()
            .map(|v| Choice { value: v.to_string(), label: format!("The {}", v) })
            .collect(),
        default: default.to_string(),
        value: default.to_string(),
    })
}

fn section(title: &str, entries: Vec<Entry>) -> Section {
    Section { title: title.to_string(), entries }
}

fn config(sections: Vec<Section>, template: &str) -> Configuration {
    Configuration { sections, template: template.to_string() }
}

fn position(nav: &Navigator) -> (usize, usize, usize) {
    (nav.section_index(), nav.entry_index(), nav.page_number())
}

fn type_text(nav: &mut Navigator, text: &str) {
    for c in text.chars() {
        nav.handle(Event::CharacterInput(c), 24);
    }
}

#[test]
fn summary_and_breaking_flag_render_the_message() {
    let config = config(
        vec![section("Commit", vec![text("summary", ""), boolean("breaking", false)])],
        "{{summary}}{% if breaking %} [BREAKING]{% endif %}",
    );
    let mut nav = Navigator::new(config, 24).unwrap();
    assert_eq!(nav.total_pages(), 2);
    type_text(&mut nav, "fix bug");
    nav.handle(Event::Confirm, 24);
    assert_eq!(position(&nav), (0, 1, 2));
    nav.handle(Event::MoveDown, 24);
    nav.handle(Event::Confirm, 24);
    assert_eq!(nav.status(), Status::Completed);
    assert_eq!(nav.finish().unwrap(), "fix bug [BREAKING]");
}

#[test]
fn untouched_flag_leaves_the_marker_out() {
    let config = config(
        vec![section("Commit", vec![text("summary", ""), boolean("breaking", false)])],
        "{{summary}}{% if breaking %} [BREAKING]{% endif %}",
    );
    let mut nav = Navigator::new(config, 24).unwrap();
    type_text(&mut nav, "fix bug");
    nav.handle(Event::Confirm, 24);
    nav.handle(Event::Confirm, 24);
    assert_eq!(nav.finish().unwrap(), "fix bug");
}

#[test]
fn cancel_on_the_second_of_three_pages() {
    let config = config(
        vec![section("S", vec![text("a", ""), text("b", ""), text("c", "")])],
        "{{ this is not a template",
    );
    let mut nav = Navigator::new(config, 24).unwrap();
    nav.handle(Event::Confirm, 24);
    assert_eq!(position(&nav), (0, 1, 2));
    nav.handle(Event::Cancel, 24);
    assert_eq!(nav.status(), Status::Cancelled);
    assert_eq!(position(&nav), (0, 1, 2));
    assert!(matches!(nav.finish(), Err(WizardError::Cancelled)));
    nav.handle(Event::Confirm, 24);
    assert_eq!(nav.status(), Status::Cancelled);
    assert_eq!(position(&nav), (0, 1, 2));
}

#[test]
fn back_across_a_section_boundary_lands_on_the_last_entry_before() {
    let config = config(
        vec![
            section("One", vec![text("a", ""), text("b", ""), text("c", "")]),
            section("Two", vec![text("d", ""), text("e", "")]),
        ],
        "",
    );
    let mut nav = Navigator::new(config, 24).unwrap();
    for _ in 0..3 {
        nav.handle(Event::Confirm, 24);
    }
    assert_eq!(position(&nav), (1, 0, 4));
    nav.handle(Event::MoveLeft, 24);
    assert_eq!(position(&nav), (0, 2, 3));
    assert_eq!(nav.status(), Status::Active);
}

#[test]
fn back_across_sections_of_different_lengths() {
    let config = config(
        vec![
            section("One", vec![text("a", "")]),
            section("Two", vec![text("b", ""), text("c", ""), text("d", "")]),
        ],
        "",
    );
    let mut nav = Navigator::new(config, 24).unwrap();
    nav.handle(Event::Confirm, 24);
    assert_eq!(position(&nav), (1, 0, 2));
    nav.handle(Event::MoveLeft, 24);
    assert_eq!(position(&nav), (0, 0, 1));
}

#[test]
fn back_on_the_first_page_changes_nothing() {
    let config = config(vec![section("S", vec![text("a", "x"), text("b", "")])], "");
    let mut nav = Navigator::new(config, 24).unwrap();
    assert_eq!(position(&nav), (0, 0, 1));
    nav.handle(Event::MoveLeft, 24);
    assert_eq!(position(&nav), (0, 0, 1));
    assert_eq!(nav.status(), Status::Active);
    nav.apply(InputResult::Back, 24);
    assert_eq!(position(&nav), (0, 0, 1));
}

#[test]
fn back_abandons_edits_in_progress() {
    let config = config(vec![section("S", vec![text("a", ""), text("b", "")])], "{{a}}|{{b}}");
    let mut nav = Navigator::new(config, 24).unwrap();
    type_text(&mut nav, "first");
    nav.handle(Event::Confirm, 24);
    type_text(&mut nav, "dropped");
    nav.handle(Event::MoveLeft, 24);
    assert_eq!(position(&nav), (0, 0, 1));
    match nav.input() {
        Input::Text(input) => assert_eq!(input.buffer, "first"),
        _ => panic!("a text page has a text buffer"),
    }
    nav.handle(Event::Confirm, 24);
    match nav.input() {
        Input::Text(input) => assert_eq!(input.buffer, ""),
        _ => panic!("a text page has a text buffer"),
    }
    nav.handle(Event::Confirm, 24);
    assert_eq!(nav.finish().unwrap(), "first|");
}

#[test]
fn accept_on_the_last_entry_of_the_last_section_completes() {
    let config = config(
        vec![section("One", vec![text("a", "")]), section("Two", vec![boolean("b", true)])],
        "{{a}}",
    );
    let mut nav = Navigator::new(config, 24).unwrap();
    nav.handle(Event::Confirm, 24);
    assert_eq!(nav.status(), Status::Active);
    nav.handle(Event::Confirm, 24);
    assert_eq!(nav.status(), Status::Completed);
    assert_eq!(nav.page_number(), 3);
    assert!(nav.current_entry().is_none());
    nav.handle(Event::MoveLeft, 24);
    assert_eq!(nav.status(), Status::Completed);
}

#[test]
fn page_counter_stays_between_one_and_the_total() {
    let config = config(
        vec![
            section("One", vec![text("a", ""), boolean("b", false)]),
            section("Empty", vec![]),
            section("Two", vec![choice("c", &["x", "y"], "y")]),
        ],
        "",
    );
    let mut nav = Navigator::new(config, 24).unwrap();
    assert_eq!(nav.total_pages(), 3);
    let script = [
        Event::MoveLeft,
        Event::Confirm,
        Event::MoveLeft,
        Event::MoveLeft,
        Event::Confirm,
        Event::Confirm,
        Event::MoveLeft,
        Event::Confirm,
        Event::MoveUp,
        Event::MoveLeft,
        Event::MoveLeft,
        Event::MoveLeft,
        Event::MoveLeft,
    ];
    for event in script {
        nav.handle(event, 24);
        assert_eq!(nav.status(), Status::Active);
        assert!(1 <= nav.page_number() && nav.page_number() <= 3);
    }
    assert_eq!(position(&nav), (0, 0, 1));
}

#[test]
fn empty_sections_are_passed_over_in_both_directions() {
    let config = config(
        vec![
            section("Empty", vec![]),
            section("One", vec![text("a", "")]),
            section("Empty", vec![]),
            section("Empty", vec![]),
            section("Two", vec![text("b", "")]),
            section("Empty", vec![]),
        ],
        "{{a}}{{b}}",
    );
    let mut nav = Navigator::new(config, 24).unwrap();
    assert_eq!(position(&nav), (1, 0, 1));
    nav.handle(Event::Confirm, 24);
    assert_eq!(position(&nav), (4, 0, 2));
    nav.handle(Event::MoveLeft, 24);
    assert_eq!(position(&nav), (1, 0, 1));
    nav.handle(Event::Confirm, 24);
    nav.handle(Event::Confirm, 24);
    assert_eq!(nav.status(), Status::Completed);
}

#[test]
fn configuration_without_entries_is_complete_at_once() {
    let nav = Navigator::new(config(vec![section("Empty", vec![])], "done"), 24).unwrap();
    assert_eq!(nav.status(), Status::Completed);
    assert_eq!(nav.total_pages(), 0);
    assert_eq!(nav.finish().unwrap(), "done");
}

#[test]
fn choice_without_options_cannot_be_walked() {
    let config = config(vec![section("S", vec![choice("c", &[], "")])], "");
    assert!(!config.is_navigable());
    assert!(Navigator::new(config, 24).is_none());
}

#[test]
fn unfinished_walk_gives_no_message() {
    let nav = Navigator::new(config(vec![section("S", vec![text("a", "")])], "x"), 24).unwrap();
    assert!(matches!(nav.finish(), Err(WizardError::Unfinished)));
}

#[test]
fn template_error_is_reported_after_completion() {
    let mut nav =
        Navigator::new(config(vec![section("S", vec![text("a", "")])], "{% if %}"), 24).unwrap();
    nav.handle(Event::Confirm, 24);
    assert_eq!(nav.status(), Status::Completed);
    match nav.finish() {
        Err(WizardError::Render(why)) => assert!(!why.is_empty()),
        _ => panic!("a broken template is a render error"),
    }
}

#[test]
fn choice_page_starts_on_the_committed_value_when_revisited() {
    let config = config(
        vec![section("S", vec![choice("kind", &["a", "b", "c", "d", "e"], ""), text("t", "")])],
        "{{kind}}",
    );
    let mut nav = Navigator::new(config, 24).unwrap();
    match nav.input() {
        Input::Choice(input) => assert_eq!(input.selected_index, 0),
        _ => panic!("a choice page has a choice state"),
    }
    nav.handle(Event::MoveDown, 24);
    nav.handle(Event::MoveDown, 24);
    nav.handle(Event::Confirm, 24);
    nav.handle(Event::MoveLeft, 24);
    match nav.input() {
        Input::Choice(input) => assert_eq!(input.selected_index, 2),
        _ => panic!("a choice page has a choice state"),
    }
    nav.handle(Event::Confirm, 24);
    nav.handle(Event::Confirm, 24);
    assert_eq!(nav.finish().unwrap(), "c");
}

#[test]
fn outcomes_can_be_applied_directly() {
    let config = config(vec![section("S", vec![text("a", ""), text("b", "")])], "");
    let mut nav = Navigator::new(config, 24).unwrap();
    nav.apply(InputResult::Accept, 24);
    assert_eq!(position(&nav), (0, 1, 2));
    nav.apply(InputResult::Cancel, 24);
    assert_eq!(nav.status(), Status::Cancelled);
    nav.apply(InputResult::Accept, 24);
    assert_eq!(position(&nav), (0, 1, 2));
}

#[test]
fn current_entry_is_the_one_at_the_position() {
    let config = config(vec![section("S", vec![text("a", ""), boolean("b", false)])], "");
    let mut nav = Navigator::new(config, 24).unwrap();
    assert_eq!(nav.current_entry().unwrap().name(), "a");
    nav.handle(Event::Confirm, 24);
    assert_eq!(nav.current_entry().unwrap().name(), "b");
    assert_eq!(nav.configuration().sections[0].entries.len(), 2);
}
