use commity::config::{Candidate, Configuration, Entry, EntryChoice, LoadError, Section};
use commity::frame::Rect;
use commity::navigator::Navigator;
use commity::render::RenderError;
use commity::tui_config::{TUIConfig, TUILayout, TuiSymbols};
use commity::utils::{data_dir_under, get_data_dir, DataDirError};
use commity::{render_fields, Config, EntryMode, Field, FieldValue};
use std::path::PathBuf;

fn written(template: &str) -> Config {
    Config {
        sections: vec![commity::Section {
            title: "S".to_string(),
            entries: vec![commity::Entry::Boolean(commity::EntryBoolean {
                mode: EntryMode::Optional,
                name: "b".to_string(),
                label: "B".to_string(),
                description: "d".to_string(),
                default: true,
            })],
        }],
        template: template.to_string(),
    }
}

#[test]
fn data_directory_is_the_child_named_after_the_application() {
    assert_eq!(
        data_dir_under(Some(PathBuf::from("/home/alice/.local/share"))),
        Ok(PathBuf::from("/home/alice/.local/share/commity"))
    );
    assert_eq!(
        data_dir_under(Some(PathBuf::from("relative"))),
        Ok(PathBuf::from("relative/commity"))
    );
}

#[test]
fn no_data_directory_without_a_base() {
    assert_eq!(data_dir_under(None), Err(DataDirError::Undetermined));
}

#[test]
fn data_directory_of_the_process_ends_in_the_application_name() {
    match get_data_dir() {
        Ok(path) => assert!(path.ends_with("commity")),
        Err(e) => assert_eq!(e, DataDirError::Undetermined),
    }
}

#[test]
fn written_configuration_of_the_repository_counts_first() {
    let chosen =
        Config::new(Candidate::Parsed(written("repo")), Candidate::Parsed(written("home")));
    assert_eq!(chosen.unwrap().template, "repo");
    let chosen = Config::new(Candidate::Absent, Candidate::Parsed(written("home"))).unwrap();
    assert_eq!(chosen.template, "home");
    assert_eq!(chosen.sections.len(), 1);
}

#[test]
fn written_configuration_missing_or_broken() {
    assert!(matches!(Config::new(Candidate::Absent, Candidate::Absent), Err(LoadError::NotFound)));
    match Config::new(Candidate::Broken("why".to_string()), Candidate::Parsed(written("home"))) {
        Err(LoadError::Unreadable(why)) => assert_eq!(why, "why"),
        _ => panic!("a broken file is an error"),
    }
    match Config::new(Candidate::Absent, Candidate::Broken("why".to_string())) {
        Err(LoadError::Unreadable(why)) => assert_eq!(why, "why"),
        _ => panic!("a broken file is an error"),
    }
}

#[test]
fn fields_render_like_a_message() {
    let data = vec![
        ("who".to_string(), FieldValue::Text("world".to_string())),
        ("loud".to_string(), FieldValue::Boolean(true)),
    ];
    let template = "hello {{ who }}{% if loud %}!{% endif %}".to_string();
    assert_eq!(render_fields(data, &template).unwrap(), "hello world!");
    assert!(matches!(render_fields(vec![], &"{{".to_string()), Err(RenderError::Template(_))));
}

#[test]
fn field_kinds_hold_their_start_values() {
    let fields = vec![
        Field::Text("t".to_string()),
        Field::Choice("v".to_string(), "l".to_string()),
        Field::Boolean(true),
    ];
    assert!(matches!(&fields[0], Field::Text(t) if t == "t"));
    assert!(matches!(&fields[1], Field::Choice(v, l) if v == "v" && l == "l"));
    assert!(matches!(&fields[2], Field::Boolean(true)));
}

#[test]
fn inline_height_is_the_longest_list_and_the_frame() {
    let list = |count: usize| {
        Entry::Choice(EntryChoice {
            name: String::new(),
            label: String::new(),
            description: String::new(),
            choices: (0..count)
                .map(|i| commity::config::Choice { value: i.to_string(), label: String::new() })
                .collect(),
            default: String::new(),
            value: String::new(),
        })
    };
    let config = Configuration {
        sections: vec![
            Section { title: String::new(), entries: vec![list(3), list(9)] },
            Section { title: String::new(), entries: vec![list(5)] },
        ],
        template: String::new(),
    };
    assert_eq!(config.inline_height(), Some(16));
    let none = Configuration { sections: vec![], template: String::new() };
    assert_eq!(none.inline_height(), Some(7));
}

fn list_of(count: usize) -> Entry {
    Entry::Choice(EntryChoice {
        name: "list".to_string(),
        label: String::new(),
        description: String::new(),
        choices: (0..count)
            .map(|_| commity::config::Choice { value: String::new(), label: String::new() })
            .collect(),
        default: String::new(),
        value: String::new(),
    })
}

fn single(entry: Entry) -> Configuration {
    Configuration {
        sections: vec![Section { title: String::new(), entries: vec![entry] }],
        template: String::new(),
    }
}

#[test]
fn inline_height_at_the_limit_of_a_screen_height() {
    assert_eq!(single(list_of(65528)).inline_height(), Some(65535));
    assert_eq!(single(list_of(65529)).inline_height(), None);
}

#[test]
fn inline_height_counts_a_long_list_cut_to_sixteen_bits() {
    assert_eq!(single(list_of(65536 + 3)).inline_height(), Some(10));
}

#[test]
fn centred_frame_of_a_list_too_long_for_a_screen() {
    let area = Rect { x: 0, y: 0, width: 120, height: 40 };
    let nav = Navigator::new(single(list_of(65529)), 40).unwrap();
    let centred = TUIConfig { symbols: TuiSymbols::Ascii, layout: TUILayout::FullscreenCenter };
    assert!(nav.frame(&centred, area).is_none());
    let inline = TUIConfig { symbols: TuiSymbols::Ascii, layout: TUILayout::Inline };
    assert!(nav.frame(&inline, area).is_some());
}

#[test]
fn names_are_unique_or_not() {
    let named = |name: &str| {
        Entry::Boolean(commity::config::EntryBoolean {
            name: name.to_string(),
            label: String::new(),
            description: String::new(),
            default: false,
            value: false,
        })
    };
    let config = |names: &[&str]| Configuration {
        sections: vec![
            Section { title: String::new(), entries: names.iter().map(|n| named(n)).collect() },
            Section { title: String::new(), entries: vec![named("last")] },
        ],
        template: String::new(),
    };
    assert!(config(&["a", "b", "c"]).has_unique_names());
    assert!(config(&[]).has_unique_names());
    assert!(!config(&["a", "b", "a"]).has_unique_names());
    assert!(!config(&["a", "last"]).has_unique_names());
}
