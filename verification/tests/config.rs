use commity::config::{
    Candidate, Choice, Configuration, Entry, EntryBoolean, EntryChoice, EntryText, LoadError,
    Section,
};

fn sample() -> Configuration {
    Configuration {
        sections: vec![
            Section {
                title: "One".to_string(),
                entries: vec![
                    Entry::Text(EntryText {
                        name: "t".to_string(),
                        label: "T".to_string(),
                        description: "d".to_string(),
                        min_length: 1,
                        max_length: 9,
                        multi_line: true,
                        default: "dt".to_string(),
                        value: String::new(),
                    }),
                    Entry::Choice(EntryChoice {
                        name: "c".to_string(),
                        label: "C".to_string(),
                        description: "d".to_string(),
                        choices: vec![
                            Choice { value: "x".to_string(), label: "X".to_string() },
                            Choice { value: "y".to_string(), label: "Y".to_string() },
                        ],
                        default: "y".to_string(),
                        value: String::new(),
                    }),
                ],
            },
            Section {
                title: "Two".to_string(),
                entries: vec![Entry::Boolean(EntryBoolean {
                    name: "b".to_string(),
                    label: "B".to_string(),
                    description: "d".to_string(),
                    default: true,
                    value: false,
                })],
            },
        ],
        template: "{{t}}".to_string(),
    }
}

fn values(config: &Configuration) -> (String, String, bool) {
    let t = match &config.sections[0].entries[0] {
        Entry::Text(e) => e.value.clone(),
        _ => panic!("a text entry"),
    };
    let c = match &config.sections[0].entries[1] {
        Entry::Choice(e) => e.value.clone(),
        _ => panic!("a choice entry"),
    };
    let b = match &config.sections[1].entries[0] {
        Entry::Boolean(e) => e.value,
        _ => panic!("a yes/no entry"),
    };
    (t, c, b)
}

#[test]
fn initialize_values_sets_every_answer_to_its_default() {
    let mut config = sample();
    assert_eq!(values(&config), (String::new(), String::new(), false));
    config.initialize_values();
    assert_eq!(values(&config), ("dt".to_string(), "y".to_string(), true));
    assert_eq!(config.sections.len(), 2);
    assert_eq!(config.sections[0].title, "One");
    assert_eq!(config.template, "{{t}}");
}

#[test]
fn total_pages_is_the_sum_of_the_entry_counts() {
    assert_eq!(sample().total_pages(), Some(3));
    let empty = Configuration { sections: vec![], template: String::new() };
    assert_eq!(empty.total_pages(), Some(0));
}

#[test]
fn sample_is_navigable() {
    assert!(sample().is_navigable());
}

#[test]
fn load_prefers_the_local_file() {
    let mut global = sample();
    global.template = "global".to_string();
    let loaded =
        Configuration::load(Candidate::Parsed(sample()), Candidate::Parsed(global)).unwrap();
    assert_eq!(loaded.template, "{{t}}");
    assert_eq!(values(&loaded), ("dt".to_string(), "y".to_string(), true));
}

#[test]
fn load_falls_back_to_the_global_file() {
    let mut global = sample();
    global.template = "global".to_string();
    let loaded = Configuration::load(Candidate::Absent, Candidate::Parsed(global)).unwrap();
    assert_eq!(loaded.template, "global");
    assert_eq!(values(&loaded), ("dt".to_string(), "y".to_string(), true));
}

#[test]
fn load_without_any_file_is_not_found() {
    assert!(matches!(
        Configuration::load(Candidate::Absent, Candidate::Absent),
        Err(LoadError::NotFound)
    ));
}

#[test]
fn load_reports_a_broken_local_file_even_with_a_good_global_one() {
    let broken = Candidate::Broken("bad yaml".to_string());
    match Configuration::load(broken, Candidate::Parsed(sample())) {
        Err(LoadError::Unreadable(why)) => assert_eq!(why, "bad yaml"),
        _ => panic!("a broken file is an error"),
    }
}

#[test]
fn load_ignores_a_broken_global_file_behind_a_good_local_one() {
    assert!(Configuration::load(Candidate::Parsed(sample()), Candidate::Broken("bad".to_string()))
        .is_ok());
    match Configuration::load(Candidate::Absent, Candidate::Broken("bad".to_string())) {
        Err(LoadError::Unreadable(why)) => assert_eq!(why, "bad"),
        _ => panic!("a broken file is an error"),
    }
}

#[test]
fn load_config_resets_the_answers() {
    let loaded = Configuration::load_config(sample());
    assert_eq!(values(&loaded), ("dt".to_string(), "y".to_string(), true));
}

#[test]
fn repository_search_finds_the_nearest_ancestor() {
    assert_eq!(Configuration::find_git_repository(&vec![false, false, true, true]), Some(2));
    assert_eq!(Configuration::find_git_repository(&vec![true]), Some(0));
    assert_eq!(Configuration::find_git_repository(&vec![false, false]), None);
    assert_eq!(Configuration::find_git_repository(&vec![]), None);
}

#[test]
fn entry_accessors_read_the_shared_fields() {
    let config = sample();
    let entry = &config.sections[0].entries[1];
    assert_eq!(entry.name(), "c");
    assert_eq!(entry.label(), "C");
    assert_eq!(entry.description(), "d");
}
