use commity::config::{Configuration, Entry, EntryBoolean, EntryChoice, EntryText, Section};
use commity::render::{render_message, FieldValue, RenderError};
use commity::tui_config::{TUIConfig, TUILayout, TuiSymbols};

#[test]
fn variables_and_conditionals_are_substituted() {
    let data = vec![
        ("summary".to_string(), FieldValue::Text("fix bug".to_string())),
        ("breaking".to_string(), FieldValue::Boolean(true)),
    ];
    let template = "{{summary}}{% if breaking %} [BREAKING]{% endif %}".to_string();
    assert_eq!(render_message(data, &template).unwrap(), "fix bug [BREAKING]");
}

#[test]
fn false_flag_takes_the_other_branch() {
    let data = vec![("breaking".to_string(), FieldValue::Boolean(false))];
    let template = "{% if breaking %}yes{% else %}no{% endif %}".to_string();
    assert_eq!(render_message(data, &template).unwrap(), "no");
}

#[test]
fn text_is_not_a_boolean() {
    let data = vec![("flag".to_string(), FieldValue::Text("false".to_string()))];
    let template = "{% if flag %}set{% else %}unset{% endif %}:{{ flag }}".to_string();
    assert_eq!(render_message(data, &template).unwrap(), "set:false");
}

#[test]
fn later_answer_of_the_same_name_counts() {
    let data = vec![
        ("a".to_string(), FieldValue::Text("first".to_string())),
        ("a".to_string(), FieldValue::Text("second".to_string())),
    ];
    assert_eq!(render_message(data, &"{{a}}".to_string()).unwrap(), "second");
}

#[test]
fn template_without_variables_is_returned_as_it_is() {
    assert_eq!(render_message(vec![], &"plain".to_string()).unwrap(), "plain");
}

#[test]
fn syntax_error_is_a_render_error() {
    match render_message(vec![], &"{% if %}".to_string()) {
        Err(RenderError::Template(why)) => assert!(why.contains("syntax error")),
        Ok(_) => panic!("a broken template does not render"),
    }
}

#[test]
fn field_values_follow_the_page_order() {
    let config = Configuration {
        sections: vec![
            Section {
                title: "One".to_string(),
                entries: vec![Entry::Text(EntryText {
                    name: "t".to_string(),
                    label: String::new(),
                    description: String::new(),
                    min_length: 0,
                    max_length: 0,
                    multi_line: false,
                    default: String::new(),
                    value: "text".to_string(),
                })],
            },
            Section { title: "Empty".to_string(), entries: vec![] },
            Section {
                title: "Two".to_string(),
                entries: vec![
                    Entry::Boolean(EntryBoolean {
                        name: "b".to_string(),
                        label: String::new(),
                        description: String::new(),
                        default: false,
                        value: true,
                    }),
                    Entry::Choice(EntryChoice {
                        name: "c".to_string(),
                        label: String::new(),
                        description: String::new(),
                        choices: vec![],
                        default: String::new(),
                        value: "picked".to_string(),
                    }),
                ],
            },
        ],
        template: String::new(),
    };
    let data = config.field_values();
    assert_eq!(data.len(), 3);
    assert_eq!(data[0].0, "t");
    assert!(matches!(&data[0].1, FieldValue::Text(v) if v == "text"));
    assert_eq!(data[1].0, "b");
    assert!(matches!(&data[1].1, FieldValue::Boolean(true)));
    assert_eq!(data[2].0, "c");
    assert!(matches!(&data[2].1, FieldValue::Text(v) if v == "picked"));
    let field = config.sections[0].entries[0].field();
    assert_eq!(field.0, "t");
}

#[test]
fn default_settings_are_unicode_and_inline() {
    let config = TUIConfig::default();
    assert_eq!(config.symbols, TuiSymbols::Unicode);
    assert_eq!(config.layout, TUILayout::Inline);
}

#[test]
fn stored_settings_count_before_the_defaults() {
    let stored = TUIConfig { symbols: TuiSymbols::NerdFont, layout: TUILayout::FullscreenCenter };
    assert_eq!(TUIConfig::load(Some(stored)), stored);
    assert_eq!(TUIConfig::load(None), TUIConfig::default());
}
