//! A multi-step input wizard: sections of typed entries are walked page by
//! page, each entry is edited by a small controller, and the collected
//! answers are substituted into a message template.
//!
//! The crate root holds the configuration as it is written in a file; the
//! modules hold the wizard that is run on it.

use vstd::prelude::*;

pub mod config;
pub mod frame;
pub mod input;
pub mod navigator;
pub mod render;
pub mod run;
pub mod text;
pub mod tui_config;
pub mod utils;
pub mod viewport;

pub use crate::render::FieldValue;

use crate::config::{Candidate, LoadError};
use crate::render::{
    field_map, fields_view, render_message, rendered, rendering_view, RenderError,
};

verus! {

/// The kind of a field and what it starts with: a text, a choice with its
/// value and label, or a yes/no.
#[derive(Debug)]
pub enum Field {
    Text(String),
    Choice(String, String),
    Boolean(bool),
}

/// Whether an entry has to be answered, may be skipped, or is not shown.
#[derive(Clone, Copy, Debug, PartialEq, Eq, Structural)]
pub enum EntryMode {
    Required,
    Optional,
    Hidden,
}

/// One option of a choice entry, as written.
#[derive(Debug)]
pub struct Choice {
    pub value: String,
    pub label: String,
}

/// A free-text question, as written.
#[derive(Debug)]
pub struct EntryText {
    pub mode: EntryMode,
    pub name: String,
    pub label: String,
    pub description: String,
    pub min_length: i64,
    pub max_length: i64,
    pub multi_line: bool,
    pub default: String,
}

/// A question with options, as written.
#[derive(Debug)]
pub struct EntryChoice {
    pub mode: EntryMode,
    pub name: String,
    pub label: String,
    pub description: String,
    pub choices: Vec<Choice>,
    pub default: String,
}

/// A yes/no question, as written.
#[derive(Debug)]
pub struct EntryBoolean {
    pub mode: EntryMode,
    pub name: String,
    pub label: String,
    pub description: String,
    pub default: bool,
}

/// One question, as written.
#[derive(Debug)]
pub enum Entry {
    Text(EntryText),
    Choice(EntryChoice),
    Boolean(EntryBoolean),
}

/// A titled group of questions, as written.
#[derive(Debug)]
pub struct Section {
    pub title: String,
    pub entries: Vec<Entry>,
}

/// The configuration as written: the sections and the template.
#[derive(Debug)]
pub struct Config {
    pub sections: Vec<Section>,
    pub template: String,
}

impl Config {
    /// Picks the configuration to use: that of the repository, or, where
    /// the repository has none, that of the user's home. A file that is
    /// there but unreadable is an error, not a reason to look further.
    pub fn new(repository: Candidate<Config>, home: Candidate<Config>) -> (r: Result<
        Config,
        LoadError,
    >)
        ensures
            r == match repository {
                Candidate::Parsed(config) => Ok::<Config, LoadError>(config),
                Candidate::Broken(why) => Err::<Config, LoadError>(LoadError::Unreadable(why)),
                Candidate::Absent => match home {
                    Candidate::Parsed(config) => Ok::<Config, LoadError>(config),
                    Candidate::Broken(why) => Err::<Config, LoadError>(LoadError::Unreadable(why)),
                    Candidate::Absent => Err::<Config, LoadError>(LoadError::NotFound),
                },
            },
    {
        match repository {
            Candidate::Parsed(config) => Ok(config),
            Candidate::Broken(why) => Err(LoadError::Unreadable(why)),
            Candidate::Absent => match home {
                Candidate::Parsed(config) => Ok(config),
                Candidate::Broken(why) => Err(LoadError::Unreadable(why)),
                Candidate::Absent => Err(LoadError::NotFound),
            },
        }
    }
}

/// Renders a message from named answers and a template; the same as
/// `render::render_message`.
pub fn render_fields(data: Vec<(String, FieldValue)>, template: &String) -> (r: Result<
    String,
    RenderError,
>)
    ensures
        rendering_view(r) == rendered(template@, field_map(fields_view(data@))),
{
    render_message(data, template)
}

} // verus!
