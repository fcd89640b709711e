//! Substituting the collected answers into the message template.

use crate::config::{
    lemma_pages_before_monotonic, Configuration, ConfigurationView, Entry, EntryView, SectionView,
};
use vstd::prelude::*;

verus! {

/// An answer as the template sees it.
#[derive(Debug)]
pub enum FieldValue {
    Text(String),
    Boolean(bool),
}

/// An answer, as specifications see it.
#[verifier::ext_equal]
pub enum FieldValueView {
    Text(Seq<char>),
    Boolean(bool),
}

impl View for FieldValue {
    type V = FieldValueView;

    open spec fn view(&self) -> FieldValueView {
        match self {
            FieldValue::Text(s) => FieldValueView::Text(s@),
            FieldValue::Boolean(b) => FieldValueView::Boolean(*b),
        }
    }
}

/// A list of named answers, each taken by its view.
pub open spec fn fields_view(data: Seq<(String, FieldValue)>) -> Seq<(Seq<char>, FieldValueView)> {
    Seq::new(data.len(), |i: int| (data[i].0@, data[i].1@))
}

/// The mapping from name to answer that a list of named answers stands
/// for. Where a name occurs twice, the later answer counts.
pub open spec fn field_map(data: Seq<(Seq<char>, FieldValueView)>) -> Map<
    Seq<char>,
    FieldValueView,
>
    decreases data.len(),
{
    if data.len() == 0 {
        Map::empty()
    } else {
        field_map(data.drop_last()).insert(data.last().0, data.last().1)
    }
}

/// What `minijinja::Environment::render_named_str` makes of `template`
/// with the variables bound as `fields` says: the rendered text, or the
/// text of the error that it reports.
pub uninterp spec fn rendered(
    template: Seq<char>,
    fields: Map<Seq<char>, FieldValueView>,
) -> Result<Seq<char>, Seq<char>>;

/// `minijinja::Error`, carried through as it comes.
#[verifier::external_type_specification]
#[verifier::external_body]
pub struct ExTemplateError(minijinja::Error);

/// The text that a `minijinja::Error` displays.
pub uninterp spec fn error_message(error: minijinja::Error) -> Seq<char>;

/// Why no message came out.
#[derive(Debug)]
pub enum RenderError {
    /// The template engine refused the template or failed to render it;
    /// the text is the engine's own.
    Template(String),
}

/// A rendering in views: the text, or the text of the error.
pub open spec fn rendering_view(r: Result<String, RenderError>) -> Result<Seq<char>, Seq<char>> {
    match r {
        Ok(text) => Ok(text@),
        Err(RenderError::Template(why)) => Err(why@),
    }
}

/// `minijinja::Environment::render_named_str` on a fresh default
/// environment, under the template name "template", with the named answers
/// as the context: a text answer is bound as a string, a yes/no answer as a
/// boolean, and of two answers of one name the later is bound. The template
/// is parsed and rendered in one go; what comes out depends on the template
/// and the bindings alone.
#[verifier::external_body]
fn render_template(data: &Vec<(String, FieldValue)>, template: &String) -> (r: Result<
    String,
    minijinja::Error,
>)
    ensures
        match r {
            Ok(text) => rendered(template@, field_map(fields_view(data@))) == Ok::<
                Seq<char>,
                Seq<char>,
            >(text@),
            Err(error) => rendered(template@, field_map(fields_view(data@))) == Err::<
                Seq<char>,
                Seq<char>,
            >(error_message(error)),
        },
{
    let mut context: std::collections::HashMap<&str, minijinja::Value> =
        std::collections::HashMap::new();
    for (name, value) in data.iter() {
        let bound = match value {
            FieldValue::Text(text) => minijinja::Value::from(text.as_str()),
            FieldValue::Boolean(flag) => minijinja::Value::from(*flag),
        };
        context.insert(name.as_str(), bound);
    }
    minijinja::Environment::new().render_named_str("template", template, context)
}

/// The text of a template error, as `minijinja::Error` displays it: the
/// kind of the error, its detail, and the template's name and line.
#[verifier::external_body]
fn error_text(error: &minijinja::Error) -> (text: String)
    ensures
        text@ == error_message(*error),
{
    error.to_string()
}

/// Renders the message: substitutes the named answers into `template`.
/// Fails exactly where the template engine does, with the engine's own
/// words.
pub fn render_message(data: Vec<(String, FieldValue)>, template: &String) -> (r: Result<
    String,
    RenderError,
>)
    ensures
        rendering_view(r) == rendered(template@, field_map(fields_view(data@))),
{
    match render_template(&data, template) {
        Ok(text) => Ok(text),
        Err(error) => Err(RenderError::Template(error_text(&error))),
    }
}

impl EntryView {
    /// The entry's name and answer, as the template sees them: the answer
    /// of a text or choice entry is a text, that of a yes/no entry a
    /// boolean.
    pub open spec fn field(self) -> (Seq<char>, FieldValueView) {
        match self {
            EntryView::Text(e) => (e.name, FieldValueView::Text(e.value)),
            EntryView::Choice(e) => (e.name, FieldValueView::Text(e.value)),
            EntryView::Boolean(e) => (e.name, FieldValueView::Boolean(e.value)),
        }
    }
}

impl SectionView {
    /// The named answers of the first `count` entries of the section.
    pub open spec fn fields(self, count: int) -> Seq<(Seq<char>, FieldValueView)> {
        Seq::new(count as nat, |k: int| self.entries[k].field())
    }
}

impl ConfigurationView {
    /// The named answers of the sections before `section`, in page order.
    pub open spec fn fields_before(self, section: int) -> Seq<(Seq<char>, FieldValueView)>
        decreases section,
    {
        if section <= 0 {
            Seq::empty()
        } else {
            self.fields_before(section - 1) + self.sections[section - 1].fields(
                self.sections[section - 1].entries.len() as int,
            )
        }
    }

    /// The named answers of all entries, in page order.
    pub open spec fn fields(self) -> Seq<(Seq<char>, FieldValueView)> {
        self.fields_before(self.sections.len() as int)
    }
}

/// The answers of the sections before `section` are as many as their
/// pages.
pub proof fn lemma_fields_before_len(c: ConfigurationView, section: int)
    ensures
        c.fields_before(section).len() == c.pages_before(section),
    decreases section,
{
    if section > 0 {
        lemma_fields_before_len(c, section - 1);
    }
}

/// There is one named answer for each page, and the answer at place
/// `p - 1` is that of the entry asked on page `p`.
pub proof fn lemma_field_of_page(c: ConfigurationView, section: int, entry: int)
    requires
        c.has_entry(section, entry),
    ensures
        c.fields().len() == c.total_pages(),
        c.fields()[c.page_of(section, entry) - 1] == c.entry_at(section, entry).field(),
{
    lemma_fields_before_len(c, c.sections.len() as int);
    lemma_field_in_prefix(c, section, entry, c.sections.len() as int);
}

/// The answer of an entry stands at the place of its page among the
/// answers of every run of sections that holds the entry's section.
proof fn lemma_field_in_prefix(c: ConfigurationView, section: int, entry: int, upto: int)
    requires
        c.has_entry(section, entry),
        section < upto <= c.sections.len(),
    ensures
        c.page_of(section, entry) - 1 < c.fields_before(upto).len(),
        c.fields_before(upto)[c.page_of(section, entry) - 1] == c.entry_at(section, entry).field(),
    decreases upto,
{
    lemma_fields_before_len(c, upto);
    lemma_pages_before_monotonic(c, 0, section);
    if section + 1 < upto {
        lemma_field_in_prefix(c, section, entry, upto - 1);
    }
}

impl Entry {
    /// The entry's name and answer, as the template sees them.
    pub fn field(&self) -> (r: (String, FieldValue))
        ensures
            (r.0@, r.1@) == self@.field(),
    {
        match self {
            Entry::Text(e) => (e.name.clone(), FieldValue::Text(e.value.clone())),
            Entry::Choice(e) => (e.name.clone(), FieldValue::Text(e.value.clone())),
            Entry::Boolean(e) => (e.name.clone(), FieldValue::Boolean(e.value)),
        }
    }
}

impl Configuration {
    /// The named answers of all entries, in page order.
    pub fn field_values(&self) -> (data: Vec<(String, FieldValue)>)
        ensures
            fields_view(data@) == self@.fields(),
    {
        let mut data: Vec<(String, FieldValue)> = Vec::new();
        let mut i: usize = 0;
        while i < self.sections.len()
            invariant
                i <= self.sections.len(),
                fields_view(data@) == self@.fields_before(i as int),
            decreases self.sections.len() - i,
        {
            let section = &self.sections[i];
            let ghost before = fields_view(data@);
            let mut j: usize = 0;
            while j < section.entries.len()
                invariant
                    j <= section.entries.len(),
                    fields_view(data@) == before + section@.fields(j as int),
                decreases section.entries.len() - j,
            {
                let ghost old_data = data@;
                data.push(section.entries[j].field());
                proof {
                    assert(fields_view(data@) =~= fields_view(old_data).push(
                        section@.entries[j as int].field(),
                    ));
                }
                j += 1;
            }
            i += 1;
        }
        data
    }
}

/// No name occurs twice in a list of named answers.
pub open spec fn names_unique(data: Seq<(Seq<char>, FieldValueView)>) -> bool {
    forall|i: int, j: int| 0 <= i < j < data.len() ==> data[i].0 != data[j].0
}

impl ConfigurationView {
    /// No two entries of the configuration have the same name.
    pub open spec fn names_unique(self) -> bool {
        names_unique(self.fields())
    }
}

/// The mapping knows every name of the list.
pub proof fn lemma_field_map_has_every_name(data: Seq<(Seq<char>, FieldValueView)>, i: int)
    requires
        0 <= i < data.len(),
    ensures
        field_map(data).dom().contains(data[i].0),
    decreases data.len(),
{
    if i < data.len() - 1 {
        lemma_field_map_has_every_name(data.drop_last(), i);
    }
}

/// Where no name occurs twice, the mapping gives every name its own
/// answer.
pub proof fn lemma_unique_names_keep_every_answer(data: Seq<(Seq<char>, FieldValueView)>, i: int)
    requires
        names_unique(data),
        0 <= i < data.len(),
    ensures
        field_map(data).dom().contains(data[i].0),
        field_map(data)[data[i].0] == data[i].1,
    decreases data.len(),
{
    if i < data.len() - 1 {
        lemma_unique_names_keep_every_answer(data.drop_last(), i);
    }
}

impl Configuration {
    /// Says whether every entry has a name of its own.
    pub fn has_unique_names(&self) -> (r: bool)
        ensures
            r == self@.names_unique(),
    {
        let data = self.field_values();
        let ghost fields = self@.fields();
        let mut j: usize = 0;
        while j < data.len()
            invariant
                j <= data.len(),
                fields == fields_view(data@),
                fields == self@.fields(),
                forall|a: int, b: int| 0 <= a < b < j ==> fields[a].0 != fields[b].0,
            decreases data.len() - j,
        {
            let mut i: usize = 0;
            while i < j
                invariant
                    i <= j < data.len(),
                    fields == fields_view(data@),
                    fields == self@.fields(),
                    forall|a: int| 0 <= a < i ==> fields[a].0 != fields[j as int].0,
                decreases j - i,
            {
                if data[i].0 == data[j].0 {
                    assert(fields[i as int].0 == fields[j as int].0);
                    return false;
                }
                i += 1;
            }
            j += 1;
        }
        true
    }
}

} // verus!
