//! The questions of the wizard: sections of typed entries and the template
//! their answers are substituted into.

use vstd::prelude::*;

verus! {

/// One option of a choice entry.
#[derive(Debug)]
pub struct Choice {
    pub value: String,
    pub label: String,
}

/// A free-text question.
#[derive(Debug)]
pub struct EntryText {
    pub name: String,
    pub label: String,
    pub description: String,
    pub min_length: i64,
    pub max_length: i64,
    pub multi_line: bool,
    pub default: String,
    pub value: String,
}

/// A question answered by picking one of several options.
#[derive(Debug)]
pub struct EntryChoice {
    pub name: String,
    pub label: String,
    pub description: String,
    pub choices: Vec<Choice>,
    pub default: String,
    pub value: String,
}

/// A yes/no question.
#[derive(Debug)]
pub struct EntryBoolean {
    pub name: String,
    pub label: String,
    pub description: String,
    pub default: bool,
    pub value: bool,
}

/// One question of the wizard.
#[derive(Debug)]
pub enum Entry {
    Text(EntryText),
    Choice(EntryChoice),
    Boolean(EntryBoolean),
}

/// A titled group of questions.
#[derive(Debug)]
pub struct Section {
    pub title: String,
    pub entries: Vec<Entry>,
}

/// All sections of the wizard and the template of the final message.
#[derive(Debug)]
pub struct Configuration {
    pub sections: Vec<Section>,
    pub template: String,
}

/// An option, as specifications see it.
#[verifier::ext_equal]
pub struct ChoiceView {
    pub value: Seq<char>,
    pub label: Seq<char>,
}

/// A free-text question, as specifications see it.
#[verifier::ext_equal]
pub struct EntryTextView {
    pub name: Seq<char>,
    pub label: Seq<char>,
    pub description: Seq<char>,
    pub min_length: i64,
    pub max_length: i64,
    pub multi_line: bool,
    pub default: Seq<char>,
    pub value: Seq<char>,
}

/// A question with options, as specifications see it.
#[verifier::ext_equal]
pub struct EntryChoiceView {
    pub name: Seq<char>,
    pub label: Seq<char>,
    pub description: Seq<char>,
    pub choices: Seq<ChoiceView>,
    pub default: Seq<char>,
    pub value: Seq<char>,
}

/// A yes/no question, as specifications see it.
#[verifier::ext_equal]
pub struct EntryBooleanView {
    pub name: Seq<char>,
    pub label: Seq<char>,
    pub description: Seq<char>,
    pub default: bool,
    pub value: bool,
}

/// A question, as specifications see it.
#[verifier::ext_equal]
pub enum EntryView {
    Text(EntryTextView),
    Choice(EntryChoiceView),
    Boolean(EntryBooleanView),
}

/// A section, as specifications see it.
#[verifier::ext_equal]
pub struct SectionView {
    pub title: Seq<char>,
    pub entries: Seq<EntryView>,
}

/// A configuration, as specifications see it.
#[verifier::ext_equal]
pub struct ConfigurationView {
    pub sections: Seq<SectionView>,
    pub template: Seq<char>,
}

impl View for Choice {
    type V = ChoiceView;

    open spec fn view(&self) -> ChoiceView {
        ChoiceView { value: self.value@, label: self.label@ }
    }
}

impl View for EntryText {
    type V = EntryTextView;

    open spec fn view(&self) -> EntryTextView {
        EntryTextView {
            name: self.name@,
            label: self.label@,
            description: self.description@,
            min_length: self.min_length,
            max_length: self.max_length,
            multi_line: self.multi_line,
            default: self.default@,
            value: self.value@,
        }
    }
}

impl View for EntryChoice {
    type V = EntryChoiceView;

    open spec fn view(&self) -> EntryChoiceView {
        EntryChoiceView {
            name: self.name@,
            label: self.label@,
            description: self.description@,
            choices: Seq::new(self.choices.len() as nat, |i: int| self.choices[i]@),
            default: self.default@,
            value: self.value@,
        }
    }
}

impl View for EntryBoolean {
    type V = EntryBooleanView;

    open spec fn view(&self) -> EntryBooleanView {
        EntryBooleanView {
            name: self.name@,
            label: self.label@,
            description: self.description@,
            default: self.default,
            value: self.value,
        }
    }
}

impl View for Entry {
    type V = EntryView;

    open spec fn view(&self) -> EntryView {
        match self {
            Entry::Text(e) => EntryView::Text(e@),
            Entry::Choice(e) => EntryView::Choice(e@),
            Entry::Boolean(e) => EntryView::Boolean(e@),
        }
    }
}

impl View for Section {
    type V = SectionView;

    open spec fn view(&self) -> SectionView {
        SectionView {
            title: self.title@,
            entries: Seq::new(self.entries.len() as nat, |i: int| self.entries[i]@),
        }
    }
}

impl View for Configuration {
    type V = ConfigurationView;

    open spec fn view(&self) -> ConfigurationView {
        ConfigurationView {
            sections: Seq::new(self.sections.len() as nat, |i: int| self.sections[i]@),
            template: self.template@,
        }
    }
}

impl EntryView {
    /// The key under which the answer is handed to the template.
    pub open spec fn name(self) -> Seq<char> {
        match self {
            EntryView::Text(e) => e.name,
            EntryView::Choice(e) => e.name,
            EntryView::Boolean(e) => e.name,
        }
    }

    /// The question as shown in the title line.
    pub open spec fn label(self) -> Seq<char> {
        match self {
            EntryView::Text(e) => e.label,
            EntryView::Choice(e) => e.label,
            EntryView::Boolean(e) => e.label,
        }
    }

    /// The explanation shown under the title.
    pub open spec fn description(self) -> Seq<char> {
        match self {
            EntryView::Text(e) => e.description,
            EntryView::Choice(e) => e.description,
            EntryView::Boolean(e) => e.description,
        }
    }

    /// The entry with its answer set back to the default.
    pub open spec fn reset(self) -> EntryView {
        match self {
            EntryView::Text(e) => EntryView::Text(EntryTextView { value: e.default, ..e }),
            EntryView::Choice(e) => EntryView::Choice(EntryChoiceView { value: e.default, ..e }),
            EntryView::Boolean(e) => EntryView::Boolean(
                EntryBooleanView { value: e.default, ..e },
            ),
        }
    }
}

impl SectionView {
    /// The section with every answer set back to its default.
    pub open spec fn reset(self) -> SectionView {
        SectionView {
            title: self.title,
            entries: Seq::new(self.entries.len(), |i: int| self.entries[i].reset()),
        }
    }
}

impl ConfigurationView {
    /// The number of entries in the sections before `section`.
    pub open spec fn pages_before(self, section: int) -> int
        decreases section,
    {
        if section <= 0 {
            0
        } else {
            self.pages_before(section - 1) + self.sections[section - 1].entries.len()
        }
    }

    /// The number of pages of the wizard: one for each entry of each
    /// section.
    pub open spec fn total_pages(self) -> int {
        self.pages_before(self.sections.len() as int)
    }

    /// There is an entry at place `entry` of section `section`.
    pub open spec fn has_entry(self, section: int, entry: int) -> bool {
        &&& 0 <= section < self.sections.len()
        &&& 0 <= entry < self.sections[section].entries.len()
    }

    /// The entry at place `entry` of section `section`.
    pub open spec fn entry_at(self, section: int, entry: int) -> EntryView {
        self.sections[section].entries[entry]
    }

    /// The page, counted from 1, on which the entry at place `entry` of
    /// section `section` is asked.
    pub open spec fn page_of(self, section: int, entry: int) -> int {
        self.pages_before(section) + entry + 1
    }

    /// The configuration with one entry replaced.
    pub open spec fn with_entry(self, section: int, entry: int, e: EntryView) -> ConfigurationView {
        ConfigurationView {
            sections: self.sections.update(
                section,
                SectionView {
                    title: self.sections[section].title,
                    entries: self.sections[section].entries.update(entry, e),
                },
            ),
            template: self.template,
        }
    }

    /// Every choice entry offers at least one option, and no more than a
    /// list in memory holds.
    pub open spec fn choices_offered(self) -> bool {
        forall|s: int, e: int| #![trigger self.sections[s].entries[e]]
            self.has_entry(s, e) ==> (self.sections[s].entries[e] matches EntryView::Choice(c)
                ==> 0 < c.choices.len() <= usize::MAX)
    }

    /// The configuration can be walked page by page: every choice entry
    /// offers an option, and the page after the last has a number.
    pub open spec fn navigable(self) -> bool {
        &&& self.choices_offered()
        &&& self.total_pages() < usize::MAX
    }

    /// The configuration with every answer set back to its default.
    pub open spec fn reset(self) -> ConfigurationView {
        ConfigurationView {
            sections: Seq::new(self.sections.len(), |i: int| self.sections[i].reset()),
            template: self.template,
        }
    }
}

impl Entry {
    /// The question as shown in the title line.
    pub fn label(&self) -> (r: &String)
        ensures
            r@ == self@.label(),
    {
        match self {
            Entry::Text(e) => &e.label,
            Entry::Choice(e) => &e.label,
            Entry::Boolean(e) => &e.label,
        }
    }

    /// The explanation shown under the title.
    pub fn description(&self) -> (r: &String)
        ensures
            r@ == self@.description(),
    {
        match self {
            Entry::Text(e) => &e.description,
            Entry::Choice(e) => &e.description,
            Entry::Boolean(e) => &e.description,
        }
    }

    /// The key under which the answer is handed to the template.
    pub fn name(&self) -> (r: &String)
        ensures
            r@ == self@.name(),
    {
        match self {
            Entry::Text(e) => &e.name,
            Entry::Choice(e) => &e.name,
            Entry::Boolean(e) => &e.name,
        }
    }

    /// Sets the answer back to the default.
    pub fn reset(&mut self)
        ensures
            final(self)@ == old(self)@.reset(),
    {
        match self {
            Entry::Text(e) => {
                e.value = e.default.clone();
            },
            Entry::Choice(e) => {
                e.value = e.default.clone();
            },
            Entry::Boolean(e) => {
                e.value = e.default;
            },
        }
    }
}

impl Section {
    /// Sets every answer of the section back to its default.
    pub fn reset(&mut self)
        ensures
            final(self)@ == old(self)@.reset(),
    {
        let mut j: usize = 0;
        while j < self.entries.len()
            invariant
                j <= self.entries.len(),
                self.title == old(self).title,
                self.entries.len() == old(self).entries.len(),
                forall|k: int| 0 <= k < j ==> self.entries[k]@ == old(self).entries[k]@.reset(),
                forall|k: int|
                    j <= k < self.entries.len() ==> self.entries[k] == old(self).entries[k],
            decreases self.entries.len() - j,
        {
            self.entries[j].reset();
            j += 1;
        }
    }
}

impl Configuration {
    /// Sets the answer of every entry to the entry's default.
    pub fn initialize_values(&mut self)
        ensures
            final(self)@ == old(self)@.reset(),
    {
        let mut i: usize = 0;
        while i < self.sections.len()
            invariant
                i <= self.sections.len(),
                self.template == old(self).template,
                self.sections.len() == old(self).sections.len(),
                forall|k: int| 0 <= k < i ==> self.sections[k]@ == old(self).sections[k]@.reset(),
                forall|k: int|
                    i <= k < self.sections.len() ==> self.sections[k] == old(self).sections[k],
            decreases self.sections.len() - i,
        {
            self.sections[i].reset();
            i += 1;
        }
    }
}

/// Page counts grow with the section index.
pub proof fn lemma_pages_before_monotonic(c: ConfigurationView, i: int, j: int)
    requires
        0 <= i <= j,
    ensures
        0 <= c.pages_before(i) <= c.pages_before(j),
    decreases j,
{
    if j > 0 {
        if i < j {
            lemma_pages_before_monotonic(c, i, j - 1);
        } else {
            lemma_pages_before_monotonic(c, i - 1, j - 1);
        }
    }
}

/// Every entry has a page between 1 and the total.
pub proof fn lemma_page_of_in_range(c: ConfigurationView, section: int, entry: int)
    requires
        c.has_entry(section, entry),
    ensures
        1 <= c.page_of(section, entry) <= c.total_pages(),
{
    lemma_pages_before_monotonic(c, 0, section);
    lemma_pages_before_monotonic(c, section + 1, c.sections.len() as int);
}

/// No two entries share a page: the page number fixes the position.
pub proof fn lemma_page_fixes_position(c: ConfigurationView, s1: int, e1: int, s2: int, e2: int)
    requires
        c.has_entry(s1, e1),
        c.has_entry(s2, e2),
        c.page_of(s1, e1) == c.page_of(s2, e2),
    ensures
        s1 == s2,
        e1 == e2,
{
    if s1 < s2 {
        lemma_pages_before_monotonic(c, s1 + 1, s2);
    } else if s2 < s1 {
        lemma_pages_before_monotonic(c, s2 + 1, s1);
    }
}

/// Two configurations whose sections have the same lengths number their
/// pages alike.
pub proof fn lemma_same_shape_same_pages(c: ConfigurationView, d: ConfigurationView, section: int)
    requires
        c.sections.len() == d.sections.len(),
        forall|i: int|
            0 <= i < c.sections.len() ==> (#[trigger] c.sections[i]).entries.len()
                == d.sections[i].entries.len(),
        section <= c.sections.len(),
    ensures
        c.pages_before(section) == d.pages_before(section),
    decreases section,
{
    if section > 0 {
        lemma_same_shape_same_pages(c, d, section - 1);
    }
}

impl Configuration {
    /// Counts the pages. `None` when the count does not fit the machine's
    /// word.
    pub fn total_pages(&self) -> (r: Option<usize>)
        ensures
            match r {
                Some(n) => n == self@.total_pages(),
                None => self@.total_pages() > usize::MAX,
            },
    {
        let mut pages: usize = 0;
        let mut i: usize = 0;
        while i < self.sections.len()
            invariant
                i <= self.sections.len(),
                pages == self@.pages_before(i as int),
            decreases self.sections.len() - i,
        {
            match pages.checked_add(self.sections[i].entries.len()) {
                Some(sum) => {
                    pages = sum;
                },
                None => {
                    proof {
                        lemma_pages_before_monotonic(
                            self@,
                            i + 1,
                            self.sections.len() as int,
                        );
                    }
                    return None;
                },
            }
            i += 1;
        }
        Some(pages)
    }

    /// Says whether the wizard can be walked page by page.
    pub fn is_navigable(&self) -> (r: bool)
        ensures
            r == self@.navigable(),
    {
        let mut i: usize = 0;
        while i < self.sections.len()
            invariant
                i <= self.sections.len(),
                forall|s: int, e: int| #![trigger self@.sections[s].entries[e]]
                    0 <= s < i && 0 <= e < self@.sections[s].entries.len() ==> (
                    self@.sections[s].entries[e] matches EntryView::Choice(c) ==> 0
                        < c.choices.len() <= usize::MAX),
            decreases self.sections.len() - i,
        {
            let mut j: usize = 0;
            while j < self.sections[i].entries.len()
                invariant
                    i < self.sections.len(),
                    j <= self.sections[i as int].entries.len(),
                    forall|s: int, e: int| #![trigger self@.sections[s].entries[e]]
                        0 <= s < i && 0 <= e < self@.sections[s].entries.len() ==> (
                        self@.sections[s].entries[e] matches EntryView::Choice(c) ==> 0
                            < c.choices.len() <= usize::MAX),
                    forall|e: int| #![trigger self@.sections[i as int].entries[e]]
                        0 <= e < j ==> (self@.sections[i as int].entries[e] matches
                        EntryView::Choice(c) ==> 0 < c.choices.len() <= usize::MAX),
                decreases self.sections[i as int].entries.len() - j,
            {
                match &self.sections[i].entries[j] {
                    Entry::Choice(c) => {
                        if c.choices.len() == 0 {
                            assert(self@.sections[i as int].entries[j as int] is Choice);
                            return false;
                        }
                    },
                    _ => {},
                }
                j += 1;
            }
            i += 1;
        }
        match self.total_pages() {
            Some(n) => n < usize::MAX,
            None => false,
        }
    }
}

/// What stands at one of the places where a configuration file may be.
#[derive(Debug)]
pub enum Candidate<T> {
    /// There is no file.
    Absent,
    /// There is a file, but it could not be read as a configuration; the
    /// text says why.
    Broken(String),
    /// The configuration read from the file.
    Parsed(T),
}

/// Why no configuration was loaded.
#[derive(Debug)]
pub enum LoadError {
    /// Neither place holds a configuration file.
    NotFound,
    /// The file that counts could not be read; the text says why.
    Unreadable(String),
}

/// The outcome of loading, in views: the chosen configuration with every
/// answer at its default, or the reason why there is none.
pub enum Loaded {
    Ready(ConfigurationView),
    Unreadable(Seq<char>),
    NotFound,
}

impl Candidate<Configuration> {
    /// What loading makes of this candidate alone; `None` where the next
    /// place is to be tried.
    pub open spec fn loaded(self) -> Option<Loaded> {
        match self {
            Candidate::Absent => None,
            Candidate::Broken(why) => Some(Loaded::Unreadable(why@)),
            Candidate::Parsed(c) => Some(Loaded::Ready(c@.reset())),
        }
    }
}

/// What loading makes of a result.
pub open spec fn load_outcome(r: Result<Configuration, LoadError>) -> Loaded {
    match r {
        Ok(c) => Loaded::Ready(c@),
        Err(LoadError::Unreadable(why)) => Loaded::Unreadable(why@),
        Err(LoadError::NotFound) => Loaded::NotFound,
    }
}

/// The place of the first `true` in `probes`, if there is one.
pub open spec fn is_first_hit(probes: Seq<bool>, r: Option<usize>) -> bool {
    match r {
        Some(i) => i < probes.len() && probes[i as int] && forall|j: int| 0 <= j < i ==> !probes[j],
        None => forall|j: int| 0 <= j < probes.len() ==> !probes[j],
    }
}

impl Configuration {
    /// Picks the configuration to use and sets every answer to its
    /// default. The file of the repository counts before the file of the
    /// user: the second is looked at only where the first is absent. A file
    /// that is there but unreadable is an error, not a reason to look
    /// further.
    pub fn load(local: Candidate<Configuration>, global: Candidate<Configuration>) -> (r: Result<
        Configuration,
        LoadError,
    >)
        ensures
            load_outcome(r) == match local.loaded() {
                Some(outcome) => outcome,
                None => match global.loaded() {
                    Some(outcome) => outcome,
                    None => Loaded::NotFound,
                },
            },
    {
        match local {
            Candidate::Parsed(document) => Ok(Configuration::load_config(document)),
            Candidate::Broken(why) => Err(LoadError::Unreadable(why)),
            Candidate::Absent => match global {
                Candidate::Parsed(document) => Ok(Configuration::load_config(document)),
                Candidate::Broken(why) => Err(LoadError::Unreadable(why)),
                Candidate::Absent => Err(LoadError::NotFound),
            },
        }
    }

    /// Makes a configuration as read from a file ready for use: every
    /// answer is set to its default.
    pub fn load_config(document: Configuration) -> (config: Configuration)
        ensures
            config@ == document@.reset(),
    {
        let mut config = document;
        config.initialize_values();
        config
    }

    /// Finds the repository that a directory belongs to. `is_repository`
    /// says of the directory itself, then of its parent, and so on up to
    /// the root, whether it is the top of a repository; the result is the
    /// number of steps up to the nearest one that is.
    pub fn find_git_repository(is_repository: &Vec<bool>) -> (r: Option<usize>)
        ensures
            is_first_hit(is_repository@, r),
    {
        let mut i: usize = 0;
        while i < is_repository.len()
            invariant
                i <= is_repository.len(),
                forall|j: int| 0 <= j < i ==> !is_repository[j],
            decreases is_repository.len() - i,
        {
            if is_repository[i] {
                return Some(i);
            }
            i += 1;
        }
        None
    }
}

} // verus!
