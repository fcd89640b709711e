//! What is drawn for a page: the frame around it, its lines and their
//! place on the screen.

use crate::config::{
    ChoiceView, Configuration, ConfigurationView, Entry, EntryChoice, EntryChoiceView, EntryView,
    SectionView,
};
use crate::input::{BooleanInput, ChoiceInput, TextInput, TERMINAL_MIN_HEIGHT};
use crate::text::{decimal, pad_to_length, padded, push_decimal};
use crate::tui_config::{TUIConfig, TUILayout, TuiSymbols};
use vstd::prelude::*;
use vstd::string::StringExecFns;
use vstd::utf8::encode_utf8;

verus! {

/// A key or marker that the frame names in its hints.
#[derive(Clone, Copy, Debug, PartialEq, Eq, Structural)]
pub enum Symbol {
    Enter,
    Escape,
    Next,
    Previous,
    Page,
    Input,
}

impl Symbol {
    /// How the symbol is written in a symbol set.
    pub open spec fn glyph(self, symbols: TuiSymbols) -> Seq<char> {
        match self {
            Symbol::Enter => match symbols {
                TuiSymbols::Ascii => "CR"@,
                TuiSymbols::Unicode => "\u{23ce}"@,
                TuiSymbols::NerdFont => "\u{f0311}"@,
            },
            Symbol::Escape => match symbols {
                TuiSymbols::Ascii => "ESC"@,
                TuiSymbols::Unicode => "\u{241b}"@,
                TuiSymbols::NerdFont => "\u{f12b7}"@,
            },
            Symbol::Next => match symbols {
                TuiSymbols::Ascii => "RIGHT"@,
                TuiSymbols::Unicode => "\u{2192}"@,
                TuiSymbols::NerdFont => "\u{f061}"@,
            },
            Symbol::Previous => match symbols {
                TuiSymbols::Ascii => "LEFT"@,
                TuiSymbols::Unicode => "\u{2190}"@,
                TuiSymbols::NerdFont => "\u{f060}"@,
            },
            Symbol::Page => match symbols {
                TuiSymbols::Ascii => "Page"@,
                TuiSymbols::Unicode => "Page"@,
                TuiSymbols::NerdFont => "\u{ea7b}"@,
            },
            Symbol::Input => match symbols {
                TuiSymbols::Ascii => ">"@,
                TuiSymbols::Unicode => ">"@,
                TuiSymbols::NerdFont => "\u{f105}"@,
            },
        }
    }

    /// The symbol as written in the symbol set `symbols`.
    pub fn query(&self, symbols: &TuiSymbols) -> (text: &'static str)
        ensures
            text@ == self.glyph(*symbols),
    {
        match self {
            Symbol::Enter => match symbols {
                TuiSymbols::Ascii => "CR",
                TuiSymbols::Unicode => "\u{23ce}",
                TuiSymbols::NerdFont => "\u{f0311}",
            },
            Symbol::Escape => match symbols {
                TuiSymbols::Ascii => "ESC",
                TuiSymbols::Unicode => "\u{241b}",
                TuiSymbols::NerdFont => "\u{f12b7}",
            },
            Symbol::Next => match symbols {
                TuiSymbols::Ascii => "RIGHT",
                TuiSymbols::Unicode => "\u{2192}",
                TuiSymbols::NerdFont => "\u{f061}",
            },
            Symbol::Previous => match symbols {
                TuiSymbols::Ascii => "LEFT",
                TuiSymbols::Unicode => "\u{2190}",
                TuiSymbols::NerdFont => "\u{f060}",
            },
            Symbol::Page => match symbols {
                TuiSymbols::Ascii => "Page",
                TuiSymbols::Unicode => "Page",
                TuiSymbols::NerdFont => "\u{ea7b}",
            },
            Symbol::Input => match symbols {
                TuiSymbols::Ascii => ">",
                TuiSymbols::Unicode => ">",
                TuiSymbols::NerdFont => "\u{f105}",
            },
        }
    }
}

/// The width that a centred frame takes at least.
pub const TERMINAL_MIN_WIDTH: u16 = 100;

/// The colour and weight of a piece of text.
#[derive(Clone, Copy, Debug, PartialEq, Eq, Structural)]
pub enum Tint {
    Plain,
    Dim,
    Cyan,
    Yellow,
}

/// A piece of text in one tint.
#[derive(Debug)]
pub struct Span {
    pub content: String,
    pub tint: Tint,
}

/// A span, as specifications see it.
#[verifier::ext_equal]
pub struct SpanView {
    pub content: Seq<char>,
    pub tint: Tint,
}

impl View for Span {
    type V = SpanView;

    open spec fn view(&self) -> SpanView {
        SpanView { content: self.content@, tint: self.tint }
    }
}

/// The spans of a line, each taken by its view.
pub open spec fn line_view(line: Seq<Span>) -> Seq<SpanView> {
    Seq::new(line.len(), |i: int| line[i]@)
}

/// The lines of a body, each taken by its view.
pub open spec fn lines_view(lines: Seq<Vec<Span>>) -> Seq<Seq<SpanView>> {
    Seq::new(lines.len(), |i: int| line_view(lines[i]@))
}

/// A width and a height in screen cells.
#[derive(Clone, Copy, Debug, PartialEq, Eq, Structural)]
pub struct Size {
    pub width: u16,
    pub height: u16,
}

/// A rectangle of screen cells.
#[derive(Clone, Copy, Debug, PartialEq, Eq, Structural)]
pub struct Rect {
    pub x: u16,
    pub y: u16,
    pub width: u16,
    pub height: u16,
}

/// Where the rows gather when the area is taller than they need.
#[derive(Clone, Copy, Debug, PartialEq, Eq, Structural)]
pub enum Flex {
    Start,
    Center,
}

/// The height asked for one row of the frame.
#[derive(Clone, Copy, Debug, PartialEq, Eq, Structural)]
pub enum Constraint {
    Length(u16),
    Min(u16),
}

/// Everything that is drawn for one page.
#[derive(Debug)]
pub struct Frame {
    pub area: Rect,
    pub flex: Flex,
    pub constraints: Vec<Constraint>,
    pub title: Span,
    pub description: Span,
    pub body: Vec<Vec<Span>>,
    pub footer: Vec<Span>,
}

/// A frame, as specifications see it.
#[verifier::ext_equal]
pub struct FrameView {
    pub area: Rect,
    pub flex: Flex,
    pub constraints: Seq<Constraint>,
    pub title: SpanView,
    pub description: SpanView,
    pub body: Seq<Seq<SpanView>>,
    pub footer: Seq<SpanView>,
}

impl View for Frame {
    type V = FrameView;

    open spec fn view(&self) -> FrameView {
        FrameView {
            area: self.area,
            flex: self.flex,
            constraints: self.constraints@,
            title: self.title@,
            description: self.description@,
            body: lines_view(self.body@),
            footer: line_view(self.footer@),
        }
    }
}

/// The left margin of every line.
pub open spec fn margin() -> Seq<char> {
    "    "@
}

/// The part of the terminal that the frame is laid out in: all of it, or,
/// for the centred layout, a box in its middle that is as wide as the body
/// but at least `TERMINAL_MIN_WIDTH` and leaves four cells free on each
/// side, and as tall as the frame needs but no taller than the terminal.
pub open spec fn render_area(
    layout: TUILayout,
    terminal_area: Rect,
    body_height: u16,
    body_dimensions: Size,
) -> Rect {
    if layout == TUILayout::FullscreenCenter {
        let wanted = if body_dimensions.width > TERMINAL_MIN_WIDTH {
            body_dimensions.width
        } else {
            TERMINAL_MIN_WIDTH
        };
        let width = if wanted < terminal_area.width - 8 {
            wanted as int
        } else {
            terminal_area.width - 8
        };
        let height = if body_height + TERMINAL_MIN_HEIGHT < terminal_area.height {
            body_height + TERMINAL_MIN_HEIGHT
        } else {
            terminal_area.height as int
        };
        Rect {
            x: ((terminal_area.width - width) / 2) as u16,
            y: ((terminal_area.height - height) / 2) as u16,
            width: width as u16,
            height: height as u16,
        }
    } else {
        terminal_area
    }
}

/// The rows of the frame, top to bottom: a blank row, the title, the
/// description, the body, a blank row and the footer.
pub open spec fn frame_rows(layout: TUILayout, body_height: u16) -> Seq<Constraint> {
    seq![
        Constraint::Length(1),
        Constraint::Length(1),
        Constraint::Length(2),
        if layout == TUILayout::Fullscreen {
            Constraint::Min(body_height)
        } else {
            Constraint::Length(body_height)
        },
        Constraint::Length(1),
        Constraint::Length(2),
    ]
}

/// The footer: the page counter and the key hints. "Back" is offered on
/// every page but the first; the last page offers "Commit" in place of
/// "Accept", and in plain weight.
pub open spec fn footer_of(symbols: TuiSymbols, page: nat, pages: nat) -> Seq<SpanView> {
    seq![
        SpanView {
            content: margin() + Symbol::Page.glyph(symbols) + " "@ + decimal(page) + "/"@ + decimal(
                pages,
            ),
            tint: Tint::Dim,
        },
        SpanView {
            content: " \u{2022} ["@ + Symbol::Escape.glyph(symbols) + "] Quit"@,
            tint: Tint::Dim,
        },
        if page != 1 {
            SpanView {
                content: " \u{2022} ["@ + Symbol::Previous.glyph(symbols) + "] Back"@,
                tint: Tint::Dim,
            }
        } else {
            SpanView { content: ""@, tint: Tint::Plain }
        },
        SpanView { content: " \u{2022} "@, tint: Tint::Dim },
        if page == pages {
            SpanView {
                content: "["@ + Symbol::Enter.glyph(symbols) + "] Commit"@,
                tint: Tint::Plain,
            }
        } else {
            SpanView { content: "["@ + Symbol::Enter.glyph(symbols) + "] Accept"@, tint: Tint::Dim }
        },
    ]
}

/// The frame of a page, in views.
pub open spec fn frame_of(
    tui_config: TUIConfig,
    page: nat,
    pages: nat,
    body_height: u16,
    title: Seq<char>,
    description: Seq<char>,
    terminal_area: Rect,
    body: Seq<Seq<SpanView>>,
    body_dimensions: Size,
) -> FrameView {
    FrameView {
        area: render_area(tui_config.layout, terminal_area, body_height, body_dimensions),
        flex: if tui_config.layout == TUILayout::FullscreenCenter {
            Flex::Center
        } else {
            Flex::Start
        },
        constraints: frame_rows(tui_config.layout, body_height),
        title: SpanView { content: margin() + title, tint: Tint::Plain },
        description: SpanView { content: margin() + description, tint: Tint::Dim },
        body,
        footer: footer_of(tui_config.symbols, page, pages),
    }
}

/// `first` and `second` in one string.
fn join2(first: &str, second: &str) -> (out: String)
    ensures
        out@ == first@ + second@,
{
    let mut out = String::from_str(first);
    out.append(second);
    out
}

/// `first`, `second` and `third` in one string.
fn join3(first: &str, second: &str, third: &str) -> (out: String)
    ensures
        out@ == first@ + second@ + third@,
{
    let mut out = String::from_str(first);
    out.append(second);
    out.append(third);
    out
}

/// The footer of page `page` of `pages`.
fn footer(symbols: &TuiSymbols, page: usize, pages: usize) -> (spans: Vec<Span>)
    ensures
        line_view(spans@) == footer_of(*symbols, page as nat, pages as nat),
{
    let mut counter = join3("    ", Symbol::Page.query(symbols), " ");
    push_decimal(&mut counter, page);
    counter.append("/");
    push_decimal(&mut counter, pages);
    let mut spans: Vec<Span> = Vec::new();
    spans.push(Span { content: counter, tint: Tint::Dim });
    spans.push(
        Span {
            content: join3(" \u{2022} [", Symbol::Escape.query(symbols), "] Quit"),
            tint: Tint::Dim,
        },
    );
    if page != 1 {
        spans.push(
            Span {
                content: join3(" \u{2022} [", Symbol::Previous.query(symbols), "] Back"),
                tint: Tint::Dim,
            },
        );
    } else {
        spans.push(Span { content: String::from_str(""), tint: Tint::Plain });
    }
    spans.push(Span { content: String::from_str(" \u{2022} "), tint: Tint::Dim });
    if page == pages {
        spans.push(
            Span {
                content: join3("[", Symbol::Enter.query(symbols), "] Commit"),
                tint: Tint::Plain,
            },
        );
    } else {
        spans.push(
            Span { content: join3("[", Symbol::Enter.query(symbols), "] Accept"), tint: Tint::Dim },
        );
    }
    spans
}

/// Lays out the frame of a page: where it stands on the terminal, its
/// rows, the title and description lines, the body and the footer.
pub fn draw_frame(
    tui_config: &TUIConfig,
    page: usize,
    pages: usize,
    body_height: u16,
    title: &String,
    description: &String,
    terminal_area: Rect,
    body: Vec<Vec<Span>>,
    body_dimensions: Size,
) -> (frame: Frame)
    requires
        tui_config.layout == TUILayout::FullscreenCenter ==> terminal_area.width >= 8
            && body_height + TERMINAL_MIN_HEIGHT <= u16::MAX,
    ensures
        frame@ == frame_of(
            *tui_config,
            page as nat,
            pages as nat,
            body_height,
            title@,
            description@,
            terminal_area,
            lines_view(body@),
            body_dimensions,
        ),
{
    let mut area = terminal_area;
    if tui_config.layout == TUILayout::FullscreenCenter {
        let wanted: u16 = if body_dimensions.width > TERMINAL_MIN_WIDTH {
            body_dimensions.width
        } else {
            TERMINAL_MIN_WIDTH
        };
        let room: u16 = terminal_area.width - 8;
        let width: u16 = if wanted < room {
            wanted
        } else {
            room
        };
        let needed: u16 = body_height + TERMINAL_MIN_HEIGHT;
        let height: u16 = if needed < terminal_area.height {
            needed
        } else {
            terminal_area.height
        };
        area =
        Rect {
            x: (terminal_area.width - width) / 2,
            y: (terminal_area.height - height) / 2,
            width,
            height,
        };
    }
    let flex = if tui_config.layout == TUILayout::FullscreenCenter {
        Flex::Center
    } else {
        Flex::Start
    };
    let mut constraints: Vec<Constraint> = Vec::new();
    constraints.push(Constraint::Length(1));
    constraints.push(Constraint::Length(1));
    constraints.push(Constraint::Length(2));
    if tui_config.layout == TUILayout::Fullscreen {
        constraints.push(Constraint::Min(body_height));
    } else {
        constraints.push(Constraint::Length(body_height));
    }
    constraints.push(Constraint::Length(1));
    constraints.push(Constraint::Length(2));
    Frame {
        area,
        flex,
        constraints,
        title: Span { content: join2("    ", title.as_str()), tint: Tint::Plain },
        description: Span { content: join2("    ", description.as_str()), tint: Tint::Dim },
        body,
        footer: footer(&tui_config.symbols, page, pages),
    }
}

/// The lines of a page between title and footer, the height asked for
/// them, and their extent.
#[derive(Debug)]
pub struct Body {
    pub lines: Vec<Vec<Span>>,
    pub height: u16,
    pub dimensions: Size,
}

/// A body, as specifications see it.
#[verifier::ext_equal]
pub struct BodyView {
    pub lines: Seq<Seq<SpanView>>,
    pub height: u16,
    pub dimensions: Size,
}

impl View for Body {
    type V = BodyView;

    open spec fn view(&self) -> BodyView {
        BodyView {
            lines: lines_view(self.lines@),
            height: self.height,
            dimensions: self.dimensions,
        }
    }
}

/// The number of bytes that a text takes.
pub open spec fn byte_length(text: Seq<char>) -> usize {
    encode_utf8(text).len() as usize
}

/// The line of a text page: the prompt and what was typed so far.
pub open spec fn text_line(symbols: TuiSymbols, buffer: Seq<char>) -> Seq<char> {
    margin() + Symbol::Input.glyph(symbols) + " "@ + buffer
}

/// The body of a text page.
pub open spec fn text_body_of(symbols: TuiSymbols, buffer: Seq<char>) -> BodyView {
    BodyView {
        lines: seq![seq![SpanView { content: text_line(symbols, buffer), tint: Tint::Plain }]],
        height: 1,
        dimensions: Size { width: byte_length(text_line(symbols, buffer)) as u16, height: 2 },
    }
}

/// The body of a text page: one line with the prompt and the buffer.
pub fn text_body(symbols: &TuiSymbols, input: &TextInput) -> (body: Body)
    ensures
        body@ == text_body_of(*symbols, input@),
{
    let mut content = join3("    ", Symbol::Input.query(symbols), " ");
    content.append(input.buffer.as_str());
    let width: u16 = #[verifier::truncate]
    (content.as_str().len() as u16);
    let mut line: Vec<Span> = Vec::new();
    line.push(Span { content, tint: Tint::Plain });
    let mut lines: Vec<Vec<Span>> = Vec::new();
    lines.push(line);
    let body = Body { lines, height: 1, dimensions: Size { width, height: 2 } };
    assert(body@.lines =~~= text_body_of(*symbols, input@).lines);
    body
}

/// One row of a yes/no page: marked and yellow when it is the selected
/// one.
pub open spec fn option_line(option: Seq<char>, selected: bool) -> Seq<SpanView> {
    if selected {
        seq![SpanView { content: margin() + "\u{25cf} "@ + option, tint: Tint::Yellow }]
    } else {
        seq![SpanView { content: margin() + "\u{25cb} "@ + option, tint: Tint::Plain }]
    }
}

/// The body of a yes/no page.
pub open spec fn bool_body_of(input: BooleanInput) -> BodyView {
    BodyView {
        lines: seq![option_line("Yes"@, input.yes), option_line("No"@, !input.yes)],
        height: 2,
        dimensions: Size { width: 6, height: 2 },
    }
}

fn option_row(option: &str, selected: bool) -> (line: Vec<Span>)
    ensures
        line_view(line@) == option_line(option@, selected),
{
    let mut line: Vec<Span> = Vec::new();
    if selected {
        line.push(Span { content: join3("    ", "\u{25cf} ", option), tint: Tint::Yellow });
    } else {
        line.push(Span { content: join3("    ", "\u{25cb} ", option), tint: Tint::Plain });
    }
    line
}

/// The body of a yes/no page: a row for "Yes" and a row for "No".
pub fn bool_body(input: &BooleanInput) -> (body: Body)
    ensures
        body@ == bool_body_of(*input),
{
    let mut lines: Vec<Vec<Span>> = Vec::new();
    lines.push(option_row("Yes", input.yes));
    lines.push(option_row("No", !input.yes));
    let body = Body { lines, height: 2, dimensions: Size { width: 6, height: 2 } };
    body
}

/// The width, in screen cells, of a line made of spans with these
/// contents, as `ratatui::text::Line::width` measures it.
pub uninterp spec fn display_width(contents: Seq<Seq<char>>) -> usize;

/// The contents of the spans of a line.
pub open spec fn line_contents(line: Seq<SpanView>) -> Seq<Seq<char>> {
    Seq::new(line.len(), |i: int| line[i].content)
}

/// `ratatui::text::Line::width` of the line whose spans hold the contents
/// of `line`: the sum of the unicode widths of the spans, which depends on
/// their text alone.
#[verifier::external_body]
fn line_width(line: &Vec<Span>) -> (width: usize)
    ensures
        width == display_width(line_contents(line_view(line@))),
{
    ratatui::text::Line::from(
        line.iter().map(|span| ratatui::text::Span::raw(span.content.as_str())).collect::<Vec<_>>(),
    ).width()
}

/// The most bytes that one of the first `count` values takes.
pub open spec fn value_width(choices: Seq<ChoiceView>, count: int) -> usize
    decreases count,
{
    if count <= 0 {
        0
    } else if byte_length(choices[count - 1].value) > value_width(choices, count - 1) {
        byte_length(choices[count - 1].value)
    } else {
        value_width(choices, count - 1)
    }
}

/// The row of option `index`: its mark, its number, its value and, dimmed,
/// its label. Numbers and values are filled up to a common width; the
/// marked row is cyan.
pub open spec fn choice_line(entry: EntryChoiceView, index: int, selected: bool) -> Seq<SpanView> {
    seq![
        SpanView {
            content: margin() + (if selected {
                "\u{25cf} "@
            } else {
                "\u{25cb} "@
            }) + padded(
                decimal((index + 1) as nat) + "."@,
                decimal(entry.choices.len()).len() as int,
            ) + " "@ + padded(
                entry.choices[index].value,
                value_width(entry.choices, entry.choices.len() as int) as int,
            ) + "    "@,
            tint: if selected {
                Tint::Cyan
            } else {
                Tint::Plain
            },
        },
        SpanView { content: entry.choices[index].label, tint: Tint::Dim },
    ]
}

/// The rows of the options that the window shows.
pub open spec fn choice_lines(entry: EntryChoiceView, input: ChoiceInput) -> Seq<Seq<SpanView>> {
    Seq::new(
        (input.viewport.end - input.viewport.start) as nat,
        |k: int|
            choice_line(
                entry,
                input.viewport.start + k,
                input.viewport.start + k == input.selected_index,
            ),
    )
}

/// The width of the widest of the first `count` lines.
pub open spec fn widest(lines: Seq<Seq<SpanView>>, count: int) -> usize
    decreases count,
{
    if count <= 0 {
        0
    } else if display_width(line_contents(lines[count - 1])) > widest(lines, count - 1) {
        display_width(line_contents(lines[count - 1]))
    } else {
        widest(lines, count - 1)
    }
}

/// The body of a choice page.
pub open spec fn choice_body_of(entry: EntryChoiceView, input: ChoiceInput) -> BodyView {
    let lines = choice_lines(entry, input);
    BodyView {
        lines,
        height: entry.choices.len() as u16,
        dimensions: Size {
            width: widest(lines, lines.len() as int) as u16,
            height: lines.len() as u16,
        },
    }
}

/// The row of option `index`.
fn choice_row(
    entry: &EntryChoice,
    index: usize,
    selected: bool,
    number_width: usize,
    values_width: usize,
) -> (line: Vec<Span>)
    requires
        index < entry.choices.len(),
        number_width == decimal(entry@.choices.len()).len(),
        values_width == value_width(entry@.choices, entry@.choices.len() as int),
    ensures
        line_view(line@) == choice_line(entry@, index as int, selected),
{
    let choice = &entry.choices[index];
    let mut number = String::new();
    push_decimal(&mut number, index + 1);
    number.append(".");
    let mut content = join2(
        "    ",
        if selected {
            "\u{25cf} "
        } else {
            "\u{25cb} "
        },
    );
    content.append(pad_to_length(number.as_str(), number_width).as_str());
    content.append(" ");
    content.append(pad_to_length(choice.value.as_str(), values_width).as_str());
    content.append("    ");
    let mut line: Vec<Span> = Vec::new();
    line.push(
        Span {
            content,
            tint: if selected {
                Tint::Cyan
            } else {
                Tint::Plain
            },
        },
    );
    line.push(Span { content: choice.label.clone(), tint: Tint::Dim });
    line
}

/// The body of a choice page: the rows of the options in the window.
pub fn choice_body(entry: &EntryChoice, input: &ChoiceInput) -> (body: Body)
    requires
        input.wf(entry.choices.len() as int),
    ensures
        body@ == choice_body_of(entry@, *input),
{
    let count: usize = entry.choices.len();
    let mut numeral = String::new();
    push_decimal(&mut numeral, count);
    let number_width: usize = numeral.as_str().unicode_len();
    let mut values_width: usize = 0;
    let mut i: usize = 0;
    while i < count
        invariant
            i <= count,
            count == entry.choices.len(),
            values_width == value_width(entry@.choices, i as int),
        decreases count - i,
    {
        let length: usize = entry.choices[i].value.as_str().len();
        if length > values_width {
            values_width = length;
        }
        i += 1;
    }
    let ghost expected = choice_lines(entry@, *input);
    let mut lines: Vec<Vec<Span>> = Vec::new();
    let mut max_width: usize = 0;
    let mut index: usize = input.viewport.start;
    while index < input.viewport.end
        invariant
            input.viewport.start <= index <= input.viewport.end <= count,
            count == entry.choices.len(),
            number_width == decimal(entry@.choices.len()).len(),
            values_width == value_width(entry@.choices, entry@.choices.len() as int),
            expected == choice_lines(entry@, *input),
            lines.len() == index - input.viewport.start,
            forall|k: int| 0 <= k < lines.len() ==> line_view(#[trigger] lines[k]@) == expected[k],
            max_width == widest(expected, lines.len() as int),
        decreases input.viewport.end - index,
    {
        let line = choice_row(
            entry,
            index,
            index == input.selected_index,
            number_width,
            values_width,
        );
        let width: usize = line_width(&line);
        if width > max_width {
            max_width = width;
        }
        lines.push(line);
        index += 1;
    }
    let body = Body {
        height: #[verifier::truncate]
        (count as u16),
        dimensions: Size {
            width: #[verifier::truncate]
            (max_width as u16),
            height: #[verifier::truncate]
            (lines.len() as u16),
        },
        lines,
    };
    body
}

impl EntryView {
    /// The rows that the entry's list takes: the number of options of a
    /// choice entry, cut to 16 bits; none for the other kinds.
    pub open spec fn list_rows(self) -> u16 {
        match self {
            EntryView::Choice(e) => e.choices.len() as u16,
            _ => 0,
        }
    }
}

impl SectionView {
    /// The rows of the longest list among the first `count` entries.
    pub open spec fn longest_list(self, count: int) -> u16
        decreases count,
    {
        if count <= 0 {
            0
        } else if self.entries[count - 1].list_rows() > self.longest_list(count - 1) {
            self.entries[count - 1].list_rows()
        } else {
            self.longest_list(count - 1)
        }
    }
}

impl ConfigurationView {
    /// The rows of the longest list in the sections before `section`.
    pub open spec fn longest_list(self, section: int) -> u16
        decreases section,
    {
        if section <= 0 {
            0
        } else if self.sections[section - 1].longest_list(
            self.sections[section - 1].entries.len() as int,
        ) > self.longest_list(section - 1) {
            self.sections[section - 1].longest_list(self.sections[section - 1].entries.len() as int)
        } else {
            self.longest_list(section - 1)
        }
    }
}

impl Configuration {
    /// The height of the strip of terminal that the inline layout draws
    /// in: the rows of the longest list and the rows of the frame. `None`
    /// where that is no screen height.
    pub fn inline_height(&self) -> (r: Option<u16>)
        ensures
            match r {
                Some(height) => height == self@.longest_list(self@.sections.len() as int)
                    + TERMINAL_MIN_HEIGHT,
                None => self@.longest_list(self@.sections.len() as int) + TERMINAL_MIN_HEIGHT
                    > u16::MAX,
            },
    {
        let mut max_height: u16 = 0;
        let mut i: usize = 0;
        while i < self.sections.len()
            invariant
                i <= self.sections.len(),
                max_height == self@.longest_list(i as int),
            decreases self.sections.len() - i,
        {
            let section = &self.sections[i];
            let mut longest: u16 = 0;
            let mut j: usize = 0;
            while j < section.entries.len()
                invariant
                    j <= section.entries.len(),
                    longest == section@.longest_list(j as int),
                decreases section.entries.len() - j,
            {
                match &section.entries[j] {
                    Entry::Choice(choice) => {
                        let choices: u16 = #[verifier::truncate]
                        (choice.choices.len() as u16);
                        if choices > longest {
                            longest = choices;
                        }
                    },
                    _ => {},
                }
                j += 1;
            }
            if longest > max_height {
                max_height = longest;
            }
            i += 1;
        }
        max_height.checked_add(TERMINAL_MIN_HEIGHT)
    }
}

} // verus!
