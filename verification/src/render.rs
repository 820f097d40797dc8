//! The render projection: what the screen shows for a session.
//!
//! [`ui`] is a function of the session and the size of the terminal alone.
//! It yields a description of the screen: the header, the two lists side by
//! side, the footer and, while the editor is open, the list that lies over
//! the rest. It draws nothing; a driver turns the description into widgets.

use crate::action::{label_text, ButtonAction};
use crate::app::{App, AppView, Mode, Panel};
use crate::device::{DeviceView, MouseButton, MouseDevice};
use crate::text::{decimal, push_decimal};
use vstd::prelude::*;
use vstd::string::*;

verus! {

/// The rows that the header takes, its frame included.
pub const HEADER_ROWS: u16 = 3;

/// The rows that the footer takes.
pub const FOOTER_ROWS: u16 = 2;

/// The share of the width that the list of resolutions takes, in percent.
pub const DPI_PANEL_PERCENT: u16 = 40;

/// The share of the width that the list of buttons takes, in percent.
pub const BUTTON_PANEL_PERCENT: u16 = 60;

/// The width of the button editor, in columns.
pub const POPUP_WIDTH: u16 = 36;

/// The rows that the button editor takes beside its options.
pub const POPUP_EXTRA_ROWS: u16 = 4;

/// A rectangle of the terminal, in character cells.
#[derive(Debug, Clone, Copy, PartialEq, Eq, Structural)]
pub struct Area {
    pub x: u16,
    pub y: u16,
    pub width: u16,
    pub height: u16,
}

/// How much of a stretch of the terminal a part of the screen takes.
#[derive(Debug, Clone, Copy, PartialEq, Eq, Structural)]
pub enum Extent {
    /// This many cells.
    Cells(u16),
    /// What is left over, and at least this many cells.
    AtLeast(u16),
    /// This share of the stretch, in percent.
    Percent(u16),
}

/// A colour of the terminal.
#[derive(Debug, Clone, Copy, PartialEq, Eq, Structural)]
pub enum Color {
    Black,
    Cyan,
    DarkGray,
    White,
    Yellow,
}

/// How text is set off: the colour of the text and of its ground, where
/// they are not the terminal's own, and whether the text is bold.
#[derive(Debug, Clone, Copy, PartialEq, Eq)]
pub struct Style {
    pub fg: Option<Color>,
    pub bg: Option<Color>,
    pub bold: bool,
}

/// A run of text in one style.
#[derive(Debug, PartialEq, Eq)]
pub struct Span {
    pub text: String,
    pub style: Style,
}

/// A framed list with a title and one entry selected.
#[derive(Debug, PartialEq, Eq)]
pub struct ListBox {
    /// The title in the frame.
    pub title: String,
    /// Whether the title stands in the middle of the frame's upper edge.
    pub title_centered: bool,
    /// The style of the frame.
    pub border: Style,
    /// The entries.
    pub items: Vec<String>,
    /// The position of the selected entry.
    pub selected: usize,
    /// The style of the selected entry.
    pub highlight: Style,
    /// The mark before the selected entry.
    pub marker: String,
}

/// The list that lies over the rest, and where.
#[derive(Debug, PartialEq, Eq)]
pub struct Popup {
    pub list: ListBox,
    pub area: Area,
}

/// What the screen shows.
#[derive(Debug, PartialEq, Eq)]
pub struct Screen {
    /// The heights of the header, the lists and the footer, from the top.
    pub rows: Vec<Extent>,
    /// The header, in a frame.
    pub header: Vec<Span>,
    /// The widths of the two lists, from the left.
    pub columns: Vec<Extent>,
    /// The list of resolutions.
    pub dpi_list: ListBox,
    /// The list of buttons.
    pub button_list: ListBox,
    /// The footer.
    pub footer: Vec<Span>,
    /// The button editor, while it is open; it lies over the rest.
    pub popup: Option<Popup>,
}

/// A run of text as a mathematical value.
pub struct SpanView {
    pub text: Seq<char>,
    pub style: Style,
}

/// A list as a mathematical value.
pub struct ListBoxView {
    pub title: Seq<char>,
    pub title_centered: bool,
    pub border: Style,
    pub items: Seq<Seq<char>>,
    pub selected: nat,
    pub highlight: Style,
    pub marker: Seq<char>,
}

/// The overlying list as a mathematical value.
pub struct PopupView {
    pub list: ListBoxView,
    pub area: Area,
}

/// The screen as a mathematical value.
pub struct ScreenView {
    pub rows: Seq<Extent>,
    pub header: Seq<SpanView>,
    pub columns: Seq<Extent>,
    pub dpi_list: ListBoxView,
    pub button_list: ListBoxView,
    pub footer: Seq<SpanView>,
    pub popup: Option<PopupView>,
}

impl View for Span {
    type V = SpanView;

    open spec fn view(&self) -> SpanView {
        SpanView { text: self.text@, style: self.style }
    }
}

/// The texts of a list of strings.
pub open spec fn texts_of(items: Seq<String>) -> Seq<Seq<char>> {
    Seq::new(items.len(), |i: int| items[i]@)
}

/// The values of a list of spans.
pub open spec fn spans_of(spans: Seq<Span>) -> Seq<SpanView> {
    Seq::new(spans.len(), |i: int| spans[i]@)
}

impl View for ListBox {
    type V = ListBoxView;

    open spec fn view(&self) -> ListBoxView {
        ListBoxView {
            title: self.title@,
            title_centered: self.title_centered,
            border: self.border,
            items: texts_of(self.items@),
            selected: self.selected as nat,
            highlight: self.highlight,
            marker: self.marker@,
        }
    }
}

impl View for Popup {
    type V = PopupView;

    open spec fn view(&self) -> PopupView {
        PopupView { list: self.list@, area: self.area }
    }
}

impl View for Screen {
    type V = ScreenView;

    open spec fn view(&self) -> ScreenView {
        ScreenView {
            rows: self.rows@,
            header: spans_of(self.header@),
            columns: self.columns@,
            dpi_list: self.dpi_list@,
            button_list: self.button_list@,
            footer: spans_of(self.footer@),
            popup: match self.popup {
                Some(popup) => Some(popup@),
                None => None,
            },
        }
    }
}

impl Area {
    /// The right and the lower edge are coordinates of their own.
    pub open spec fn wf(self) -> bool {
        &&& self.x + self.width <= u16::MAX
        &&& self.y + self.height <= u16::MAX
    }

    /// Whether `inner` lies within this rectangle.
    pub open spec fn contains(self, inner: Area) -> bool {
        &&& self.x <= inner.x
        &&& inner.x + inner.width <= self.x + self.width
        &&& self.y <= inner.y
        &&& inner.y + inner.height <= self.y + self.height
    }

    /// The rectangle at `(x, y)` of the given size, cut off where the size
    /// would take an edge past the last coordinate.
    pub open spec fn clipped(x: u16, y: u16, width: u16, height: u16) -> Area {
        Area {
            x,
            y,
            width: if x + width <= u16::MAX {
                width
            } else {
                (u16::MAX - x) as u16
            },
            height: if y + height <= u16::MAX {
                height
            } else {
                (u16::MAX - y) as u16
            },
        }
    }

    /// The rectangle at `(x, y)` of the given size, cut off where the size
    /// would take an edge past the last coordinate.
    pub fn new(x: u16, y: u16, width: u16, height: u16) -> (area: Area)
        ensures
            area == Area::clipped(x, y, width, height),
            area.wf(),
    {
        let max_width: u16 = u16::MAX - x;
        let max_height: u16 = u16::MAX - y;
        Area {
            x,
            y,
            width: if width > max_width {
                max_width
            } else {
                width
            },
            height: if height > max_height {
                max_height
            } else {
                height
            },
        }
    }
}

/// The smaller of two lengths.
pub open spec fn shorter(a: u16, b: u16) -> u16 {
    if a <= b {
        a
    } else {
        b
    }
}

/// Where a stretch of `length` cells begins that lies in the middle of a
/// stretch of `room` cells from `start`: half of what is left over goes
/// before it. A stretch that is too long begins at `start`.
pub open spec fn centered_start(start: u16, room: u16, length: u16) -> int {
    start + (room - shorter(length, room)) / 2
}

/// The rectangle of the given size in the middle of `area`, cut down to the
/// size of `area` where it is larger.
pub open spec fn centered(width: u16, height: u16, area: Area) -> Area {
    Area {
        x: centered_start(area.x, area.width, width) as u16,
        y: centered_start(area.y, area.height, height) as u16,
        width: shorter(width, area.width),
        height: shorter(height, area.height),
    }
}

/// Places a rectangle of the given size in the middle of `area`.
pub fn centered_rect(width: u16, height: u16, area: Area) -> (rect: Area)
    requires
        area.wf(),
    ensures
        rect == centered(width, height, area),
        rect.wf(),
        area.contains(rect),
{
    let x: u16 = area.x + area.width.saturating_sub(width) / 2;
    let y: u16 = area.y + area.height.saturating_sub(height) / 2;
    let w: u16 = if width <= area.width {
        width
    } else {
        area.width
    };
    let h: u16 = if height <= area.height {
        height
    } else {
        area.height
    };
    Area::new(x, y, w, h)
}

/// The style of ordinary text.
pub open spec fn plain() -> Style {
    Style { fg: None, bg: None, bold: false }
}

/// The style of text in a colour.
pub open spec fn colored(color: Color) -> Style {
    Style { fg: Some(color), bg: None, bold: false }
}

/// The style of the program's name.
pub open spec fn title_style() -> Style {
    Style { fg: Some(Color::Cyan), bg: None, bold: true }
}

/// The style of a key in the legend.
pub open spec fn key_cap() -> Style {
    Style { fg: None, bg: Some(Color::DarkGray), bold: false }
}

/// The style of the selected entry of a list: bold and black on a ground
/// of the given colour.
pub open spec fn bar(ground: Color) -> Style {
    Style { fg: Some(Color::Black), bg: Some(ground), bold: true }
}

/// The mark before the selected entry of a list.
pub open spec fn marker_text() -> Seq<char> {
    "\u{25b6} "@
}

/// A run of `text` in `style`.
pub open spec fn span_of(text: Seq<char>, style: Style) -> SpanView {
    SpanView { text, style }
}

/// The header: the program, the device and the resolution in use.
pub open spec fn header_of(device: DeviceView) -> Seq<SpanView> {
    seq![
        span_of("ratbagtui"@, title_style()),
        span_of("  \u{b7}  "@, plain()),
        span_of(device.name, colored(Color::White)),
        span_of("  \u{b7}  "@ + decimal(device.dpi as nat) + "dpi"@, plain()),
    ]
}

/// The entry of a resolution; the one in use is marked.
pub open spec fn dpi_item_text(dpi: u32, in_use: u32) -> Seq<char> {
    if dpi == in_use {
        decimal(dpi as nat) + " dpi  \u{2190}"@
    } else {
        decimal(dpi as nat) + " dpi"@
    }
}

/// The entry of a button: its number and what it does.
pub open spec fn button_item_text(button: MouseButton) -> Seq<char> {
    "Button "@ + decimal(button.index as nat) + "   "@ + label_text(button.action)
}

/// The entries of the list of resolutions.
pub open spec fn dpi_items_of(device: DeviceView) -> Seq<Seq<char>> {
    Seq::new(device.valid_dpis.len(), |i: int| dpi_item_text(device.valid_dpis[i], device.dpi))
}

/// The entries of the list of buttons.
pub open spec fn button_items_of(device: DeviceView) -> Seq<Seq<char>> {
    Seq::new(device.buttons.len(), |i: int| button_item_text(device.buttons[i]))
}

/// The entries of the editor.
pub open spec fn option_labels(options: Seq<ButtonAction>) -> Seq<Seq<char>> {
    Seq::new(options.len(), |i: int| label_text(options[i]))
}

/// The style of the frame of one of the two lists: it stands out when the
/// list is the panel in focus and the editor is closed.
pub open spec fn border_of(list: Panel, panel: Panel, mode: Mode) -> Style {
    if panel == list && mode == Mode::Normal {
        colored(Color::Cyan)
    } else {
        colored(Color::DarkGray)
    }
}

/// One of the two lists.
pub open spec fn panel_list(
    title: Seq<char>,
    border: Style,
    items: Seq<Seq<char>>,
    selected: nat,
) -> ListBoxView {
    ListBoxView {
        title,
        title_centered: false,
        border,
        items,
        selected,
        highlight: bar(Color::Cyan),
        marker: marker_text(),
    }
}

/// The list of resolutions.
pub open spec fn dpi_list_of(app: AppView) -> ListBoxView {
    panel_list(
        " DPI "@,
        border_of(Panel::Dpi, app.panel, app.mode),
        dpi_items_of(app.device),
        app.dpi_cursor.index,
    )
}

/// The list of buttons.
pub open spec fn button_list_of(app: AppView) -> ListBoxView {
    panel_list(
        " Buttons "@,
        border_of(Panel::Buttons, app.panel, app.mode),
        button_items_of(app.device),
        app.button_cursor.index,
    )
}

/// The keys and what they do.
pub open spec fn legend() -> Seq<SpanView> {
    seq![
        span_of(" Tab "@, key_cap()),
        span_of(" switch panel  "@, plain()),
        span_of(" \u{2191}\u{2193} "@, key_cap()),
        span_of(" navigate  "@, plain()),
        span_of(" Enter "@, key_cap()),
        span_of(" apply  "@, plain()),
        span_of(" q "@, key_cap()),
        span_of(" quit"@, plain()),
    ]
}

/// The footer: the message about the last change, or the legend where
/// there is none.
pub open spec fn footer_of(status: Option<Seq<char>>) -> Seq<SpanView> {
    match status {
        Some(message) => seq![span_of(message, colored(Color::Yellow))],
        None => legend(),
    }
}

/// The rows of the editor for a number of options.
pub open spec fn popup_rows(options: nat) -> u16 {
    if options + POPUP_EXTRA_ROWS <= u16::MAX {
        (options + POPUP_EXTRA_ROWS) as u16
    } else {
        u16::MAX
    }
}

/// The editor, while it is open: its options by their labels, in the middle
/// of the terminal.
pub open spec fn popup_of(app: AppView, area: Area) -> Option<PopupView> {
    if app.mode == Mode::EditingButton {
        Some(
            PopupView {
                list: ListBoxView {
                    title: " Select Action "@,
                    title_centered: true,
                    border: colored(Color::Yellow),
                    items: option_labels(app.popup_options),
                    selected: app.popup_cursor.index,
                    highlight: bar(Color::Yellow),
                    marker: marker_text(),
                },
                area: centered(POPUP_WIDTH, popup_rows(app.popup_options.len()), area),
            },
        )
    } else {
        None
    }
}

/// The heights of the header, the lists and the footer: the header and the
/// footer have their rows, the lists take what is left over.
pub open spec fn rows() -> Seq<Extent> {
    seq![Extent::Cells(HEADER_ROWS), Extent::AtLeast(0), Extent::Cells(FOOTER_ROWS)]
}

/// The widths of the two lists.
pub open spec fn columns() -> Seq<Extent> {
    seq![Extent::Percent(DPI_PANEL_PERCENT), Extent::Percent(BUTTON_PANEL_PERCENT)]
}

/// What the screen shows for a session on a terminal of the given size.
pub open spec fn screen_of(app: AppView, area: Area) -> ScreenView {
    ScreenView {
        rows: rows(),
        header: header_of(app.device),
        columns: columns(),
        dpi_list: dpi_list_of(app),
        button_list: button_list_of(app),
        footer: footer_of(app.status),
        popup: popup_of(app, area),
    }
}

/// A run of `text` in `style`.
fn span(text: &str, style: Style) -> (span: Span)
    ensures
        span@ == span_of(text@, style),
{
    Span { text: String::from_str(text), style }
}

/// The style of ordinary text.
fn plain_style() -> (style: Style)
    ensures
        style == plain(),
{
    Style { fg: None, bg: None, bold: false }
}

/// The style of text in a colour.
fn colored_style(color: Color) -> (style: Style)
    ensures
        style == colored(color),
{
    Style { fg: Some(color), bg: None, bold: false }
}

/// The style of a key in the legend.
fn key_cap_style() -> (style: Style)
    ensures
        style == key_cap(),
{
    Style { fg: None, bg: Some(Color::DarkGray), bold: false }
}

/// The style of the selected entry of a list.
fn bar_style(ground: Color) -> (style: Style)
    ensures
        style == bar(ground),
{
    Style { fg: Some(Color::Black), bg: Some(ground), bold: true }
}

/// Builds the header.
fn header(device: &MouseDevice) -> (spans: Vec<Span>)
    ensures
        spans_of(spans@) == header_of(device@),
{
    let mut in_use = String::from_str("  \u{b7}  ");
    push_decimal(&mut in_use, device.dpi as u64);
    in_use.append("dpi");
    let mut spans: Vec<Span> = Vec::new();
    spans.push(span("ratbagtui", Style { fg: Some(Color::Cyan), bg: None, bold: true }));
    spans.push(span("  \u{b7}  ", plain_style()));
    spans.push(Span { text: device.name.clone(), style: colored_style(Color::White) });
    spans.push(Span { text: in_use, style: plain_style() });
    assert(spans_of(spans@) =~= header_of(device@));
    spans
}

/// Builds the entries of the list of resolutions.
fn dpi_items(device: &MouseDevice) -> (items: Vec<String>)
    ensures
        texts_of(items@) == dpi_items_of(device@),
{
    let mut items: Vec<String> = Vec::new();
    let mut i: usize = 0;
    while i < device.valid_dpis.len()
        invariant
            i <= device.valid_dpis.len(),
            items@.len() == i,
            forall|k: int|
                0 <= k < i ==> (#[trigger] items@[k])@ == dpi_item_text(
                    device.valid_dpis@[k],
                    device.dpi,
                ),
        decreases device.valid_dpis.len() - i,
    {
        let dpi: u32 = device.valid_dpis[i];
        let mut text = String::new();
        push_decimal(&mut text, dpi as u64);
        if dpi == device.dpi {
            text.append(" dpi  \u{2190}");
        } else {
            text.append(" dpi");
        }
        assert(text@ =~= dpi_item_text(dpi, device.dpi));
        items.push(text);
        i = i + 1;
    }
    assert(texts_of(items@) =~= dpi_items_of(device@));
    items
}

/// Builds the entries of the list of buttons.
fn button_items(device: &MouseDevice) -> (items: Vec<String>)
    ensures
        texts_of(items@) == button_items_of(device@),
{
    let mut items: Vec<String> = Vec::new();
    let mut i: usize = 0;
    while i < device.buttons.len()
        invariant
            i <= device.buttons.len(),
            items@.len() == i,
            forall|k: int|
                0 <= k < i ==> (#[trigger] items@[k])@ == button_item_text(device.buttons@[k]),
        decreases device.buttons.len() - i,
    {
        let button = &device.buttons[i];
        let mut text = String::from_str("Button ");
        push_decimal(&mut text, button.index as u64);
        text.append("   ");
        let label = button.action.label();
        text.append(label.as_str());
        assert(text@ =~= button_item_text(*button));
        items.push(text);
        i = i + 1;
    }
    assert(texts_of(items@) =~= button_items_of(device@));
    items
}

/// Builds the entries of the editor.
fn option_items(options: &Vec<ButtonAction>) -> (items: Vec<String>)
    ensures
        texts_of(items@) == option_labels(options@),
{
    let mut items: Vec<String> = Vec::new();
    let mut i: usize = 0;
    while i < options.len()
        invariant
            i <= options.len(),
            items@.len() == i,
            forall|k: int| 0 <= k < i ==> (#[trigger] items@[k])@ == label_text(options@[k]),
        decreases options.len() - i,
    {
        items.push(options[i].label());
        i = i + 1;
    }
    assert(texts_of(items@) =~= option_labels(options@));
    items
}

/// Builds the legend.
fn legend_spans() -> (spans: Vec<Span>)
    ensures
        spans_of(spans@) == legend(),
{
    let mut spans: Vec<Span> = Vec::new();
    spans.push(span(" Tab ", key_cap_style()));
    spans.push(span(" switch panel  ", plain_style()));
    spans.push(span(" \u{2191}\u{2193} ", key_cap_style()));
    spans.push(span(" navigate  ", plain_style()));
    spans.push(span(" Enter ", key_cap_style()));
    spans.push(span(" apply  ", plain_style()));
    spans.push(span(" q ", key_cap_style()));
    spans.push(span(" quit", plain_style()));
    assert(spans_of(spans@) =~= legend());
    spans
}

/// Describes what the screen shows for a session on a terminal that covers
/// `area`.
pub fn ui(app: &App, area: Area) -> (screen: Screen)
    requires
        area.wf(),
    ensures
        screen@ == screen_of(app@, area),
{
    let device = app.device();
    let lists_in_use = match app.mode() {
        Mode::Normal => true,
        Mode::EditingButton => false,
    };
    let dpi_border = match app.panel() {
        Panel::Dpi => if lists_in_use {
            colored_style(Color::Cyan)
        } else {
            colored_style(Color::DarkGray)
        },
        Panel::Buttons => colored_style(Color::DarkGray),
    };
    let button_border = match app.panel() {
        Panel::Buttons => if lists_in_use {
            colored_style(Color::Cyan)
        } else {
            colored_style(Color::DarkGray)
        },
        Panel::Dpi => colored_style(Color::DarkGray),
    };
    let dpi_list = ListBox {
        title: String::from_str(" DPI "),
        title_centered: false,
        border: dpi_border,
        items: dpi_items(device),
        selected: app.dpi_cursor().index(),
        highlight: bar_style(Color::Cyan),
        marker: String::from_str("\u{25b6} "),
    };
    let button_list = ListBox {
        title: String::from_str(" Buttons "),
        title_centered: false,
        border: button_border,
        items: button_items(device),
        selected: app.button_cursor().index(),
        highlight: bar_style(Color::Cyan),
        marker: String::from_str("\u{25b6} "),
    };
    let footer = match app.status() {
        Some(message) => {
            let mut spans: Vec<Span> = Vec::new();
            spans.push(Span { text: message.clone(), style: colored_style(Color::Yellow) });
            assert(spans_of(spans@) =~= footer_of(app@.status));
            spans
        },
        None => legend_spans(),
    };
    let popup = match app.mode() {
        Mode::EditingButton => {
            let options = app.popup_options();
            let rows: u16 = if options.len() <= (u16::MAX - POPUP_EXTRA_ROWS) as usize {
                options.len() as u16 + POPUP_EXTRA_ROWS
            } else {
                u16::MAX
            };
            Some(
                Popup {
                    list: ListBox {
                        title: String::from_str(" Select Action "),
                        title_centered: true,
                        border: colored_style(Color::Yellow),
                        items: option_items(options),
                        selected: app.popup_cursor().index(),
                        highlight: bar_style(Color::Yellow),
                        marker: String::from_str("\u{25b6} "),
                    },
                    area: centered_rect(POPUP_WIDTH, rows, area),
                },
            )
        },
        Mode::Normal => None,
    };
    let mut rows: Vec<Extent> = Vec::new();
    rows.push(Extent::Cells(HEADER_ROWS));
    rows.push(Extent::AtLeast(0));
    rows.push(Extent::Cells(FOOTER_ROWS));
    assert(rows@ =~= self::rows());
    let mut columns: Vec<Extent> = Vec::new();
    columns.push(Extent::Percent(DPI_PANEL_PERCENT));
    columns.push(Extent::Percent(BUTTON_PANEL_PERCENT));
    assert(columns@ =~= self::columns());
    Screen { rows, header: header(device), columns, dpi_list, button_list, footer, popup }
}

} // verus!
