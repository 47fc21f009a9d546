//! What a screen is made of: colours, styled text, and the widgets that show it.

use crate::geometry::Rect;
use vstd::prelude::*;

verus! {

/// The colours of the to-do list.
#[derive(Clone, Copy, Debug, PartialEq, Eq, Structural)]
pub enum Shade {
    Background,
    Panel,
    PanelAlt,
    Border,
    Muted,
    Text,
    Accent,
    AccentAlt,
    Success,
    Highlight,
    Track,
}

impl Shade {
    /// The red, green and blue parts of the colour.
    #[verifier::allow_in_spec]
    pub fn rgb(self) -> (u8, u8, u8)
        returns
            (match self {
                Shade::Background => (11u8, 15u8, 20u8),
                Shade::Panel => (20u8, 26u8, 34u8),
                Shade::PanelAlt => (24u8, 32u8, 42u8),
                Shade::Border => (58u8, 71u8, 87u8),
                Shade::Muted => (142u8, 155u8, 170u8),
                Shade::Text => (229u8, 234u8, 239u8),
                Shade::Accent => (242u8, 191u8, 83u8),
                Shade::AccentAlt => (71u8, 176u8, 165u8),
                Shade::Success => (111u8, 197u8, 122u8),
                Shade::Highlight => (39u8, 52u8, 68u8),
                Shade::Track => (33u8, 43u8, 56u8),
            }),
    {
        match self {
            Shade::Background => (11, 15, 20),
            Shade::Panel => (20, 26, 34),
            Shade::PanelAlt => (24, 32, 42),
            Shade::Border => (58, 71, 87),
            Shade::Muted => (142, 155, 170),
            Shade::Text => (229, 234, 239),
            Shade::Accent => (242, 191, 83),
            Shade::AccentAlt => (71, 176, 165),
            Shade::Success => (111, 197, 122),
            Shade::Highlight => (39, 52, 68),
            Shade::Track => (33, 43, 56),
        }
    }
}

/// How text looks. A colour that is missing is left as it was.
#[derive(Clone, Copy, Debug, PartialEq, Eq, Structural)]
pub struct Style {
    pub fg: Option<Shade>,
    pub bg: Option<Shade>,
    pub bold: bool,
    pub italic: bool,
    pub underlined: bool,
    pub crossed_out: bool,
}

impl Style {
    #[verifier::allow_in_spec]
    pub fn plain() -> Style
        returns
            (Style {
                fg: None,
                bg: None,
                bold: false,
                italic: false,
                underlined: false,
                crossed_out: false,
            }),
    {
        Style {
            fg: None,
            bg: None,
            bold: false,
            italic: false,
            underlined: false,
            crossed_out: false,
        }
    }

    #[verifier::allow_in_spec]
    pub fn fg(self, shade: Shade) -> Style
        returns
            (Style { fg: Some(shade), ..self }),
    {
        Style { fg: Some(shade), ..self }
    }

    #[verifier::allow_in_spec]
    pub fn bg(self, shade: Shade) -> Style
        returns
            (Style { bg: Some(shade), ..self }),
    {
        Style { bg: Some(shade), ..self }
    }

    #[verifier::allow_in_spec]
    pub fn bold(self) -> Style
        returns
            (Style { bold: true, ..self }),
    {
        Style { bold: true, ..self }
    }

    #[verifier::allow_in_spec]
    pub fn italic(self) -> Style
        returns
            (Style { italic: true, ..self }),
    {
        Style { italic: true, ..self }
    }

    #[verifier::allow_in_spec]
    pub fn underlined(self) -> Style
        returns
            (Style { underlined: true, ..self }),
    {
        Style { underlined: true, ..self }
    }

    #[verifier::allow_in_spec]
    pub fn crossed_out(self) -> Style
        returns
            (Style { crossed_out: true, ..self }),
    {
        Style { crossed_out: true, ..self }
    }
}

/// A piece of text in one style.
#[derive(Debug, PartialEq)]
pub struct Span {
    pub text: String,
    pub style: Style,
}

/// What a [`Span`] holds.
#[verifier::ext_equal]
pub struct SpanView {
    pub text: Seq<char>,
    pub style: Style,
}

impl View for Span {
    type V = SpanView;

    open spec fn view(&self) -> SpanView {
        SpanView { text: self.text@, style: self.style }
    }
}

/// The view of a text in a style.
pub open spec fn styled_view(text: Seq<char>, style: Style) -> SpanView {
    SpanView { text, style }
}

/// A text in a style.
pub fn styled(text: &str, style: Style) -> (r: Span)
    ensures
        r@ == styled_view(text@, style),
{
    Span { text: text.to_string(), style }
}

/// The view of a text that looks like what is around it.
pub open spec fn raw_view(text: Seq<char>) -> SpanView {
    SpanView { text, style: Style::plain() }
}

/// A text that looks like what is around it.
pub fn raw(text: &str) -> (r: Span)
    ensures
        r@ == raw_view(text@),
{
    styled(text, Style::plain())
}

/// A line of text: empty, in one style, or made of pieces.
#[derive(Debug, PartialEq)]
pub enum Line {
    Blank,
    Styled(Span),
    Joined(Vec<Span>),
}

/// What a [`Line`] holds.
#[verifier::ext_equal]
pub enum LineView {
    Blank,
    Styled(SpanView),
    Joined(Seq<SpanView>),
}

impl View for Line {
    type V = LineView;

    open spec fn view(&self) -> LineView {
        match self {
            Line::Blank => LineView::Blank,
            Line::Styled(span) => LineView::Styled(span@),
            Line::Joined(spans) => LineView::Joined(spans@.map_values(|s: Span| s@)),
        }
    }
}

/// What a text widget shows: a text as it is, or lines.
#[derive(Debug, PartialEq)]
pub enum Content {
    Plain(String),
    Lines(Vec<Line>),
}

/// What a [`Content`] holds.
#[verifier::ext_equal]
pub enum ContentView {
    Plain(Seq<char>),
    Lines(Seq<LineView>),
}

impl View for Content {
    type V = ContentView;

    open spec fn view(&self) -> ContentView {
        match self {
            Content::Plain(text) => ContentView::Plain(text@),
            Content::Lines(lines) => ContentView::Lines(lines@.map_values(|l: Line| l@)),
        }
    }
}

/// A box with round corners, and a title in its upper edge.
#[derive(Debug, PartialEq)]
pub struct Panel {
    pub border: Shade,
    pub background: Shade,
    pub title: Option<Span>,
}

/// What a [`Panel`] holds.
#[verifier::ext_equal]
pub struct PanelView {
    pub border: Shade,
    pub background: Shade,
    pub title: Option<SpanView>,
}

impl View for Panel {
    type V = PanelView;

    open spec fn view(&self) -> PanelView {
        PanelView {
            border: self.border,
            background: self.background,
            title: match self.title {
                Some(title) => Some(title@),
                None => None,
            },
        }
    }
}

/// The view of a box without a title.
pub open spec fn panel_view(border: Shade, background: Shade) -> PanelView {
    PanelView { border, background, title: None }
}

/// A box without a title.
pub fn panel(border: Shade, background: Shade) -> (r: Panel)
    ensures
        r@ == panel_view(border, background),
{
    Panel { border, background, title: None }
}

/// The view of a box with a title.
pub open spec fn titled_panel_view(
    border: Shade,
    background: Shade,
    title: Seq<char>,
) -> PanelView {
    PanelView {
        border,
        background,
        title: Some(styled_view(title, Style::plain().fg(Shade::Text).bold())),
    }
}

/// A box with a title.
pub fn titled_panel(border: Shade, background: Shade, title: &str) -> (r: Panel)
    ensures
        r@ == titled_panel_view(border, background, title@),
{
    Panel {
        border,
        background,
        title: Some(styled(title, Style::plain().fg(Shade::Text).bold())),
    }
}

/// A text widget.
#[derive(Debug, PartialEq)]
pub struct Paragraph {
    pub content: Content,
    pub style: Style,
    pub panel: Option<Panel>,
    pub centered: bool,
    /// Whether long lines go on in the next row, without the space at which they break.
    pub wrapped: bool,
}

/// What a [`Paragraph`] holds.
#[verifier::ext_equal]
pub struct ParagraphView {
    pub content: ContentView,
    pub style: Style,
    pub panel: Option<PanelView>,
    pub centered: bool,
    pub wrapped: bool,
}

impl View for Paragraph {
    type V = ParagraphView;

    open spec fn view(&self) -> ParagraphView {
        ParagraphView {
            content: self.content@,
            style: self.style,
            panel: match self.panel {
                Some(panel) => Some(panel@),
                None => None,
            },
            centered: self.centered,
            wrapped: self.wrapped,
        }
    }
}

/// A row of names of which one is marked.
#[derive(Debug, PartialEq)]
pub struct Tabs {
    pub titles: Vec<&'static str>,
    pub selected: usize,
    pub panel: Panel,
    pub style: Style,
    pub highlight: Style,
    pub divider: Span,
}

/// What [`Tabs`] hold.
#[verifier::ext_equal]
pub struct TabsView {
    pub titles: Seq<Seq<char>>,
    pub selected: nat,
    pub panel: PanelView,
    pub style: Style,
    pub highlight: Style,
    pub divider: SpanView,
}

impl View for Tabs {
    type V = TabsView;

    open spec fn view(&self) -> TabsView {
        TabsView {
            titles: self.titles@.map_values(|t: &'static str| t@),
            selected: self.selected as nat,
            panel: self.panel@,
            style: self.style,
            highlight: self.highlight,
            divider: self.divider@,
        }
    }
}

/// A list of which one item may be marked.
#[derive(Debug, PartialEq)]
pub struct List {
    pub items: Vec<Line>,
    pub selected: Option<usize>,
    pub panel: Panel,
    pub highlight: Style,
    /// What stands before the item that is marked.
    pub symbol: &'static str,
}

/// What a [`List`] holds.
#[verifier::ext_equal]
pub struct ListView {
    pub items: Seq<LineView>,
    pub selected: Option<nat>,
    pub panel: PanelView,
    pub highlight: Style,
    pub symbol: Seq<char>,
}

impl View for List {
    type V = ListView;

    open spec fn view(&self) -> ListView {
        ListView {
            items: self.items@.map_values(|l: Line| l@),
            selected: match self.selected {
                Some(i) => Some(i as nat),
                None => None,
            },
            panel: self.panel@,
            highlight: self.highlight,
            symbol: self.symbol@,
        }
    }
}

/// A bar that is filled as far as a part is of a whole.
#[derive(Debug, PartialEq)]
pub struct Gauge {
    /// The part and the whole, or nothing for an empty bar.
    pub ratio: Option<(usize, usize)>,
    pub label: String,
    pub panel: Panel,
    pub style: Style,
}

/// What a [`Gauge`] holds.
#[verifier::ext_equal]
pub struct GaugeView {
    pub ratio: Option<(nat, nat)>,
    pub label: Seq<char>,
    pub panel: PanelView,
    pub style: Style,
}

impl View for Gauge {
    type V = GaugeView;

    open spec fn view(&self) -> GaugeView {
        GaugeView {
            ratio: match self.ratio {
                Some((part, whole)) => Some((part as nat, whole as nat)),
                None => None,
            },
            label: self.label@,
            panel: self.panel@,
            style: self.style,
        }
    }
}

/// Something that is put on the screen.
#[derive(Debug, PartialEq)]
pub enum Widget {
    /// A colour behind everything.
    Backdrop(Shade),
    /// Nothing: what was there is wiped out.
    Clear,
    Panel(Panel),
    Paragraph(Paragraph),
    Tabs(Tabs),
    List(List),
    Gauge(Gauge),
    /// The text cursor, in an area of one cell.
    Cursor,
}

/// What a [`Widget`] holds.
#[verifier::ext_equal]
pub enum WidgetView {
    Backdrop(Shade),
    Clear,
    Panel(PanelView),
    Paragraph(ParagraphView),
    Tabs(TabsView),
    List(ListView),
    Gauge(GaugeView),
    Cursor,
}

impl View for Widget {
    type V = WidgetView;

    open spec fn view(&self) -> WidgetView {
        match self {
            Widget::Backdrop(shade) => WidgetView::Backdrop(*shade),
            Widget::Clear => WidgetView::Clear,
            Widget::Panel(panel) => WidgetView::Panel(panel@),
            Widget::Paragraph(paragraph) => WidgetView::Paragraph(paragraph@),
            Widget::Tabs(tabs) => WidgetView::Tabs(tabs@),
            Widget::List(list) => WidgetView::List(list@),
            Widget::Gauge(gauge) => WidgetView::Gauge(gauge@),
            Widget::Cursor => WidgetView::Cursor,
        }
    }
}

/// A widget and where it goes. What comes later covers what came before.
#[derive(Debug, PartialEq)]
pub struct Draw {
    pub area: Rect,
    pub widget: Widget,
}

/// What a [`Draw`] holds.
#[verifier::ext_equal]
pub struct DrawView {
    pub area: Rect,
    pub widget: WidgetView,
}

impl View for Draw {
    type V = DrawView;

    open spec fn view(&self) -> DrawView {
        DrawView { area: self.area, widget: self.widget@ }
    }
}

/// What each of a sequence of drawings holds.
pub open spec fn draw_views(draws: Seq<Draw>) -> Seq<DrawView> {
    draws.map_values(|d: Draw| d@)
}

} // verus!
