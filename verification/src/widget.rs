//! The editable text widget: builder-style configuration and the per-frame
//! evaluation.
//!
//! The widget keeps no state of its own between frames. Each frame the host
//! reserves a region of [`crate::layout::desired_size`], answers the focus
//! query, and hands everything it measured to [`TextEdit::ui`], which then
//! decides the focus request and the cursor icon, applies the frame's events
//! to the buffer, derives the blinking caret and assembles the paint
//! commands, in that order.

use vstd::prelude::*;

use crate::caret::{caret_position, caret_position_spec, caret_visible, caret_visible_spec};
use crate::color::Color;
use crate::edit::{buffer_after_events, clipboard_after_events, process_events};
use crate::events::Event;
use crate::geometry::{Rect, Vec2};
use crate::layout::Galley;

verus! {

/// A stable key correlating a logical widget across frames for focus and
/// interaction tracking.
#[derive(Clone, Copy, Debug, PartialEq, Eq, Structural, Hash)]
pub struct Id(pub u64);

impl Id {
    pub fn new(value: u64) -> (id: Id)
        ensures
            id == Id(value),
    {
        Id(value)
    }
}

/// One of the host's fixed text styles.
#[derive(Clone, Copy, Debug, PartialEq, Eq, Structural)]
pub enum TextStyle {
    Body,
    Button,
    Heading,
    Monospace,
}

/// The pointer shape the widget asks the host to show.
#[derive(Clone, Copy, Debug, PartialEq, Eq, Structural)]
pub enum CursorIcon {
    Default,
    Text,
}

/// What the host reports after reserving the widget's screen region:
/// the allocated rectangle and this frame's pointer state over it.
#[derive(Clone, Copy, Debug, PartialEq, Eq, Structural)]
pub struct InteractInfo {
    pub rect: Rect,
    pub hovered: bool,
    pub clicked: bool,
}

/// The interaction response handed back to the caller for chaining.
#[derive(Clone, Copy, Debug, PartialEq, Eq, Structural)]
pub struct GuiResponse {
    pub hovered: bool,
    pub clicked: bool,
    pub rect: Rect,
}

/// One drawing command appended to the frame's paint list; the host
/// rasterizes them later.
#[derive(Clone, Debug, PartialEq)]
pub enum PaintCmd {
    /// A filled rectangle.
    Rect { rect: Rect, fill_color: Option<Color> },
    /// A line segment of the given width.
    Line { from: Vec2, to: Vec2, color: Color, width: i64 },
    /// A shaped glyph run drawn at `pos`; `color` overrides the style's
    /// default text color when set.
    Text { pos: Vec2, galley: Galley, text_style: TextStyle, color: Option<Color> },
}

/// Everything the host measured this frame that the widget needs:
/// the reserved region and pointer state, the focus answer, the input
/// events, the clock, the blink period, the style's resolved metrics and
/// fill, and the wrapped layout of the buffer as it stood at layout time.
pub struct FrameInput {
    pub interact: InteractInfo,
    pub has_focus: bool,
    pub events: Vec<Event>,
    /// Wall-clock time, in the host's ticks.
    pub time_ticks: u64,
    /// Ticks per caret blink period; the reciprocal of the blink frequency.
    pub blink_period_ticks: u64,
    /// Height of one text line, in screen units.
    pub line_spacing: i64,
    /// Stroke width of the caret.
    pub caret_width: i64,
    /// Background fill resolved by the host's style for this interaction
    /// state.
    pub fill_color: Option<Color>,
    pub galley: Galley,
}

impl FrameInput {
    pub open spec fn wf(self) -> bool {
        &&& self.interact.rect.wf()
        &&& self.galley.wf()
        &&& self.blink_period_ticks > 0
        &&& 0 <= self.line_spacing <= crate::geometry::COORD_MAX
        &&& 0 <= self.caret_width
    }
}

/// Everything one frame of the widget produced: the buffer as mutated by
/// the events, requests to the host, the clipboard capture if any, the paint
/// commands in drawing order, and the response for the caller.
pub struct FrameOutput {
    pub text: String,
    pub request_focus: bool,
    pub cursor_icon: Option<CursorIcon>,
    pub copied_text: Option<String>,
    pub paint: Vec<PaintCmd>,
    pub response: GuiResponse,
}

/// Whether this frame draws the caret: only while focused, and only through
/// the visible two thirds of the blink period.
pub open spec fn caret_shown(frame: FrameInput) -> bool {
    frame.has_focus && caret_visible_spec(frame.time_ticks, frame.blink_period_ticks)
}

/// The caret's line segment for this frame: one line-height tall, of the
/// configured width, in the fixed caret color, at the end of the last
/// wrapped line of this frame's (pre-mutation) layout.
pub open spec fn caret_cmd_spec(frame: FrameInput) -> PaintCmd {
    let pos = caret_position_spec(frame.interact.rect.min, frame.galley);
    (PaintCmd::Line {
        from: pos,
        to: (Vec2 { x: pos.x, y: (pos.y + frame.line_spacing) as i64 }),
        color: Color::white_spec(),
        width: frame.caret_width,
    })
}

/// The frame's paint commands, in drawing order: the background rectangle,
/// the caret when shown, then the glyph run at the region's origin.
pub open spec fn frame_paint_spec(widget: TextEdit, frame: FrameInput) -> Seq<PaintCmd> {
    let background = (PaintCmd::Rect {
        rect: frame.interact.rect,
        fill_color: frame.fill_color,
    });
    let glyphs = (PaintCmd::Text {
        pos: frame.interact.rect.min,
        galley: frame.galley,
        text_style: widget.style_spec(),
        color: widget.color_spec(),
    });
    if caret_shown(frame) {
        seq![background, caret_cmd_spec(frame), glyphs]
    } else {
        seq![background, glyphs]
    }
}

/// An editable text widget, configured fresh each frame over the caller's
/// buffer.
#[derive(Debug)]
pub struct TextEdit {
    text: String,
    id: Option<Id>,
    text_style: TextStyle,
    text_color: Option<Color>,
}

impl TextEdit {
    /// The buffer content this widget was configured with.
    pub closed spec fn text_spec(self) -> Seq<char> {
        self.text@
    }

    /// The explicit identity, when one was set.
    pub closed spec fn id_spec(self) -> Option<Id> {
        self.id
    }

    /// The selected text style.
    pub closed spec fn style_spec(self) -> TextStyle {
        self.text_style
    }

    /// The text color override, when one was set.
    pub closed spec fn color_spec(self) -> Option<Color> {
        self.text_color
    }

    /// A fresh widget over `text`, with no explicit identity, body style and
    /// no color override.
    pub fn new(text: String) -> (w: TextEdit)
        ensures
            w.text_spec() == text@,
            w.id_spec() is None,
            w.style_spec() == TextStyle::Body,
            w.color_spec() is None,
    {
        TextEdit { text, id: None, text_style: TextStyle::Body, text_color: None }
    }

    /// Sets an explicit identity seed, already reduced by the caller to the
    /// key the host's registry uses.
    pub fn id(self, id_source: u64) -> (w: TextEdit)
        ensures
            w.id_spec() == Some(Id(id_source)),
            w.text_spec() == self.text_spec(),
            w.style_spec() == self.style_spec(),
            w.color_spec() == self.color_spec(),
    {
        TextEdit { id: Some(Id::new(id_source)), ..self }
    }

    /// Selects the text style.
    pub fn text_style(self, text_style: TextStyle) -> (w: TextEdit)
        ensures
            w.style_spec() == text_style,
            w.text_spec() == self.text_spec(),
            w.id_spec() == self.id_spec(),
            w.color_spec() == self.color_spec(),
    {
        TextEdit { text_style, ..self }
    }

    /// Overrides the text color.
    pub fn text_color(self, text_color: Color) -> (w: TextEdit)
        ensures
            w.color_spec() == Some(text_color),
            w.text_spec() == self.text_spec(),
            w.id_spec() == self.id_spec(),
            w.style_spec() == self.style_spec(),
    {
        TextEdit { text_color: Some(text_color), ..self }
    }

    /// The identity the widget is tracked under: the explicit one when set,
    /// else the host's positional fallback.
    pub fn effective_id(&self, fallback: Id) -> (id: Id)
        ensures
            id == match self.id_spec() {
                Some(explicit) => explicit,
                None => fallback,
            },
    {
        match &self.id {
            Some(explicit) => *explicit,
            None => fallback,
        }
    }

    /// One frame of the widget: decides the focus request and the cursor
    /// icon from the pointer state, applies the frame's events to the buffer
    /// (only while focused), derives the caret from clock and layout, and
    /// assembles the paint commands. The caret and the glyph run use the
    /// layout the host shaped *before* any mutation of this frame, so a
    /// same-frame edit shows one frame late.
    pub fn ui(self, frame: FrameInput) -> (out: FrameOutput)
        requires
            frame.wf(),
        ensures
            out.request_focus == frame.interact.clicked,
            out.cursor_icon == (if frame.interact.hovered {
                Some(CursorIcon::Text)
            } else {
                None
            }),
            frame.has_focus ==> out.text@ == buffer_after_events(self.text_spec(), frame.events@),
            frame.has_focus ==> out.copied_text.deep_view() == clipboard_after_events(
                self.text_spec(),
                None,
                frame.events@,
            ),
            !frame.has_focus ==> out.text@ == self.text_spec() && out.copied_text is None,
            out.paint@ == frame_paint_spec(self, frame),
            out.response == (GuiResponse {
                hovered: frame.interact.hovered,
                clicked: frame.interact.clicked,
                rect: frame.interact.rect,
            }),
    {
        let TextEdit { mut text, id: _, text_style, text_color } = self;

        let request_focus: bool = frame.interact.clicked;
        let cursor_icon: Option<CursorIcon> = if frame.interact.hovered {
            Some(CursorIcon::Text)
        } else {
            None
        };

        let copied_text: Option<String> = process_events(&mut text, &frame.events, frame.has_focus);

        let mut paint: Vec<PaintCmd> = Vec::new();
        paint.push(PaintCmd::Rect { rect: frame.interact.rect, fill_color: frame.fill_color });

        if frame.has_focus && caret_visible(frame.time_ticks, frame.blink_period_ticks) {
            let pos: Vec2 = caret_position(frame.interact.rect.min, &frame.galley);
            let bottom: Vec2 = Vec2 { x: pos.x, y: pos.y + frame.line_spacing };
            paint.push(PaintCmd::Line {
                from: pos,
                to: bottom,
                color: Color::white(),
                width: frame.caret_width,
            });
        }

        let response = GuiResponse {
            hovered: frame.interact.hovered,
            clicked: frame.interact.clicked,
            rect: frame.interact.rect,
        };
        paint.push(PaintCmd::Text {
            pos: frame.interact.rect.min,
            galley: frame.galley,
            text_style,
            color: text_color,
        });

        proof {
            assert(paint@ =~= frame_paint_spec(self, frame));
        }

        FrameOutput { text, request_focus, cursor_icon, copied_text, paint, response }
    }
}

} // verus!
