use text_edit::caret::{caret_position, caret_visible};
use text_edit::layout::desired_size;
use text_edit::{Color, CursorIcon, Event, FrameInput, Galley, Id, InteractInfo, Key, LineMetrics,
    PaintCmd, Rect, TextEdit, TextStyle, Vec2};

fn rect(x0: i64, y0: i64, x1: i64, y1: i64) -> Rect {
    Rect { min: Vec2 { x: x0, y: y0 }, max: Vec2 { x: x1, y: y1 } }
}

fn empty_galley() -> Galley {
    Galley { lines: Vec::new(), size: Vec2 { x: 0, y: 0 } }
}

fn two_line_galley() -> Galley {
    Galley {
        lines: vec![
            LineMetrics { max_x: 90, y_offset: 0 },
            LineMetrics { max_x: 25, y_offset: 14 },
        ],
        size: Vec2 { x: 90, y: 28 },
    }
}

fn frame(events: Vec<Event>, has_focus: bool, galley: Galley) -> FrameInput {
    FrameInput {
        interact: InteractInfo { rect: rect(5, 7, 105, 27), hovered: false, clicked: false },
        has_focus,
        events,
        time_ticks: 1,
        blink_period_ticks: 3,
        line_spacing: 12,
        caret_width: 2,
        fill_color: Some(Color { r: 20, g: 20, b: 20, a: 255 }),
        galley,
    }
}

#[test]
fn caret_blink_samples_over_one_period() {
    // Sampling time = 0, 1/(3 hz), 2/(3 hz) and 1/hz with a period of 300
    // ticks: hidden through the first third, then shown, then hidden again
    // as the next period begins.
    assert!(!caret_visible(0, 300));
    assert!(caret_visible(100, 300));
    assert!(caret_visible(200, 300));
    assert!(!caret_visible(300, 300));
}

#[test]
fn caret_blink_is_periodic() {
    for t in 0..10u64 {
        assert_eq!(caret_visible(t, 9), caret_visible(t + 9, 9));
        assert_eq!(caret_visible(t, 9), caret_visible(t + 90, 9));
    }
}

#[test]
fn caret_blink_duty_cycle_is_one_third_hidden() {
    let shown = (0..9u64).filter(|&t| caret_visible(t, 9)).count();
    assert_eq!(shown, 6);
    assert!(!caret_visible(0, 9));
    assert!(!caret_visible(2, 9));
    assert!(caret_visible(3, 9));
    assert!(caret_visible(8, 9));
}

#[test]
fn caret_position_uses_last_line() {
    let galley = two_line_galley();
    let pos = caret_position(Vec2 { x: 5, y: 7 }, &galley);
    assert_eq!(pos, Vec2 { x: 5 + 25, y: 7 + 14 });
}

#[test]
fn caret_position_on_empty_layout_is_region_corner() {
    let galley = empty_galley();
    let pos = caret_position(Vec2 { x: 5, y: 7 }, &galley);
    assert_eq!(pos, Vec2 { x: 5, y: 7 });
}

#[test]
fn desired_size_never_collapses_below_one_line() {
    let galley = Galley { lines: Vec::new(), size: Vec2 { x: 50, y: 0 } };
    assert_eq!(desired_size(&galley, 100, 12), Vec2 { x: 100, y: 12 });
}

#[test]
fn desired_size_keeps_layout_extent_when_larger() {
    let galley = two_line_galley();
    assert_eq!(desired_size(&galley, 80, 12), Vec2 { x: 90, y: 28 });
}

#[test]
fn frame_passes_interaction_through() {
    let mut input = frame(Vec::new(), false, empty_galley());
    input.interact.hovered = true;
    input.interact.clicked = true;
    let out = TextEdit::new(String::new()).ui(input);
    assert!(out.request_focus);
    assert_eq!(out.cursor_icon, Some(CursorIcon::Text));
    assert!(out.response.hovered);
    assert!(out.response.clicked);
    assert_eq!(out.response.rect, rect(5, 7, 105, 27));
}

#[test]
fn frame_without_pointer_requests_nothing() {
    let out = TextEdit::new(String::new()).ui(frame(Vec::new(), false, empty_galley()));
    assert!(!out.request_focus);
    assert_eq!(out.cursor_icon, None);
}

#[test]
fn focused_frame_paints_background_caret_then_text() {
    let out = TextEdit::new(String::from("Hi")).ui(frame(Vec::new(), true, two_line_galley()));
    assert_eq!(out.paint.len(), 3);
    match &out.paint[0] {
        PaintCmd::Rect { rect: r, fill_color } => {
            assert_eq!(*r, rect(5, 7, 105, 27));
            assert_eq!(*fill_color, Some(Color { r: 20, g: 20, b: 20, a: 255 }));
        },
        other => panic!("expected background rectangle, got {:?}", other),
    }
    match &out.paint[1] {
        PaintCmd::Line { from, to, color, width } => {
            assert_eq!(*from, Vec2 { x: 30, y: 21 });
            assert_eq!(*to, Vec2 { x: 30, y: 21 + 12 });
            assert_eq!(*color, Color { r: 255, g: 255, b: 255, a: 255 });
            assert_eq!(*width, 2);
        },
        other => panic!("expected caret line, got {:?}", other),
    }
    match &out.paint[2] {
        PaintCmd::Text { pos, galley, text_style, color } => {
            assert_eq!(*pos, Vec2 { x: 5, y: 7 });
            assert_eq!(galley.lines.len(), 2);
            assert_eq!(*text_style, TextStyle::Body);
            assert_eq!(*color, None);
        },
        other => panic!("expected glyph run, got {:?}", other),
    }
}

#[test]
fn unfocused_frame_paints_no_caret() {
    let out = TextEdit::new(String::from("Hi")).ui(frame(Vec::new(), false, two_line_galley()));
    assert_eq!(out.paint.len(), 2);
    assert!(matches!(out.paint[0], PaintCmd::Rect { .. }));
    assert!(matches!(out.paint[1], PaintCmd::Text { .. }));
}

#[test]
fn hidden_blink_phase_paints_no_caret() {
    let mut input = frame(Vec::new(), true, two_line_galley());
    input.time_ticks = 0;
    let out = TextEdit::new(String::from("Hi")).ui(input);
    assert_eq!(out.paint.len(), 2);
}

#[test]
fn focused_frame_applies_events_to_buffer() {
    let events = vec![
        Event::Key { key: Key::Backspace, pressed: true },
        Event::Text(String::from("!")),
    ];
    let out = TextEdit::new(String::from("Hi")).ui(frame(events, true, empty_galley()));
    assert_eq!(out.text, "H!");
}

#[test]
fn unfocused_frame_leaves_buffer_alone() {
    let events = vec![Event::Text(String::from("X"))];
    let out = TextEdit::new(String::new()).ui(frame(events, false, empty_galley()));
    assert_eq!(out.text, "");
    assert!(out.copied_text.is_none());
}

#[test]
fn focused_copy_reaches_frame_output() {
    let out = TextEdit::new(String::from("all of it"))
        .ui(frame(vec![Event::Copy], true, empty_galley()));
    assert_eq!(out.copied_text.as_deref(), Some("all of it"));
    assert_eq!(out.text, "all of it");
}

#[test]
fn caret_uses_layout_from_before_the_mutation() {
    // The host wrapped "Hi there" into two lines before this frame's edit;
    // the caret of this same frame still sits at the end of that pre-edit
    // layout, one frame behind the mutation.
    let events = vec![Event::Text(String::from("xyz"))];
    let out = TextEdit::new(String::from("Hi there")).ui(frame(events, true, two_line_galley()));
    assert_eq!(out.text, "Hi therexyz");
    match &out.paint[1] {
        PaintCmd::Line { from, .. } => {
            assert_eq!(*from, Vec2 { x: 5 + 25, y: 7 + 14 });
        },
        other => panic!("expected caret line, got {:?}", other),
    }
    match &out.paint[2] {
        PaintCmd::Text { galley, .. } => {
            assert_eq!(galley.lines.len(), 2);
            assert_eq!(galley.lines[1], LineMetrics { max_x: 25, y_offset: 14 });
        },
        other => panic!("expected glyph run, got {:?}", other),
    }
}

#[test]
fn builder_sets_style_color_and_identity() {
    let widget = TextEdit::new(String::from("t"))
        .id(7)
        .text_style(TextStyle::Monospace)
        .text_color(Color { r: 1, g: 2, b: 3, a: 4 });
    assert_eq!(widget.effective_id(Id(99)), Id(7));
    let out = widget.ui(frame(Vec::new(), false, empty_galley()));
    match &out.paint[1] {
        PaintCmd::Text { text_style, color, .. } => {
            assert_eq!(*text_style, TextStyle::Monospace);
            assert_eq!(*color, Some(Color { r: 1, g: 2, b: 3, a: 4 }));
        },
        other => panic!("expected glyph run, got {:?}", other),
    }
}

#[test]
fn builder_defaults_use_positional_identity_and_body_style() {
    let widget = TextEdit::new(String::from("t"));
    assert_eq!(widget.effective_id(Id(99)), Id(99));
    let out = widget.ui(frame(Vec::new(), false, empty_galley()));
    match &out.paint[1] {
        PaintCmd::Text { text_style, color, .. } => {
            assert_eq!(*text_style, TextStyle::Body);
            assert_eq!(*color, None);
        },
        other => panic!("expected glyph run, got {:?}", other),
    }
}
