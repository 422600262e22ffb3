use invaders_core::frame::Frame;
use invaders_core::render::render;
use invaders_core::render::Color;
use invaders_core::render::DrawOp;
use invaders_core::render::color_for_cell;

#[test]
fn render_writes_differences() {
    let last = Frame::new();
    let mut curr = Frame::new();
    curr.set(0, 0, 'X');

    let output = render(&last, &curr, true);
    assert!(
        output.iter().any(|op| matches!(op, DrawOp::Print('X'))),
        "render output missing expected glyph: {output:?}"
    );
}

#[test]
fn render_no_changes_no_output() {
    let frame = Frame::new();
    let output = render(&frame, &frame, false);
    assert!(output.is_empty(), "render without changes should not write");
}

#[test]
fn render_paints_exactly_the_changed_cells() {
    let last = Frame::new();
    let mut curr = Frame::new();
    curr.set(3, 4, 'X');
    curr.set(3, 5, 'X');
    curr.set(20, 0, 'M');

    let ops = render(&last, &curr, false);
    let moves: Vec<(u16, u16)> = ops
        .iter()
        .filter_map(|op| match op {
            DrawOp::MoveTo(x, y) => Some((*x, *y)),
            _ => None,
        })
        .collect();
    assert_eq!(moves, vec![(3, 4), (3, 5), (20, 0)]);
    let prints = ops
        .iter()
        .filter(|op| matches!(op, DrawOp::Print(_)))
        .count();
    assert_eq!(prints, 3);
}

#[test]
fn render_switches_color_only_when_class_changes() {
    let last = Frame::new();
    let mut curr = Frame::new();
    // two red projectile glyphs in a row, then one green one
    curr.set(0, 0, '|');
    curr.set(0, 1, '!');
    curr.set(0, 2, 'M');

    let ops = render(&last, &curr, false);
    let switches: Vec<Color> = ops
        .iter()
        .filter_map(|op| match op {
            DrawOp::SetForeground(c) => Some(*c),
            _ => None,
        })
        .collect();
    assert_eq!(switches, vec![Color::Red, Color::Green]);
}

#[test]
fn glyph_color_classes() {
    assert_eq!(color_for_cell('M'), Color::Green);
    assert_eq!(color_for_cell('W'), Color::Green);
    assert_eq!(color_for_cell('|'), Color::Red);
    assert_eq!(color_for_cell('*'), Color::Red);
    assert_eq!(color_for_cell('🪃'), Color::Cyan);
    assert_eq!(color_for_cell('X'), Color::Yellow);
    assert_eq!(color_for_cell('.'), Color::DarkGrey);
    assert_eq!(color_for_cell('\''), Color::DarkGrey);
    assert_eq!(color_for_cell('['), Color::Grey);
    assert_eq!(color_for_cell('Z'), Color::Yellow);
    assert_eq!(color_for_cell('7'), Color::Yellow);
    assert_eq!(color_for_cell('~'), Color::Grey);
}

#[test]
fn forced_render_clears_and_resets() {
    let frame = Frame::new();
    let ops = render(&frame, &frame, true);
    assert_eq!(ops[0], DrawOp::SetBackground(Color::Green));
    assert_eq!(ops[1], DrawOp::ClearAll);
    assert_eq!(ops[2], DrawOp::SetBackground(Color::Black));
    assert_eq!(*ops.last().unwrap(), DrawOp::ResetColor);
    let prints = ops
        .iter()
        .filter(|op| matches!(op, DrawOp::Print(_)))
        .count();
    assert_eq!(prints, 800);
}

#[test]
fn encoded_ops_match_the_ansi_sequences() {
    let ops = vec![
        DrawOp::ClearAll,
        DrawOp::MoveTo(3, 4),
        DrawOp::Print('X'),
        DrawOp::Print('🪃'),
        DrawOp::ResetColor,
    ];
    let bytes = invaders_core::ansi::encode_ops(&ops);
    let mut expected = Vec::new();
    expected.extend_from_slice(b"\x1b[2J");
    expected.extend_from_slice(b"\x1b[5;4H");
    expected.extend_from_slice("X".as_bytes());
    expected.extend_from_slice("🪃".as_bytes());
    expected.extend_from_slice(b"\x1b[0m");
    assert_eq!(bytes, expected);
}

#[test]
fn unchanged_frame_renders_to_zero_bytes() {
    let frame = Frame::new();
    let bytes = invaders_core::ansi::render_bytes(&frame, &frame, false);
    assert!(bytes.is_empty(), "render without changes should not write");

    let mut curr = Frame::new();
    curr.set(0, 0, 'X');
    let bytes = invaders_core::ansi::render_bytes(&frame, &curr, false);
    assert!(bytes.windows(1).any(|w| w == b"X"));
}
