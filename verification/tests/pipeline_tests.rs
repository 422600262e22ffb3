use invaders_core::frame::fill_starry_background;
use invaders_core::frame::Frame;
use invaders_core::pipeline::RenderPipeline;

#[test]
fn identical_frames_in_sequence_write_nothing_the_second_time() {
    let (mut pipeline, _startup) = RenderPipeline::start();

    let mut frame = Frame::new();
    frame.set(4, 4, 'M');
    let first = pipeline.consume(frame);
    assert!(!first.is_empty());

    let mut same = Frame::new();
    same.set(4, 4, 'M');
    let second = pipeline.consume(same);
    assert!(second.is_empty());
}

#[test]
fn baseline_advances_with_each_frame() {
    let (mut pipeline, _startup) = RenderPipeline::start();

    let mut a = Frame::new();
    a.set(0, 0, 'M');
    pipeline.consume(a);

    let mut b = Frame::new();
    b.set(0, 0, 'M');
    b.set(1, 0, 'W');
    let ops = pipeline.consume(b);
    // only the newly changed cell is painted against the retained baseline
    let moves = ops
        .iter()
        .filter(|op| matches!(op, invaders_core::render::DrawOp::MoveTo(_, _)))
        .count();
    assert_eq!(moves, 1);
}

#[test]
fn starfield_is_reproducible_for_equal_ticks() {
    let mut a = Frame::new();
    let mut b = Frame::new();
    fill_starry_background(&mut a, 42);
    fill_starry_background(&mut b, 42);
    for x in 0..40 {
        for y in 0..20 {
            assert_eq!(a.get(x, y), b.get(x, y));
        }
    }

    let (mut pipeline, _startup) = RenderPipeline::start();
    pipeline.consume(a);
    let second = pipeline.consume(b);
    assert!(second.is_empty());
}

#[test]
fn write_text_clips_at_the_edges() {
    let mut f = Frame::new();
    f.write_text(38, 5, "HELLO");
    assert_eq!(f.get(38, 5), 'H');
    assert_eq!(f.get(39, 5), 'E');

    let mut g = Frame::new();
    g.write_text(0, 25, "HELLO");
    for x in 0..40 {
        for y in 0..20 {
            assert_eq!(g.get(x, y), ' ');
        }
    }
}

#[test]
fn later_draws_overwrite_earlier_ones() {
    let mut f = Frame::new();
    f.write_text(3, 2, "AB");
    f.write_text(3, 2, "C");
    assert_eq!(f.get(3, 2), 'C');
    assert_eq!(f.get(4, 2), 'B');
}

#[test]
fn timer_counts_down_to_a_single_finish() {
    let mut timer = invaders_core::timer::Timer::new(500);
    timer.tick(300);
    assert!(!timer.is_finished());
    assert!(!timer.has_just_finished());
    timer.tick(300);
    assert!(timer.is_finished());
    assert!(timer.has_just_finished());
    timer.tick(300);
    assert!(timer.is_finished());
    assert!(!timer.has_just_finished());
    timer.reset();
    assert!(!timer.is_finished());
    assert_eq!(timer.remaining_ms, 500);
}

#[test]
fn menu_overlay_places_the_title() {
    let mut f = Frame::new();
    invaders_core::screens::draw_menu(&mut f);
    assert_eq!(f.get(8, 8), 'I');
    assert_eq!(f.get(15, 8), 'S');
    assert_eq!(f.get(4, 10), '+');
    assert_eq!(f.get(27, 10), '+');
    assert_eq!(f.get(0, 0), ' ');
}

#[test]
fn hud_shows_scores_and_invader_count() {
    let mut f = Frame::new();
    invaders_core::screens::draw_hud(&mut f, 120, 300, 5);
    let row: String = (0..40).map(|x| f.get(x, 0)).collect();
    assert!(row.starts_with(" Score: 120  High: 300"));
    assert_eq!(&row[26..38], "Invaders: 05");
}

#[test]
fn end_screen_announces_the_outcome() {
    let mut f = Frame::new();
    invaders_core::screens::draw_end(&mut f, true);
    let msg: String = (10..18).map(|x| f.get(x, 8)).collect();
    assert_eq!(msg, "YOU WIN!");

    let mut g = Frame::new();
    invaders_core::screens::draw_end(&mut g, false);
    let msg: String = (10..19).map(|x| g.get(x, 8)).collect();
    assert_eq!(msg, "GAME OVER");
}

#[test]
fn starfield_uses_only_decorative_glyphs() {
    let mut f = Frame::new();
    fill_starry_background(&mut f, 7);
    let mut stars = 0;
    for x in 0..40 {
        for y in 0..20 {
            let c = f.get(x, y);
            assert!(c == '.' || c == '\'' || c == ' ');
            if c != ' ' {
                stars += 1;
            }
        }
    }
    assert!(stars > 0);
}
