use rustlab_presentations::config::Config;
use rustlab_presentations::nav::{NavAction, NavEvent, NavSession};
use rustlab_presentations::theme::ThemePalette;

fn test_config(width: usize) -> Config {
    let palette = ThemePalette::new("<A>".to_string(), "<D>".to_string(), "<G>".to_string());
    Config::new(
        width,
        palette,
        None,
        "Demo".to_string(),
        "TEST".to_string(),
        true,
    )
}

#[test]
fn left_at_first_slide_is_a_no_op() {
    let mut cfg = test_config(120);
    let mut session = NavSession::new(3);
    assert_eq!(session.current_index(), 0);
    let action = session.handle(&mut cfg, NavEvent::Left);
    assert_eq!(action, NavAction::Stay);
    assert_eq!(session.current_index(), 0);
}

#[test]
fn forward_past_last_slide_exits() {
    let mut cfg = test_config(120);
    let mut session = NavSession::new(2);
    assert_eq!(session.handle(&mut cfg, NavEvent::Right), NavAction::Redraw(true));
    assert_eq!(session.current_index(), 1);
    assert_eq!(session.handle(&mut cfg, NavEvent::Right), NavAction::Exit);
    assert_eq!(session.current_index(), 1);
    assert_eq!(session.handle(&mut cfg, NavEvent::Enter), NavAction::Exit);
    assert_eq!(session.current_index(), 1);
}

#[test]
fn stepping_back_and_forth() {
    let mut cfg = test_config(120);
    let mut session = NavSession::new(3);
    assert_eq!(session.handle(&mut cfg, NavEvent::Enter), NavAction::Redraw(true));
    assert_eq!(session.handle(&mut cfg, NavEvent::Left), NavAction::Redraw(true));
    assert_eq!(session.current_index(), 0);
}

#[test]
fn quit_keys_exit_from_anywhere() {
    let mut cfg = test_config(120);
    let mut session = NavSession::new(5);
    assert_eq!(session.handle(&mut cfg, NavEvent::Char('q')), NavAction::Exit);
    assert_eq!(session.handle(&mut cfg, NavEvent::Char('Q')), NavAction::Exit);
    assert_eq!(session.handle(&mut cfg, NavEvent::Escape), NavAction::Exit);
    assert_eq!(session.current_index(), 0);
}

#[test]
fn unrecognised_input_is_ignored() {
    let mut cfg = test_config(120);
    let mut session = NavSession::new(5);
    assert_eq!(session.handle(&mut cfg, NavEvent::Char('x')), NavAction::Stay);
    assert_eq!(session.handle(&mut cfg, NavEvent::Other), NavAction::Stay);
    assert_eq!(session.current_index(), 0);
    assert_eq!(cfg.frame_width(), 120);
}

#[test]
fn widen_and_narrow_redraw_instantly() {
    let mut cfg = test_config(120);
    let mut session = NavSession::new(5);
    assert_eq!(session.handle(&mut cfg, NavEvent::Char('+')), NavAction::Redraw(false));
    assert_eq!(cfg.frame_width(), 122);
    assert_eq!(session.handle(&mut cfg, NavEvent::Char('=')), NavAction::Redraw(false));
    assert_eq!(cfg.frame_width(), 124);
    assert_eq!(session.handle(&mut cfg, NavEvent::Char('-')), NavAction::Redraw(false));
    assert_eq!(session.handle(&mut cfg, NavEvent::Char('_')), NavAction::Redraw(false));
    assert_eq!(cfg.frame_width(), 120);
}

#[test]
fn narrowing_clamps_at_minimum_width() {
    let mut cfg = test_config(40);
    let mut session = NavSession::new(5);
    assert_eq!(session.handle(&mut cfg, NavEvent::Char('-')), NavAction::Stay);
    assert_eq!(cfg.frame_width(), 40);
    let mut cfg = test_config(41);
    assert_eq!(session.handle(&mut cfg, NavEvent::Char('-')), NavAction::Redraw(false));
    assert_eq!(cfg.frame_width(), 40);
}

#[test]
fn requested_width_below_minimum_is_clamped() {
    let cfg = test_config(10);
    assert_eq!(cfg.frame_width(), 40);
}

#[test]
fn resize_redraws_without_animation() {
    let mut cfg = test_config(120);
    let mut session = NavSession::new(5);
    assert_eq!(session.handle(&mut cfg, NavEvent::Resize), NavAction::Redraw(false));
    assert_eq!(cfg.frame_width(), 120);
    assert_eq!(session.current_index(), 0);
}

#[test]
fn end_to_end_navigation() {
    // Five classified slides: four steps forward reach the separator at
    // index 4, the fifth ends the session.
    let lines: Vec<String> = vec![
        "# Title".to_string(),
        "- point one".to_string(),
        "".to_string(),
        ">quote".to_string(),
        "---".to_string(),
    ];
    let segments = rustlab_presentations::segment::parse_segments(&lines);
    let mut cfg = test_config(120);
    let mut session = NavSession::new(segments.len());
    for _ in 0..4 {
        assert_eq!(session.handle(&mut cfg, NavEvent::Right), NavAction::Redraw(true));
    }
    assert_eq!(session.current_index(), 4);
    assert!(matches!(
        segments[session.current_index()].kind(),
        rustlab_presentations::segment::SegmentKind::Separator
    ));
    assert_eq!(session.handle(&mut cfg, NavEvent::Right), NavAction::Exit);
}
