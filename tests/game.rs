use rocket::{App, ButtonKind, Color, ColoredRect, DrawOp, GameEvent, Reaction, Rect, PX, SECOND};

fn bar(x: i64, y: i64, w: i64, h: i64, color: Color) -> ColoredRect {
    ColoredRect::new()
        .width_height((w * PX) as u64, (h * PX) as u64)
        .color(color)
        .position(x * PX, y * PX)
}

fn world(squares: Vec<ColoredRect>, player: ColoredRect) -> App {
    App { squares, player, game_over: false, bg_position: [-720 * PX, 0] }
}

fn cycle3(c: Color) -> Color {
    let mut r = ColoredRect::new().color(c);
    r.next_color();
    r.next_color();
    r.next_color();
    r.color
}

#[test]
fn color_cycle_closes() {
    for c in [Color::Red, Color::Green, Color::Blue] {
        assert_eq!(cycle3(c), c);
    }
    let mut r = ColoredRect::new().color(Color::Red);
    r.next_color();
    assert_eq!(r.color, Color::Green);
    r.next_color();
    assert_eq!(r.color, Color::Blue);
    r.next_color();
    assert_eq!(r.color, Color::Red);
}

#[test]
fn color_fall_through() {
    for c in [Color::Grey, Color::Black, Color::Clear] {
        let mut r = ColoredRect::new().color(c);
        r.next_color();
        assert_eq!(r.color, Color::Clear);
    }
}

#[test]
fn builders_set_fields() {
    let r = ColoredRect::new();
    assert_eq!(r.color, Color::Green);
    assert_eq!(r.rectangle, Rect { x: 0, y: 0, w: 0, h: 0 });
    let r = r.width_height(3, 4).position(-1, 2).color(Color::Grey);
    assert_eq!(r.rectangle, Rect { x: -1, y: 2, w: 3, h: 4 });
    assert_eq!(r.color, Color::Grey);
}

#[test]
fn new_game_start() {
    let app = App::new();
    assert!(!app.game_over);
    assert_eq!(app.bg_position, [-720 * PX, 0]);
    assert_eq!(app.player, bar(0, 645, 25, 25, Color::Green));
    let want = vec![
        bar(0, -200, 640, 50, Color::Grey),
        bar(700, -200, 640, 50, Color::Grey),
        bar(0, 0, 1280, 25, Color::Red),
        bar(0, 100, 1280, 25, Color::Green),
        bar(0, 200, 1280, 25, Color::Blue),
        bar(0, 300, 1280, 25, Color::Red),
    ];
    assert_eq!(app.squares, want);
}

#[test]
fn match_pass_through() {
    let mut app = world(vec![bar(0, 700, 1280, 25, Color::Green)], bar(100, 705, 25, 25, Color::Green));
    app.update(0);
    assert!(!app.game_over);
    app.update(300_000);
    assert_eq!(app.squares.len(), 1);
    assert_eq!(app.squares[0].rectangle.y, 730 * PX);
    assert!(!app.game_over);
}

#[test]
fn mismatch_hit() {
    let mut app = world(vec![bar(0, 100, 1280, 25, Color::Red)], bar(50, 110, 25, 25, Color::Green));
    app.update(0);
    assert!(app.game_over);
}

#[test]
fn cull_off_field_bar() {
    let mut app = world(vec![bar(0, 721, 1280, 25, Color::Grey)], bar(0, 645, 25, 25, Color::Green));
    app.update(0);
    assert!(app.squares.is_empty());
}

#[test]
fn cull_takes_from_tail() {
    let first = bar(0, 800, 1280, 25, Color::Red);
    let second = bar(0, 100, 1280, 25, Color::Blue);
    let mut app = world(vec![first, second], bar(0, 645, 25, 25, Color::Green));
    app.update(0);
    assert_eq!(app.squares, vec![first]);
}

#[test]
fn bar_at_field_bottom_stays() {
    let mut app = world(vec![bar(0, 720, 1280, 25, Color::Grey)], bar(0, 645, 25, 25, Color::Green));
    app.update(0);
    assert_eq!(app.squares.len(), 1);
    app.update(1);
    assert_eq!(app.squares[0].rectangle.y, 720 * PX + 100);
    app.update(0);
    assert!(app.squares.is_empty());
}

#[test]
fn background_wrap() {
    let mut app = world(vec![], bar(0, 645, 25, 25, Color::Green));
    app.bg_position = [715 * PX, 0];
    app.update(100_000);
    assert_eq!(app.bg_position, [-720 * PX, 10 * PX]);
}

#[test]
fn background_exactly_at_wrap_stays() {
    let mut app = world(vec![], bar(0, 645, 25, 25, Color::Green));
    app.bg_position = [710 * PX, -720 * PX];
    app.update(100_000);
    assert_eq!(app.bg_position, [720 * PX, -710 * PX]);
}

#[test]
fn background_stays_bounded() {
    let mut app = App::new();
    for _ in 0..500 {
        app.game_over = false;
        app.update(SECOND);
        for &b in app.bg_position.iter() {
            assert!(b >= -720 * PX && b <= 820 * PX);
        }
    }
}

#[test]
fn bars_descend_by_speed() {
    let mut app = App::new();
    let before = app.squares.clone();
    app.update(16_667);
    assert_eq!(app.squares.len(), before.len());
    for (a, b) in app.squares.iter().zip(before.iter()) {
        assert_eq!(a.rectangle.y, b.rectangle.y + 1_666_700);
        assert_eq!(a.rectangle.x, b.rectangle.x);
        assert_eq!(a.color, b.color);
    }
}

#[test]
fn bar_count_never_grows() {
    let mut app = App::new();
    let mut len = app.squares.len();
    for _ in 0..200 {
        app.game_over = false;
        app.update(100_000);
        assert!(app.squares.len() <= len);
        len = app.squares.len();
    }
    assert!(app.squares.is_empty());
}

#[test]
fn game_over_is_sticky() {
    let mut app = world(vec![bar(0, 100, 1280, 25, Color::Red)], bar(50, 110, 25, 25, Color::Green));
    app.update(0);
    assert!(app.game_over);
    app.squares.clear();
    app.update(SECOND);
    assert!(app.game_over);
}

#[test]
fn handle_stops_when_over() {
    let mut app = world(vec![bar(0, 100, 1280, 25, Color::Red)], bar(50, 110, 25, 25, Color::Green));
    app.game_over = true;
    for ev in [
        GameEvent::Render,
        GameEvent::Update { dt: SECOND },
        GameEvent::PointerMove { x: 5, y: 6 },
        GameEvent::Release { button: ButtonKind::Mouse },
    ] {
        assert!(matches!(app.handle(ev), Reaction::Stop));
    }
    assert_eq!(app.squares, vec![bar(0, 100, 1280, 25, Color::Red)]);
    assert_eq!(app.player, bar(50, 110, 25, 25, Color::Green));
    assert_eq!(app.bg_position, [-720 * PX, 0]);
}

#[test]
fn matching_color_overlap_passes() {
    let mut app = world(
        vec![bar(0, 100, 1280, 25, Color::Blue), bar(0, 100, 1280, 25, Color::Blue)],
        bar(50, 110, 25, 25, Color::Blue),
    );
    app.update(0);
    assert!(!app.game_over);
}

#[test]
fn level_edge_no_collision() {
    let mut app = world(vec![bar(0, 100, 1280, 25, Color::Red)], bar(50, 100, 25, 25, Color::Green));
    app.update(0);
    assert!(!app.game_over);
    let mut app = world(vec![bar(0, 100, 1280, 25, Color::Red)], bar(0, 110, 25, 25, Color::Green));
    app.update(0);
    assert!(!app.game_over);
    let mut app = world(vec![bar(0, 100, 1280, 25, Color::Red)], bar(50, 125, 25, 25, Color::Green));
    app.update(0);
    assert!(!app.game_over);
}

#[test]
fn mouse_release_cycles_color() {
    let mut app = App::new();
    assert!(matches!(app.handle(GameEvent::Release { button: ButtonKind::Mouse }), Reaction::Proceed));
    assert_eq!(app.player.color, Color::Blue);
    app.handle(GameEvent::Release { button: ButtonKind::Mouse });
    app.handle(GameEvent::Release { button: ButtonKind::Mouse });
    assert_eq!(app.player.color, Color::Green);
}

#[test]
fn other_releases_change_nothing() {
    let mut app = App::new();
    app.handle(GameEvent::Release { button: ButtonKind::Keyboard });
    app.handle(GameEvent::Release { button: ButtonKind::Controller });
    assert_eq!(app.player, bar(0, 645, 25, 25, Color::Green));
}

#[test]
fn pointer_move_sets_x_only() {
    let mut app = App::new();
    app.player = app.player.position(100 * PX, 645 * PX);
    app.handle(GameEvent::PointerMove { x: 400 * PX, y: 50 * PX });
    assert_eq!(app.player.rectangle, Rect { x: 400 * PX, y: 645 * PX, w: 25 * PX as u64, h: 25 * PX as u64 });
}

#[test]
fn update_event_advances() {
    let mut app = App::new();
    assert!(matches!(app.handle(GameEvent::Update { dt: 100_000 }), Reaction::Proceed));
    assert_eq!(app.bg_position, [-710 * PX, 10 * PX]);
    assert_eq!(app.squares[2].rectangle.y, 10 * PX);
}

#[test]
fn render_order() {
    let app = App::new();
    let ops = match App::new().handle(GameEvent::Render) {
        Reaction::Draw { ops } => ops,
        _ => panic!("expected a frame"),
    };
    assert_eq!(ops, app.render());
    assert_eq!(ops.len(), 10);
    assert_eq!(ops[0], DrawOp::Clear { color: Color::Black });
    assert_eq!(ops[1], DrawOp::Background { tile: 0, offset: -720 * PX });
    assert_eq!(ops[2], DrawOp::Background { tile: 1, offset: 0 });
    assert_eq!(ops[3], DrawOp::Fill { shape: app.player });
    for (i, s) in app.squares.iter().enumerate() {
        assert_eq!(ops[4 + i], DrawOp::Fill { shape: *s });
    }
}

#[test]
fn fits_detects_overflow() {
    let mut app = App::new();
    assert!(app.fits(u32::MAX));
    app.squares[3].rectangle.y = i64::MAX - 100;
    assert!(app.fits(1));
    assert!(!app.fits(2));
    let mut app = App::new();
    app.bg_position[1] = i64::MAX;
    assert!(!app.fits(1));
    assert!(app.fits(0));
}
