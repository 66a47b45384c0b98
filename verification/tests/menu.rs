use arcaders::phi::data::{GeometryError, Rectangle, UNIT};
use arcaders::phi::events::{Events, KeyState};
use arcaders::phi::gfx::{Color, DrawCommand, Renderer, Sprite};
use arcaders::phi::{Phi, View, ViewAction, ViewError};
use arcaders::views::game::GameAssets;
use arcaders::views::main_menu::{Action, MainMenuView, MenuCommand, MAX_ACTIONS};
use arcaders::views::shared::BgSet;
use arcaders::views::ActiveView;

fn assets() -> GameAssets {
    let ship = Sprite::new(0, 129, 117);
    let asteroid = Sprite::new(1, 2016, 672);
    let layer = Sprite::new(2, 800, 600);
    GameAssets {
        spaceship: ship,
        asteroid,
        background: BgSet { back: layer, middle: layer, front: layer },
    }
}

fn action(i: usize, func: MenuCommand) -> Action {
    Action::new("row", func, Sprite::new(10 + i, 100, 30), Sprite::new(50 + i, 120, 36))
}

fn menu_of(count: usize) -> MainMenuView {
    let actions = (0..count).map(|i| action(i, MenuCommand::Quit)).collect();
    MainMenuView::with_actions(actions, assets()).expect("a menu of that many rows")
}

fn context() -> Phi {
    Phi::new(Events::new(), Renderer::new(800, 600))
}

fn press(phi: &mut Phi, keys: KeyState) {
    phi.events.pump(KeyState::new());
    phi.events.pump(keys);
}

fn up() -> KeyState {
    KeyState { key_up: true, ..KeyState::new() }
}

fn down() -> KeyState {
    KeyState { key_down: true, ..KeyState::new() }
}

fn space() -> KeyState {
    KeyState { key_space: true, ..KeyState::new() }
}

#[test]
fn the_menu_of_the_game_has_two_rows() {
    let ni = Sprite::new(1, 100, 30);
    let nh = Sprite::new(2, 120, 36);
    let qi = Sprite::new(3, 50, 30);
    let qh = Sprite::new(4, 60, 36);
    let menu = MainMenuView::new(ni, nh, qi, qh, assets());
    assert_eq!(menu.selected(), 0);
    let rows = menu.actions();
    assert_eq!(rows.len(), 2);
    assert_eq!(
        (rows[0].label, rows[0].func, rows[0].idle_sprite, rows[0].hover_sprite),
        ("New Game", MenuCommand::NewGame, ni, nh)
    );
    assert_eq!(
        (rows[1].label, rows[1].func, rows[1].idle_sprite, rows[1].hover_sprite),
        ("Quit", MenuCommand::Quit, qi, qh)
    );
}

#[test]
fn a_menu_needs_a_row_and_not_too_many() {
    assert!(MainMenuView::with_actions(vec![], assets()).is_none());
    assert!(MainMenuView::with_actions(
        (0..MAX_ACTIONS).map(|i| action(i, MenuCommand::Quit)).collect(),
        assets()
    )
    .is_some());
    assert!(MainMenuView::with_actions(
        (0..MAX_ACTIONS + 1).map(|i| action(i, MenuCommand::Quit)).collect(),
        assets()
    )
    .is_none());
}

#[test]
fn up_from_the_first_row_selects_the_last() {
    for count in [1, 2, 3, 7, MAX_ACTIONS] {
        let mut menu = menu_of(count);
        let mut phi = context();
        press(&mut phi, up());
        assert!(matches!(menu.render(&mut phi, 16_000), Ok(ViewAction::Continue)));
        assert_eq!(menu.selected(), count - 1);
    }
}

#[test]
fn down_from_the_last_row_selects_the_first() {
    for count in [1, 2, 3, 7] {
        let mut menu = menu_of(count);
        let mut phi = context();
        for expected in 1..count {
            press(&mut phi, down());
            menu.render(&mut phi, 16_000).unwrap();
            assert_eq!(menu.selected(), expected);
        }
        press(&mut phi, down());
        menu.render(&mut phi, 16_000).unwrap();
        assert_eq!(menu.selected(), 0);
    }
}

#[test]
fn the_menu_takes_a_frame_of_any_length() {
    for elapsed in [i64::MIN, -1, 0, i64::MAX] {
        let mut menu = menu_of(4);
        let mut phi = context();
        press(&mut phi, up());
        assert!(matches!(menu.render(&mut phi, elapsed), Ok(ViewAction::Continue)));
        assert_eq!(menu.selected(), 3);
        press(&mut phi, down());
        assert!(matches!(menu.render(&mut phi, elapsed), Ok(ViewAction::Continue)));
        assert_eq!(menu.selected(), 0);
    }
}

#[test]
fn up_and_down_move_by_one_row() {
    let mut menu = menu_of(5);
    let mut phi = context();
    for keys in [down(), down(), down(), up()] {
        press(&mut phi, keys);
        menu.render(&mut phi, 16_000).unwrap();
    }
    assert_eq!(menu.selected(), 2);
}

#[test]
fn a_held_key_moves_the_selection_once() {
    let mut menu = menu_of(5);
    let mut phi = context();
    press(&mut phi, down());
    menu.render(&mut phi, 16_000).unwrap();
    phi.events.pump(down());
    menu.render(&mut phi, 16_000).unwrap();
    phi.events.pump(down());
    menu.render(&mut phi, 16_000).unwrap();
    assert_eq!(menu.selected(), 1);
}

#[test]
fn up_and_down_in_one_frame_cancel() {
    for start in 0..3 {
        let mut menu = menu_of(3);
        let mut phi = context();
        for _ in 0..start {
            press(&mut phi, down());
            menu.render(&mut phi, 16_000).unwrap();
        }
        press(&mut phi, KeyState { key_up: true, key_down: true, ..KeyState::new() });
        menu.render(&mut phi, 16_000).unwrap();
        assert_eq!(menu.selected(), start);
    }
}

#[test]
fn the_rows_are_centred_and_stacked() {
    let mut menu = menu_of(3);
    let mut phi = context();
    press(&mut phi, down());
    assert!(matches!(menu.render(&mut phi, 16_000), Ok(ViewAction::Continue)));
    let row = |texture: usize, w: i64, h: i64, i: i64| DrawCommand::Copy {
        texture,
        src: Rectangle { x: 0, y: 0, w: w * UNIT, h: h * UNIT },
        dest: Rectangle { x: 350 * UNIT, y: (32 + 48 * i) * UNIT, w: 100 * UNIT, h: 30 * UNIT },
    };
    assert_eq!(
        phi.renderer.take_commands(),
        vec![
            DrawCommand::SetDrawColor(Color { r: 0, g: 0, b: 0 }),
            DrawCommand::Clear,
            row(10, 100, 30, 0),
            row(51, 120, 36, 1),
            row(12, 100, 30, 2),
        ]
    );
}

#[test]
fn a_row_wider_than_the_output_hangs_over_both_sides() {
    let wide = Action::new(
        "wide",
        MenuCommand::Quit,
        Sprite::new(1, 1001, 30),
        Sprite::new(2, 1001, 30),
    );
    let mut menu = MainMenuView::with_actions(vec![wide], assets()).unwrap();
    let mut phi = Phi::new(Events::new(), Renderer::new(800, 600));
    menu.render(&mut phi, 16_000).unwrap();
    let commands = phi.renderer.take_commands();
    assert_eq!(
        commands[2],
        DrawCommand::Copy {
            texture: 2,
            src: Rectangle { x: 0, y: 0, w: 1001 * UNIT, h: 30 * UNIT },
            dest: Rectangle { x: -100_500_000, y: 32 * UNIT, w: 1001 * UNIT, h: 30 * UNIT },
        }
    );
}

#[test]
fn a_request_to_quit_leaves_the_menu() {
    let mut menu = menu_of(3);
    let mut phi = context();
    phi.events.pump(KeyState { quit: true, key_down: true, ..KeyState::new() });
    assert!(matches!(menu.render(&mut phi, 16_000), Ok(ViewAction::Quit)));
    assert_eq!(menu.selected(), 0);
    assert!(phi.renderer.take_commands().is_empty());
    phi.events.pump(KeyState { key_escape: true, ..KeyState::new() });
    assert!(matches!(menu.render(&mut phi, 16_000), Ok(ViewAction::Quit)));
}

#[test]
fn space_on_quit_quits() {
    let ni = Sprite::new(1, 100, 30);
    let mut menu = MainMenuView::new(ni, ni, ni, ni, assets());
    let mut phi = context();
    press(&mut phi, down());
    menu.render(&mut phi, 16_000).unwrap();
    phi.renderer.take_commands();
    press(&mut phi, space());
    assert!(matches!(menu.render(&mut phi, 16_000), Ok(ViewAction::Quit)));
    assert!(phi.renderer.take_commands().is_empty());
}

#[test]
fn space_on_new_game_starts_a_game() {
    let ni = Sprite::new(1, 100, 30);
    let mut menu = MainMenuView::new(ni, ni, ni, ni, assets());
    let mut phi = context();
    press(&mut phi, space());
    match menu.render(&mut phi, 16_000) {
        Ok(ViewAction::ChangeView(ActiveView::Game(game))) => {
            assert_eq!(
                game.player().rect(),
                Rectangle { x: 64 * UNIT, y: 64 * UNIT, w: 43 * UNIT, h: 39 * UNIT }
            );
            assert!(game.bullets().is_empty());
            assert_eq!(game.asteroid().rect().x, 800 * UNIT);
        }
        _ => panic!("a new game was asked for"),
    }
    assert_eq!(menu.selected(), 0);
    assert!(phi.renderer.take_commands().is_empty());
}

#[test]
fn space_activates_before_the_selection_moves() {
    let ni = Sprite::new(1, 100, 30);
    let mut menu = MainMenuView::new(ni, ni, ni, ni, assets());
    let mut phi = context();
    press(&mut phi, KeyState { key_space: true, key_down: true, ..KeyState::new() });
    assert!(matches!(
        menu.render(&mut phi, 16_000),
        Ok(ViewAction::ChangeView(ActiveView::Game(_)))
    ));
    assert_eq!(menu.selected(), 0);
}

#[test]
fn a_new_game_from_sheets_that_are_too_small_fails() {
    let ni = Sprite::new(1, 100, 30);
    let small = GameAssets { spaceship: Sprite::new(0, 128, 117), ..assets() };
    let mut menu = MainMenuView::new(ni, ni, ni, ni, small);
    let mut phi = context();
    press(&mut phi, space());
    assert!(matches!(
        menu.render(&mut phi, 16_000),
        Err(ViewError::Geometry(GeometryError::RegionOutOfBounds))
    ));
}
