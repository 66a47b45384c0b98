use arcaders::phi::data::{GeometryError, Rectangle, MAX_ELAPSED, UNIT};
use arcaders::phi::events::{Events, KeyState};
use arcaders::phi::gfx::{Color, ConfigurationError, DrawCommand, Layer, Renderer, Sprite};
use arcaders::phi::{Phi, View, ViewAction, ViewError};
use arcaders::views::game::{
    diagonal_share, displacement, spread, update_bullets, Asteroid, Draws, GameAssets,
    RectBullet, Ship, ShipFrame, ShipView, ASTEROIDS_HIGH, ASTEROIDS_TOTAL, ASTEROIDS_WIDE,
    ASTEROID_SIDE, BULLET_H, BULLET_SPEED, BULLET_W, FAR_ELAPSED, FRACTION_ONE, PLAYER_SPEED,
    SHIP_H, SHIP_W,
};
use arcaders::views::shared::BgSet;

const SECOND: i64 = 1_000_000;
const HALF: u64 = FRACTION_ONE / 2;

fn rect(x: i64, y: i64, w: i64, h: i64) -> Rectangle {
    Rectangle { x, y, w, h }
}

fn px(x: i64, y: i64, w: i64, h: i64) -> Rectangle {
    rect(x * UNIT, y * UNIT, w * UNIT, h * UNIT)
}

fn ship_sheet() -> Sprite {
    Sprite::new(0, 129, 117)
}

fn asteroid_sheet() -> Sprite {
    Sprite::new(1, 2016, 672)
}

fn scenery() -> BgSet {
    BgSet { back: Sprite::new(2, 800, 600), middle: Sprite::new(3, 800, 600), front: Sprite::new(4, 800, 600) }
}

fn assets() -> GameAssets {
    GameAssets { spaceship: ship_sheet(), asteroid: asteroid_sheet(), background: scenery() }
}

fn context() -> Phi {
    Phi::new(Events::new(), Renderer::new(800, 600))
}

fn keys(up: bool, down: bool, left: bool, right: bool) -> KeyState {
    KeyState { key_up: up, key_down: down, key_left: left, key_right: right, ..KeyState::new() }
}

fn halves() -> Draws {
    Draws { fps: HALF, y: HALF, vel: HALF }
}

fn bullet(x: i64, y: i64) -> RectBullet {
    RectBullet { rect: rect(x, y, BULLET_W, BULLET_H) }
}

#[test]
fn the_constants_are_those_of_the_game() {
    assert_eq!(PLAYER_SPEED, 180);
    assert_eq!(BULLET_SPEED, 240);
    assert_eq!((SHIP_W, SHIP_H), (43 * UNIT, 39 * UNIT));
    assert_eq!((BULLET_W, BULLET_H), (8 * UNIT, 4 * UNIT));
    assert_eq!(ASTEROID_SIDE, 96 * UNIT);
    assert_eq!((ASTEROIDS_WIDE, ASTEROIDS_HIGH, ASTEROIDS_TOTAL), (21, 7, 143));
    assert_eq!(FAR_ELAPSED, 100_000_000 * UNIT);
    assert_eq!(FRACTION_ONE, 1 << 52);
}

#[test]
fn the_diagonal_share_is_the_move_over_the_root_of_two_rounded_down() {
    assert_eq!(diagonal_share(0), 0);
    assert_eq!(diagonal_share(1), 0);
    assert_eq!(diagonal_share(2), 1);
    assert_eq!(diagonal_share(3), 2);
    assert_eq!(diagonal_share(10), 7);
    assert_eq!(diagonal_share(180_000_000), 127_279_220);
    assert_eq!(diagonal_share(i64::MAX), 6_521_908_912_666_391_105);
    for moved in [5i64, 99, 2_880_000, 123_456_789, 180 * MAX_ELAPSED, i64::MAX - 1, i64::MAX] {
        let share = diagonal_share(moved) as u128;
        let moved = moved as u128;
        assert!(2 * share * share <= moved * moved);
        assert!(moved * moved < 2 * (share + 1) * (share + 1));
    }
}

#[test]
fn an_axis_stands_still_when_its_keys_cancel_or_rest() {
    for bits in 0..16 {
        let (up, down, left, right) = (bits & 1 != 0, bits & 2 != 0, bits & 4 != 0, bits & 8 != 0);
        let (dx, dy) = displacement(&keys(up, down, left, right), 16_000);
        assert_eq!(dx == 0, left == right);
        assert_eq!(dy == 0, up == down);
        assert_eq!(dx < 0, left && !right);
        assert_eq!(dx > 0, right && !left);
        assert_eq!(dy < 0, up && !down);
        assert_eq!(dy > 0, down && !up);
    }
}

#[test]
fn only_a_diagonal_move_is_scaled_by_the_root_of_two() {
    let full = PLAYER_SPEED * 16_000;
    let share = 2_036_467;
    assert_eq!(diagonal_share(full), share);
    for bits in 0..16 {
        let (up, down, left, right) = (bits & 1 != 0, bits & 2 != 0, bits & 4 != 0, bits & 8 != 0);
        let (dx, dy) = displacement(&keys(up, down, left, right), 16_000);
        let diagonal = (up != down) && (left != right);
        assert_eq!(dx.abs() == share, diagonal);
        assert_eq!(dy.abs() == share, diagonal);
        if !diagonal {
            assert!(dx == 0 || dx.abs() == full);
            assert!(dy == 0 || dy.abs() == full);
        }
    }
}

#[test]
fn the_move_is_speed_times_time() {
    assert_eq!(displacement(&keys(false, false, false, true), SECOND), (180 * UNIT, 0));
    assert_eq!(displacement(&keys(false, false, true, false), SECOND), (-180 * UNIT, 0));
    assert_eq!(displacement(&keys(true, false, false, false), SECOND / 2), (0, -90 * UNIT));
    assert_eq!(displacement(&keys(false, true, false, false), 1), (0, 180));
    assert_eq!(displacement(&keys(true, false, false, true), SECOND), (127_279_220, -127_279_220));
    assert_eq!(displacement(&keys(false, true, true, false), SECOND), (-127_279_220, 127_279_220));
    assert_eq!(displacement(&keys(true, true, false, true), SECOND), (180 * UNIT, 0));
    assert_eq!(displacement(&keys(true, true, true, true), SECOND), (0, 0));
    assert_eq!(displacement(&keys(true, false, true, false), 0), (0, 0));
    assert_eq!(
        displacement(&keys(false, false, false, true), MAX_ELAPSED),
        (180 * MAX_ELAPSED, 0)
    );
    assert_eq!(
        displacement(&keys(false, true, false, false), i64::MAX / 180),
        (0, i64::MAX / 180 * 180)
    );
}

#[test]
fn the_picture_of_the_ship_follows_the_signs_of_its_move() {
    let table = [
        [ShipFrame::UpSlow, ShipFrame::UpNorm, ShipFrame::UpFast],
        [ShipFrame::MidSlow, ShipFrame::MidNorm, ShipFrame::MidFast],
        [ShipFrame::DownSlow, ShipFrame::DownNorm, ShipFrame::DownFast],
    ];
    for (row, dy) in [-1i64, 0, 1].into_iter().enumerate() {
        for (column, dx) in [-1i64, 0, 1].into_iter().enumerate() {
            assert_eq!(ShipFrame::select(dx, dy), table[row][column]);
            assert_eq!(ShipFrame::select(dx * i64::MAX, dy * 5), table[row][column]);
        }
    }
}

#[test]
fn the_pictures_of_the_ship_are_numbered_row_by_row() {
    let order = [
        ShipFrame::UpNorm,
        ShipFrame::UpFast,
        ShipFrame::UpSlow,
        ShipFrame::MidNorm,
        ShipFrame::MidFast,
        ShipFrame::MidSlow,
        ShipFrame::DownNorm,
        ShipFrame::DownFast,
        ShipFrame::DownSlow,
    ];
    for (i, frame) in order.into_iter().enumerate() {
        assert_eq!(frame.index(), i);
    }
}

#[test]
fn a_bullet_flies_right_at_its_speed() {
    let phi = context();
    let next = bullet(94 * UNIT, 70 * UNIT).update(&phi, 16_000);
    assert_eq!(next, Some(bullet(97_840_000, 70 * UNIT)));
    assert_eq!(next.unwrap().rect(), rect(97_840_000, 70 * UNIT, BULLET_W, BULLET_H));
    assert_eq!(bullet(-5, 3).update(&phi, 0), Some(bullet(-5, 3)));
    assert_eq!(bullet(i64::MIN, 3).update(&phi, SECOND), Some(bullet(i64::MIN + 240 * UNIT, 3)));
    assert_eq!(bullet(100, 3).update(&phi, -1), Some(bullet(-140, 3)));
    assert_eq!(bullet(i64::MIN + 240, 3).update(&phi, -1), Some(bullet(i64::MIN, 3)));
}

#[test]
fn a_bullet_past_the_right_edge_is_gone() {
    let phi = context();
    assert_eq!(bullet(796_160_000, 0).update(&phi, 16_000), Some(bullet(800 * UNIT, 0)));
    assert_eq!(bullet(796_160_001, 0).update(&phi, 16_000), None);
    assert_eq!(bullet(799 * UNIT, 0).update(&phi, 16_000), None);
    assert_eq!(bullet(800 * UNIT + 1, 0).update(&phi, 0), None);
    assert_eq!(bullet(i64::MAX, 0).update(&phi, MAX_ELAPSED), None);
    assert_eq!(bullet(i64::MAX, 0).update(&phi, i64::MAX), None);
    assert_eq!(bullet(0, 0).update(&phi, i64::MAX), None);
    assert_eq!(bullet(900 * UNIT, 0).update(&phi, -1), None);
}

#[test]
fn bullets_that_stay_keep_their_order() {
    let phi = context();
    let bullets = vec![
        bullet(10 * UNIT, 1),
        bullet(799 * UNIT, 2),
        bullet(20 * UNIT, 3),
        bullet(900 * UNIT, 4),
        bullet(796_160_000, 5),
    ];
    assert_eq!(
        update_bullets(&bullets, &phi, 16_000),
        vec![bullet(13_840_000, 1), bullet(23_840_000, 3), bullet(800 * UNIT, 5)]
    );
    assert_eq!(update_bullets(&vec![], &phi, 16_000), vec![]);
    assert_eq!(update_bullets(&bullets, &phi, MAX_ELAPSED), vec![]);
    assert_eq!(update_bullets(&bullets, &phi, i64::MAX), vec![]);
}

#[test]
fn a_bullet_is_drawn_as_a_yellow_rectangle() {
    let mut phi = context();
    bullet(5, 6).render(&mut phi);
    assert_eq!(
        phi.renderer.take_commands(),
        vec![
            DrawCommand::SetDrawColor(Color { r: 230, g: 230, b: 30 }),
            DrawCommand::FillRect(rect(5, 6, BULLET_W, BULLET_H)),
        ]
    );
}

#[test]
fn a_random_word_is_spread_over_a_range() {
    assert_eq!(spread(0, 100), 0);
    assert_eq!(spread(HALF, 100), 50);
    assert_eq!(spread(FRACTION_ONE - 1, 100), 99);
    assert_eq!(spread(FRACTION_ONE, 100), 0);
    assert_eq!(spread(u64::MAX, 100), 99);
    assert_eq!(spread(HALF + FRACTION_ONE * 7, 20), 10);
    assert_eq!(spread(HALF / 2, 504 * UNIT), 126 * UNIT);
    assert_eq!(spread(u64::MAX, 0), 0);
    assert_eq!(spread(HALF, -46 * UNIT), -23 * UNIT);
    assert_eq!(spread(u64::MAX, -100), -99);
    assert_eq!(spread(u64::MAX, i64::MAX), i64::MAX - 2048);
    assert_eq!(spread(u64::MAX, i64::MIN), -(i64::MAX - 2047));
}

#[test]
fn the_animation_of_the_asteroid_is_cut_row_by_row() {
    let animation = Asteroid::get_sprite(&asteroid_sheet(), UNIT).unwrap();
    assert_eq!(animation.frames(), 143);
    assert_eq!(animation.frame_delay(), SECOND);
    assert_eq!(animation.current_time(), 0);
    let mut animation = animation;
    let mut phi = context();
    let dest = px(0, 0, 96, 96);
    for _ in 0..143 {
        arcaders::phi::gfx::Renderable::render(&animation, &mut phi.renderer, dest);
        animation.add_time(SECOND);
    }
    let commands = phi.renderer.take_commands();
    assert_eq!(commands.len(), 143);
    for (k, command) in commands.into_iter().enumerate() {
        let (column, row) = ((k % 21) as i64, (k / 21) as i64);
        assert_eq!(
            command,
            DrawCommand::Copy { texture: 1, src: px(96 * column, 96 * row, 96, 96), dest }
        );
    }
}

#[test]
fn the_animation_of_the_asteroid_is_offset_by_its_sheet() {
    let atlas = Sprite::new(9, 4000, 4000);
    let sheet = atlas.region(px(100, 200, 2016, 672)).unwrap();
    let mut animation = Asteroid::get_sprite(&sheet, 10 * UNIT).unwrap();
    animation.add_time(142 * 100_000);
    let mut phi = context();
    arcaders::phi::gfx::Renderable::render(&animation, &mut phi.renderer, px(0, 0, 1, 1));
    assert_eq!(
        phi.renderer.take_commands(),
        vec![DrawCommand::Copy {
            texture: 9,
            src: px(100 + 16 * 96, 200 + 6 * 96, 96, 96),
            dest: px(0, 0, 1, 1)
        }]
    );
}

#[test]
fn a_sheet_too_small_for_the_asteroid_is_refused() {
    let refused = Err(ViewError::Geometry(GeometryError::RegionOutOfBounds));
    assert_eq!(Asteroid::get_sprite(&Sprite::new(1, 2015, 672), UNIT).map(|_| ()), refused);
    assert_eq!(Asteroid::get_sprite(&Sprite::new(1, 2016, 671), UNIT).map(|_| ()), refused);
    assert_eq!(Asteroid::get_sprite(&Sprite::new(1, 0, 0), UNIT).map(|_| ()), refused);
    assert_eq!(Asteroid::get_sprite(&Sprite::new(1, 2015, 672), 0).map(|_| ()), refused);
    assert!(Asteroid::new_with(&context(), &Sprite::new(1, 2016, 671), halves()).is_err());
    assert!(Asteroid::new(&context(), &Sprite::new(1, 95, 95)).is_err());
}

#[test]
fn the_animation_of_the_asteroid_refuses_a_bad_rate() {
    assert_eq!(
        Asteroid::get_sprite(&asteroid_sheet(), 0).map(|_| ()),
        Err(ViewError::Configuration(ConfigurationError::ZeroFps))
    );
    assert_eq!(
        Asteroid::get_sprite(&asteroid_sheet(), 1_000_000 * UNIT + 1).map(|_| ()),
        Err(ViewError::Configuration(ConfigurationError::FrameDelayNotPositive))
    );
    assert_eq!(
        Asteroid::get_sprite(&asteroid_sheet(), -UNIT).map(|_| ()),
        Err(ViewError::Configuration(ConfigurationError::FrameDelayNotPositive))
    );
    assert_eq!(
        Asteroid::get_sprite(&asteroid_sheet(), 19_375_000).map(|a| a.frame_delay()),
        Ok(51_612)
    );
}

#[test]
fn a_new_asteroid_is_placed_by_its_draws() {
    let asteroid = Asteroid::new_with(&context(), &asteroid_sheet(), halves()).unwrap();
    assert_eq!(asteroid.rect(), px(800, 252, 96, 96));
    assert_eq!(asteroid.vel(), 100 * UNIT);
    assert_eq!(asteroid.sprite().frames(), 143);
    assert_eq!(asteroid.sprite().frame_delay(), 50_000);
    assert_eq!(asteroid.sprite().current_time(), 0);
    let least = Draws { fps: 0, y: 0, vel: 0 };
    let asteroid = Asteroid::new_with(&context(), &asteroid_sheet(), least).unwrap();
    assert_eq!((asteroid.rect(), asteroid.vel()), (px(800, 0, 96, 96), 50 * UNIT));
    assert_eq!(asteroid.sprite().frame_delay(), 100_000);
    let most = Draws { fps: u64::MAX, y: u64::MAX, vel: u64::MAX };
    let asteroid = Asteroid::new_with(&context(), &asteroid_sheet(), most).unwrap();
    assert_eq!(asteroid.rect(), rect(800 * UNIT, 503_999_999, 96 * UNIT, 96 * UNIT));
    assert_eq!(asteroid.vel(), 149_999_999);
    assert_eq!(asteroid.sprite().frame_delay(), 33_333);
}

#[test]
fn the_rate_and_the_speed_of_a_respawn_keep_their_fractions() {
    let phi = context();
    let draws = Draws { fps: FRACTION_ONE / 32 * 15, y: 0, vel: FRACTION_ONE / 256 };
    let mut asteroid = Asteroid::new_with(&phi, &asteroid_sheet(), draws).unwrap();
    assert_eq!(asteroid.sprite().frame_delay(), 51_612);
    assert_eq!(asteroid.vel(), 50_390_625);
    asteroid.update_with(&phi, SECOND, draws);
    assert_eq!(asteroid.rect(), rect(749_609_375, 0, 96 * UNIT, 96 * UNIT));
    asteroid.update_with(&phi, 1, draws);
    assert_eq!(asteroid.rect().x, 749_609_325);
    asteroid.reset_with(&phi, Draws { fps: FRACTION_ONE / 4 * 3, y: 0, vel: FRACTION_ONE / 3 });
    assert_eq!(asteroid.sprite().frame_delay(), 40_000);
    assert_eq!(asteroid.vel(), 83_333_333);
}

#[test]
fn the_asteroid_drifts_left_at_its_speed() {
    let phi = context();
    let mut asteroid = Asteroid::new_with(&phi, &asteroid_sheet(), halves()).unwrap();
    asteroid.update_with(&phi, SECOND, Draws { fps: 0, y: 0, vel: 0 });
    assert_eq!(asteroid.rect(), px(700, 252, 96, 96));
    assert_eq!(asteroid.vel(), 100 * UNIT);
    assert_eq!(asteroid.sprite().current_time(), SECOND);
    assert_eq!(asteroid.sprite().frame_delay(), 50_000);
    asteroid.update_with(&phi, 0, Draws { fps: 0, y: 0, vel: 0 });
    assert_eq!(asteroid.rect(), px(700, 252, 96, 96));
}

#[test]
fn the_asteroid_respawns_once_it_has_left_the_output() {
    let phi = context();
    let again = Draws { fps: 0, y: HALF / 2, vel: u64::MAX };
    let mut asteroid = Asteroid::new_with(&phi, &asteroid_sheet(), halves()).unwrap();
    asteroid.update_with(&phi, 8_959_999, again);
    assert_eq!(asteroid.rect(), rect(-95_999_900, 252 * UNIT, 96 * UNIT, 96 * UNIT));
    assert_eq!(asteroid.vel(), 100 * UNIT);
    let mut asteroid = Asteroid::new_with(&phi, &asteroid_sheet(), halves()).unwrap();
    asteroid.update_with(&phi, 8_960_000, again);
    assert_eq!(asteroid.rect(), px(800, 126, 96, 96));
    assert_eq!(asteroid.vel(), 149_999_999);
    assert_eq!(asteroid.sprite().frame_delay(), 100_000);
    assert_eq!(asteroid.sprite().current_time(), 8_960_000);
    assert_eq!(asteroid.sprite().frames(), 143);
    let mut asteroid = Asteroid::new_with(&phi, &asteroid_sheet(), halves()).unwrap();
    asteroid.update_with(&phi, MAX_ELAPSED, again);
    assert_eq!(asteroid.rect(), px(800, 126, 96, 96));
    let mut asteroid = Asteroid::new_with(&phi, &asteroid_sheet(), halves()).unwrap();
    asteroid.update_with(&phi, i64::MAX, again);
    assert_eq!(asteroid.rect(), px(800, 126, 96, 96));
    assert_eq!(asteroid.vel(), 149_999_999);
    assert_eq!(asteroid.sprite().current_time(), i64::MAX);
}

#[test]
fn the_asteroid_respawns_at_the_edge_of_the_output_of_the_moment() {
    let mut asteroid = Asteroid::new_with(&context(), &asteroid_sheet(), halves()).unwrap();
    let resized = Phi::new(Events::new(), Renderer::new(1024, 768));
    asteroid.reset_with(&resized, Draws { fps: HALF, y: HALF, vel: 0 });
    assert_eq!(asteroid.rect(), px(1024, 336, 96, 96));
    assert_eq!(asteroid.vel(), 50 * UNIT);
    let low = Phi::new(Events::new(), Renderer::new(800, 50));
    asteroid.reset_with(&low, halves());
    assert_eq!(asteroid.rect(), px(800, -23, 96, 96));
    let exact = Phi::new(Events::new(), Renderer::new(0, 96));
    asteroid.reset_with(&exact, Draws { fps: 0, y: u64::MAX, vel: 0 });
    assert_eq!(asteroid.rect(), px(0, 0, 96, 96));
}

#[test]
fn a_random_respawn_stays_within_its_ranges() {
    let phi = context();
    let mut asteroid = Asteroid::new(&phi, &asteroid_sheet()).unwrap();
    for round in 0..200 {
        assert_eq!(asteroid.rect().x, 800 * UNIT);
        assert!((0..504 * UNIT).contains(&asteroid.rect().y));
        assert_eq!((asteroid.rect().w, asteroid.rect().h), (96 * UNIT, 96 * UNIT));
        assert!((50 * UNIT..150 * UNIT).contains(&asteroid.vel()));
        assert!((SECOND / 30..=SECOND / 10).contains(&asteroid.sprite().frame_delay()));
        assert_eq!(asteroid.sprite().frames(), 143);
        if round % 2 == 0 {
            asteroid.reset(&phi);
        } else {
            asteroid.update(&phi, 20 * SECOND);
        }
    }
}

#[test]
fn random_draws_differ() {
    let draws: Vec<Draws> = (0..8).map(|_| Draws::random()).collect();
    assert!(draws.iter().any(|d| *d != draws[0]));
    assert!(draws.iter().any(|d| d.fps != d.y || d.y != d.vel));
}

#[test]
fn the_asteroid_is_drawn_at_its_place() {
    let mut phi = context();
    let mut asteroid = Asteroid::new_with(&phi, &asteroid_sheet(), halves()).unwrap();
    asteroid.update_with(&phi, 1_100_000, halves());
    asteroid.render(&mut phi);
    assert_eq!(
        phi.renderer.take_commands(),
        vec![DrawCommand::Copy {
            texture: 1,
            src: px(96, 96, 96, 96),
            dest: px(690, 252, 96, 96)
        }]
    );
}

#[test]
fn a_new_ship_waits_at_its_starting_place() {
    let ship = Ship::new(&ship_sheet()).unwrap();
    assert_eq!(ship.rect(), px(64, 64, 43, 39));
    assert_eq!(ship.current(), ShipFrame::MidNorm);
    let mut phi = context();
    ship.render(&mut phi);
    assert_eq!(
        phi.renderer.take_commands(),
        vec![DrawCommand::Copy { texture: 0, src: px(0, 39, 43, 39), dest: px(64, 64, 43, 39) }]
    );
}

#[test]
fn a_sheet_too_small_for_the_ship_is_refused() {
    let refused = Err(ViewError::Geometry(GeometryError::RegionOutOfBounds));
    assert_eq!(Ship::new(&Sprite::new(0, 128, 117)).map(|_| ()), refused);
    assert_eq!(Ship::new(&Sprite::new(0, 129, 116)).map(|_| ()), refused);
    let small_ship = GameAssets { spaceship: Sprite::new(0, 42, 38), ..assets() };
    assert_eq!(ShipView::new(&context(), &small_ship).map(|_| ()), refused);
    let small_asteroid = GameAssets { asteroid: Sprite::new(0, 2016, 600), ..assets() };
    assert_eq!(ShipView::new(&context(), &small_asteroid).map(|_| ()), refused);
    assert_eq!(
        ShipView::with_background(&context(), &small_asteroid, scenery()).map(|_| ()),
        refused
    );
}

#[test]
fn the_ship_is_steered_and_kept_in_its_region() {
    let size = (800 * UNIT, 600 * UNIT);
    let mut ship = Ship::new(&ship_sheet()).unwrap();
    assert_eq!(ship.steer(&keys(false, false, false, true), SECOND, size), Ok(()));
    assert_eq!((ship.rect(), ship.current()), (px(244, 64, 43, 39), ShipFrame::MidFast));
    assert_eq!(ship.steer(&keys(false, false, false, true), 3 * SECOND, size), Ok(()));
    assert_eq!((ship.rect(), ship.current()), (px(517, 64, 43, 39), ShipFrame::MidFast));
    assert_eq!(ship.steer(&keys(false, true, true, false), 10 * SECOND, size), Ok(()));
    assert_eq!((ship.rect(), ship.current()), (px(0, 561, 43, 39), ShipFrame::DownSlow));
    assert_eq!(ship.steer(&keys(true, false, false, false), SECOND, size), Ok(()));
    assert_eq!((ship.rect(), ship.current()), (px(0, 381, 43, 39), ShipFrame::UpNorm));
    assert_eq!(ship.steer(&keys(true, false, false, true), SECOND, size), Ok(()));
    assert_eq!(
        (ship.rect(), ship.current()),
        (rect(127_279_220, 381 * UNIT - 127_279_220, SHIP_W, SHIP_H), ShipFrame::UpFast)
    );
    assert_eq!(ship.steer(&keys(true, true, true, true), SECOND, size), Ok(()));
    assert_eq!(ship.current(), ShipFrame::MidNorm);
}

#[test]
fn steering_for_ages_ends_at_the_edge_of_the_region() {
    let size = (800 * UNIT, 600 * UNIT);
    for elapsed in [FAR_ELAPSED - 1, FAR_ELAPSED, FAR_ELAPSED + 1, i64::MAX / 180 + 1, i64::MAX] {
        let mut ship = Ship::new(&ship_sheet()).unwrap();
        assert_eq!(ship.steer(&keys(false, false, false, true), elapsed, size), Ok(()));
        assert_eq!((ship.rect(), ship.current()), (px(517, 64, 43, 39), ShipFrame::MidFast));
        assert_eq!(ship.steer(&keys(true, false, true, false), elapsed, size), Ok(()));
        assert_eq!((ship.rect(), ship.current()), (px(0, 0, 43, 39), ShipFrame::UpSlow));
        assert_eq!(ship.steer(&keys(false, true, false, true), elapsed, size), Ok(()));
        assert_eq!((ship.rect(), ship.current()), (px(517, 561, 43, 39), ShipFrame::DownFast));
        assert_eq!(ship.steer(&keys(true, true, false, false), elapsed, size), Ok(()));
        assert_eq!((ship.rect(), ship.current()), (px(517, 561, 43, 39), ShipFrame::MidNorm));
        assert_eq!(
            ship.steer(&keys(true, false, false, false), elapsed, (0, 0)),
            Err(GeometryError::LargerThanBounds)
        );
    }
}

#[test]
fn a_frame_of_any_length_is_taken() {
    let mut phi = context();
    let mut view = ShipView::new(&phi, &assets()).unwrap();
    phi.events.pump(KeyState { key_space: true, key_down: true, ..KeyState::new() });
    assert!(matches!(view.render(&mut phi, 0), Ok(ViewAction::Continue)));
    assert_eq!(view.player().rect(), px(64, 64, 43, 39));
    assert_eq!(view.bullets().len(), 2);
    phi.events.pump(KeyState { key_down: true, ..KeyState::new() });
    assert!(matches!(view.render(&mut phi, i64::MAX), Ok(ViewAction::Continue)));
    assert_eq!(view.player().rect(), px(64, 561, 43, 39));
    assert_eq!(view.player().current(), ShipFrame::DownNorm);
    assert!(view.bullets().is_empty());
    assert_eq!(view.asteroid().rect().x, 800 * UNIT);
    assert!((0..504 * UNIT).contains(&view.asteroid().rect().y));
    assert_eq!(view.asteroid().sprite().current_time(), i64::MAX);
}

#[test]
fn a_ship_larger_than_its_region_cannot_be_steered() {
    let mut ship = Ship::new(&ship_sheet()).unwrap();
    let refused = Err(GeometryError::LargerThanBounds);
    assert_eq!(ship.steer(&keys(false, false, false, true), SECOND, (61 * UNIT, 600 * UNIT)), refused);
    assert_eq!(ship.steer(&keys(false, false, false, true), SECOND, (800 * UNIT, 38 * UNIT)), refused);
    assert_eq!(ship.steer(&keys(false, false, false, true), SECOND, (0, 0)), refused);
    assert_eq!((ship.rect(), ship.current()), (px(64, 64, 43, 39), ShipFrame::MidNorm));
    assert_eq!(
        ship.steer(&keys(false, false, false, true), SECOND, (61_428_572, 39 * UNIT)),
        Ok(())
    );
    assert_eq!(ship.rect(), rect(0, 0, SHIP_W, SHIP_H));
}

#[test]
fn the_ship_fires_from_both_cannons() {
    let ship = Ship::new(&ship_sheet()).unwrap();
    assert_eq!(
        ship.spawn_bullets(),
        vec![
            RectBullet { rect: px(94, 70, 8, 4) },
            RectBullet { rect: px(94, 93, 8, 4) },
        ]
    );
}

#[test]
fn a_new_game_has_a_ship_an_asteroid_and_no_bullets() {
    let view = ShipView::new(&context(), &assets()).unwrap();
    assert_eq!(view.player().rect(), px(64, 64, 43, 39));
    assert_eq!(view.player().current(), ShipFrame::MidNorm);
    assert!(view.bullets().is_empty());
    assert_eq!(view.asteroid().rect().x, 800 * UNIT);
    assert_eq!(view.asteroid().sprite().frames(), 143);
}

#[test]
fn holding_right_for_a_second_moves_the_ship_by_its_speed() {
    let mut phi = context();
    let mut view = ShipView::new(&phi, &assets()).unwrap();
    phi.events.pump(keys(false, false, false, true));
    assert!(matches!(view.render(&mut phi, SECOND), Ok(ViewAction::Continue)));
    assert_eq!(view.player().rect(), px(64 + 180, 64, 43, 39));
    assert_eq!(view.player().current(), ShipFrame::MidFast);
}

#[test]
fn holding_right_in_sixty_frames_moves_the_ship_as_far() {
    let mut phi = context();
    let mut view = ShipView::new(&phi, &assets()).unwrap();
    phi.events.pump(keys(false, false, false, true));
    for _ in 0..50 {
        assert!(matches!(view.render(&mut phi, 20_000), Ok(ViewAction::Continue)));
        phi.renderer.take_commands();
        phi.events.pump(keys(false, false, false, true));
    }
    assert_eq!(view.player().rect(), px(64 + 180, 64, 43, 39));
}

#[test]
fn the_ship_stops_at_the_edge_of_its_region() {
    let mut phi = context();
    let mut view = ShipView::new(&phi, &assets()).unwrap();
    phi.events.pump(keys(false, false, false, true));
    view.render(&mut phi, 3 * SECOND).unwrap();
    assert_eq!(view.player().rect(), px(560 - 43, 64, 43, 39));
    phi.events.pump(keys(true, false, true, false));
    view.render(&mut phi, MAX_ELAPSED).unwrap();
    assert_eq!(view.player().rect(), px(0, 0, 43, 39));
    assert_eq!(view.player().current(), ShipFrame::UpSlow);
}

#[test]
fn a_press_of_space_fires_two_bullets_from_where_the_ship_is() {
    let mut phi = context();
    let mut view = ShipView::new(&phi, &assets()).unwrap();
    phi.events.pump(KeyState { key_space: true, key_right: true, ..KeyState::new() });
    view.render(&mut phi, SECOND).unwrap();
    assert_eq!(
        *view.bullets(),
        vec![RectBullet { rect: px(274, 70, 8, 4) }, RectBullet { rect: px(274, 93, 8, 4) }]
    );
    phi.events.pump(KeyState { key_space: true, ..KeyState::new() });
    view.render(&mut phi, SECOND).unwrap();
    assert_eq!(
        *view.bullets(),
        vec![RectBullet { rect: px(514, 70, 8, 4) }, RectBullet { rect: px(514, 93, 8, 4) }]
    );
    phi.events.pump(KeyState::new());
    view.render(&mut phi, SECOND).unwrap();
    phi.events.pump(KeyState { key_space: true, ..KeyState::new() });
    view.render(&mut phi, SECOND / 4).unwrap();
    assert_eq!(
        *view.bullets(),
        vec![
            RectBullet { rect: px(754 + 60, 70, 8, 4) },
            RectBullet { rect: px(754 + 60, 93, 8, 4) },
            RectBullet { rect: px(274, 70, 8, 4) },
            RectBullet { rect: px(274, 93, 8, 4) },
        ][2..]
    );
    phi.events.pump(KeyState { key_space: true, ..KeyState::new() });
    view.render(&mut phi, 3 * SECOND).unwrap();
    assert!(view.bullets().is_empty());
}

#[test]
fn a_request_to_quit_ends_the_game_and_changes_nothing() {
    let mut phi = context();
    let mut view = ShipView::new(&phi, &assets()).unwrap();
    let asteroid = view.asteroid().rect();
    for quit in [
        KeyState { quit: true, key_right: true, key_space: true, ..KeyState::new() },
        KeyState { key_escape: true, key_right: true, ..KeyState::new() },
        KeyState { key_right: true, ..KeyState::new() },
    ] {
        phi.events.pump(quit);
        assert!(matches!(view.render(&mut phi, SECOND), Ok(ViewAction::Quit)));
        assert_eq!(view.player().rect(), px(64, 64, 43, 39));
        assert!(view.bullets().is_empty());
        assert_eq!(view.asteroid().rect(), asteroid);
        assert!(phi.renderer.take_commands().is_empty());
    }
    phi.events.pump(KeyState { key_right: true, ..KeyState::new() });
    assert!(matches!(view.render(&mut phi, SECOND), Ok(ViewAction::Continue)));
}

#[test]
fn an_output_too_small_for_the_ship_is_an_error() {
    let mut phi = Phi::new(Events::new(), Renderer::new(61, 600));
    let mut view = ShipView::new(&phi, &assets()).unwrap();
    let asteroid = view.asteroid().rect();
    phi.events.pump(KeyState { key_space: true, key_right: true, ..KeyState::new() });
    assert!(matches!(
        view.render(&mut phi, SECOND),
        Err(ViewError::Geometry(GeometryError::LargerThanBounds))
    ));
    assert_eq!(view.player().rect(), px(64, 64, 43, 39));
    assert!(view.bullets().is_empty());
    assert_eq!(view.asteroid().rect(), asteroid);
    assert!(phi.renderer.take_commands().is_empty());
    phi.renderer.resize(62, 39);
    assert!(matches!(view.render(&mut phi, SECOND), Ok(ViewAction::Continue)));
    assert_eq!(view.player().rect(), rect(400_000, 0, SHIP_W, SHIP_H));
}

#[test]
fn the_scene_is_drawn_back_to_front() {
    let mut phi = context();
    let bg = BgSet { back: Sprite::new(5, 1, 1), middle: Sprite::new(6, 2, 2), front: Sprite::new(7, 3, 3) };
    let mut view = ShipView::with_background(&phi, &assets(), bg).unwrap();
    phi.events.pump(KeyState { key_space: true, key_down: true, ..KeyState::new() });
    assert!(matches!(view.render(&mut phi, 16_000), Ok(ViewAction::Continue)));
    let commands = phi.renderer.take_commands();
    let asteroid = view.asteroid().rect();
    assert_eq!(asteroid.y, view.asteroid().rect().y);
    assert!(asteroid.x <= 800 * UNIT - 50 * 16_000 && asteroid.x > 800 * UNIT - 150 * 16_000);
    let yellow = DrawCommand::SetDrawColor(Color { r: 230, g: 230, b: 30 });
    assert_eq!(
        commands,
        vec![
            DrawCommand::SetDrawColor(Color { r: 0, g: 0, b: 0 }),
            DrawCommand::Clear,
            DrawCommand::Scenery { layer: Layer::Back, sprite: bg.back, elapsed: 16_000 },
            DrawCommand::Scenery { layer: Layer::Middle, sprite: bg.middle, elapsed: 16_000 },
            DrawCommand::Copy {
                texture: 0,
                src: px(0, 78, 43, 39),
                dest: rect(64 * UNIT, 66_880_000, SHIP_W, SHIP_H)
            },
            yellow,
            DrawCommand::FillRect(rect(94 * UNIT, 72_880_000, BULLET_W, BULLET_H)),
            yellow,
            DrawCommand::FillRect(rect(94 * UNIT, 95_880_000, BULLET_W, BULLET_H)),
            DrawCommand::Copy { texture: 1, src: px(0, 0, 96, 96), dest: asteroid },
            DrawCommand::Scenery { layer: Layer::Front, sprite: bg.front, elapsed: 16_000 },
        ]
    );
}
