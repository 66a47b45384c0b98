//! The game screen: the player's ship, its bullets and a recurring asteroid.

use crate::phi::data::{clamp, GeometryError, Rectangle, MAX_LENGTH, UNIT};
use crate::phi::events::{Key, KeyState};
use crate::phi::gfx::{
    advanced_time, animation_error, delay_of_fps, AnimatedSprite, Color, ConfigurationError,
    CopySprite, DrawCommand, Layer, Renderable, Sprite,
};
use crate::phi::{Phi, View, ViewAction, ViewError};
use crate::views::shared::BgSet;
use vstd::prelude::*;
use vstd::view::View as _;

verus! {

/// Speed of the ship along one axis, in pixels per second.
pub const PLAYER_SPEED: i64 = 180;

/// Width of the ship.
pub const SHIP_W: i64 = 43_000_000;

/// Height of the ship.
pub const SHIP_H: i64 = 39_000_000;

/// Frames in one row of the asteroid's sprite sheet.
pub const ASTEROIDS_WIDE: usize = 21;

/// Rows of the asteroid's sprite sheet.
pub const ASTEROIDS_HIGH: usize = 7;

/// Frames of the asteroid's animation: the last row of the sheet is four short.
pub const ASTEROIDS_TOTAL: usize = ASTEROIDS_WIDE * ASTEROIDS_HIGH - 4;

/// Width and height of the asteroid, and of one frame of its sheet.
pub const ASTEROID_SIDE: i64 = 96_000_000;

/// One above the largest numerator of a random fraction: two to the power 52.
pub const FRACTION_ONE: u64 = 0x10_0000_0000_0000;

/// Speed of a bullet, in pixels per second.
pub const BULLET_SPEED: i64 = 240;

/// Width of a bullet.
pub const BULLET_W: i64 = 8_000_000;

/// Height of a bullet.
pub const BULLET_H: i64 = 4_000_000;

/// The nine pictures of the ship: three vertical by three horizontal classes of velocity.
#[derive(Clone, Copy, Debug, PartialEq, Eq, Structural)]
pub enum ShipFrame {
    UpNorm,
    UpFast,
    UpSlow,
    MidNorm,
    MidFast,
    MidSlow,
    DownNorm,
    DownFast,
    DownSlow,
}

impl ShipFrame {
    /// Position of the picture in the ship's sprite sheet, row by row.
    pub open spec fn spec_index(self) -> int {
        match self {
            ShipFrame::UpNorm => 0,
            ShipFrame::UpFast => 1,
            ShipFrame::UpSlow => 2,
            ShipFrame::MidNorm => 3,
            ShipFrame::MidFast => 4,
            ShipFrame::MidSlow => 5,
            ShipFrame::DownNorm => 6,
            ShipFrame::DownFast => 7,
            ShipFrame::DownSlow => 8,
        }
    }

    /// The picture for a ship that moves by `(dx, dy)`: the row by the sign of
    /// `dy`, the column by the sign of `dx`.
    pub open spec fn spec_select(dx: int, dy: int) -> ShipFrame {
        if dy < 0 {
            if dx == 0 {
                ShipFrame::UpNorm
            } else if dx > 0 {
                ShipFrame::UpFast
            } else {
                ShipFrame::UpSlow
            }
        } else if dy == 0 {
            if dx == 0 {
                ShipFrame::MidNorm
            } else if dx > 0 {
                ShipFrame::MidFast
            } else {
                ShipFrame::MidSlow
            }
        } else {
            if dx == 0 {
                ShipFrame::DownNorm
            } else if dx > 0 {
                ShipFrame::DownFast
            } else {
                ShipFrame::DownSlow
            }
        }
    }

    /// Position of the picture in the ship's sprite sheet, row by row.
    pub fn index(self) -> (i: usize)
        ensures
            i == self.spec_index(),
            i < 9,
    {
        match self {
            ShipFrame::UpNorm => 0,
            ShipFrame::UpFast => 1,
            ShipFrame::UpSlow => 2,
            ShipFrame::MidNorm => 3,
            ShipFrame::MidFast => 4,
            ShipFrame::MidSlow => 5,
            ShipFrame::DownNorm => 6,
            ShipFrame::DownFast => 7,
            ShipFrame::DownSlow => 8,
        }
    }

    /// The picture for a ship that moves by `(dx, dy)`.
    pub fn select(dx: i64, dy: i64) -> (frame: ShipFrame)
        ensures
            frame == ShipFrame::spec_select(dx as int, dy as int),
    {
        if dx == 0 && dy < 0 {
            ShipFrame::UpNorm
        } else if dx > 0 && dy < 0 {
            ShipFrame::UpFast
        } else if dx < 0 && dy < 0 {
            ShipFrame::UpSlow
        } else if dx == 0 && dy == 0 {
            ShipFrame::MidNorm
        } else if dx > 0 && dy == 0 {
            ShipFrame::MidFast
        } else if dx < 0 && dy == 0 {
            ShipFrame::MidSlow
        } else if dx == 0 && dy > 0 {
            ShipFrame::DownNorm
        } else if dx > 0 && dy > 0 {
            ShipFrame::DownFast
        } else {
            ShipFrame::DownSlow
        }
    }
}

/// `share` is `moved` divided by the square root of two, rounded down.
pub open spec fn is_diagonal_share(moved: int, share: int) -> bool {
    &&& 0 <= share
    &&& 2 * (share * share) <= moved * moved
    &&& moved * moved < 2 * ((share + 1) * (share + 1))
}

/// `moved` divided by the square root of two, rounded down: what each axis
/// gets of a move of length `moved` along the diagonal.
pub open spec fn spec_diagonal_share(moved: int) -> int {
    choose|share: int| is_diagonal_share(moved, share)
}

/// Only one number is the diagonal share of a move.
pub proof fn lemma_diagonal_share_unique(moved: int, a: int, b: int)
    requires
        is_diagonal_share(moved, a),
        is_diagonal_share(moved, b),
    ensures
        a == b,
{
    if a < b {
        assert((a + 1) * (a + 1) <= b * b) by (nonlinear_arith)
            requires
                0 <= a + 1 <= b,
        ;
    }
    if b < a {
        assert((b + 1) * (b + 1) <= a * a) by (nonlinear_arith)
            requires
                0 <= b + 1 <= a,
        ;
    }
}

/// The diagonal share of a move that is not zero is smaller than the move, and not zero
/// once the move is two units or longer.
pub proof fn lemma_diagonal_share_bounds(moved: int, share: int)
    requires
        moved > 0,
        is_diagonal_share(moved, share),
    ensures
        share < moved,
        moved >= 2 ==> share > 0,
{
    if share >= moved {
        assert(share * share >= moved * moved) by (nonlinear_arith)
            requires
                share >= moved > 0,
        ;
        assert(moved * moved > 0) by (nonlinear_arith)
            requires
                moved > 0,
        ;
    }
    if moved >= 2 && share == 0 {
        assert(moved * moved >= 4) by (nonlinear_arith)
            requires
                moved >= 2,
        ;
        assert((share + 1) * (share + 1) == 1) by (nonlinear_arith)
            requires
                share == 0,
        ;
    }
}

/// `moved` divided by the square root of two, rounded down.
pub fn diagonal_share(moved: i64) -> (share: i64)
    requires
        0 <= moved,
    ensures
        is_diagonal_share(moved as int, share as int),
        share == spec_diagonal_share(moved as int),
        share <= moved,
{
    assert(0 <= moved * moved <= 0x8000_0000_0000_0000 * 0x8000_0000_0000_0000)
        by (nonlinear_arith)
        requires
            0 <= moved <= 0x8000_0000_0000_0000,
    ;
    let target: u128 = moved as u128 * moved as u128;
    let mut lo: u64 = 0;
    let mut hi: u64 = moved as u64 + 1;
    assert(moved * moved < 2 * ((moved + 1) * (moved + 1))) by (nonlinear_arith)
        requires
            moved >= 0,
    ;
    while hi - lo > 1
        invariant
            0 <= lo < hi <= moved + 1,
            0 <= moved,
            target == moved * moved,
            2 * (lo * lo) <= target,
            target < 2 * (hi * hi),
        decreases hi - lo,
    {
        let mid: u64 = lo + (hi - lo) / 2;
        assert(0 <= mid * mid <= 0x8000_0000_0000_0000 * 0x8000_0000_0000_0000)
            by (nonlinear_arith)
            requires
                0 <= mid <= 0x8000_0000_0000_0000,
        ;
        let square: u128 = mid as u128 * mid as u128;
        if 2 * square <= target {
            lo = mid;
        } else {
            hi = mid;
        }
    }
    proof {
        assert(hi == lo + 1);
        assert(is_diagonal_share(moved as int, lo as int));
        lemma_diagonal_share_unique(moved as int, lo as int, spec_diagonal_share(moved as int));
    }
    lo as i64
}

/// How far one axis moves: nowhere when its two keys are both down or both
/// up, else by `moved` towards the key that is down.
pub open spec fn axis_step(negative: bool, positive: bool, moved: int) -> int {
    if negative == positive {
        0
    } else if negative {
        -moved
    } else {
        moved
    }
}

/// The ship moves along both axes at once.
pub open spec fn is_diagonal(keys: KeyState) -> bool {
    (keys.key_up != keys.key_down) && (keys.key_left != keys.key_right)
}

/// How far an axis that moves is moved in `elapsed`: the full speed along one
/// axis, the diagonal share of it along two.
pub open spec fn spec_moved(keys: KeyState, elapsed: int) -> int {
    if is_diagonal(keys) {
        spec_diagonal_share(PLAYER_SPEED * elapsed)
    } else {
        PLAYER_SPEED * elapsed
    }
}

/// The ship's move `(dx, dy)` for the keys held during `elapsed`.
pub open spec fn spec_displacement(keys: KeyState, elapsed: int) -> (int, int) {
    let moved = spec_moved(keys, elapsed);
    (
        axis_step(keys.key_left, keys.key_right, moved),
        axis_step(keys.key_up, keys.key_down, moved),
    )
}

/// The ship's move `(dx, dy)` for the keys held during `elapsed`.
pub fn displacement(keys: &KeyState, elapsed: i64) -> (step: (i64, i64))
    requires
        0 <= elapsed,
        PLAYER_SPEED * elapsed <= i64::MAX,
    ensures
        step.0 == spec_displacement(*keys, elapsed as int).0,
        step.1 == spec_displacement(*keys, elapsed as int).1,
        -PLAYER_SPEED * elapsed <= step.0 <= PLAYER_SPEED * elapsed,
        -PLAYER_SPEED * elapsed <= step.1 <= PLAYER_SPEED * elapsed,
{
    let diagonal = (keys.key_up ^ keys.key_down) && (keys.key_left ^ keys.key_right);
    let full: i64 = PLAYER_SPEED * elapsed;
    let moved: i64 = if diagonal {
        diagonal_share(full)
    } else {
        full
    };
    let dx: i64 = match (keys.key_left, keys.key_right) {
        (true, true) | (false, false) => 0,
        (true, false) => -moved,
        (false, true) => moved,
    };
    let dy: i64 = match (keys.key_up, keys.key_down) {
        (true, true) | (false, false) => 0,
        (true, false) => -moved,
        (false, true) => moved,
    };
    (dx, dy)
}

/// Over any time that is not zero, an axis stands still exactly when its two
/// keys are both down or both up, and an axis moves by the diagonal share of
/// the full step exactly when the ship moves along both axes; an axis that
/// moves alone moves by the full step.
pub proof fn lemma_displacement(keys: KeyState, elapsed: int)
    requires
        elapsed > 0,
    ensures
        ({
            let (dx, dy) = spec_displacement(keys, elapsed);
            let full = PLAYER_SPEED * elapsed;
            let share = spec_diagonal_share(full);
            &&& is_diagonal_share(full, share)
            &&& 0 < share < full
            &&& dx == 0 <==> keys.key_left == keys.key_right
            &&& dy == 0 <==> keys.key_up == keys.key_down
            &&& is_diagonal(keys) <==> (dx == share || dx == -share)
            &&& is_diagonal(keys) <==> (dy == share || dy == -share)
            &&& !is_diagonal(keys) ==> dx == 0 || dx == full || dx == -full
            &&& !is_diagonal(keys) ==> dy == 0 || dy == full || dy == -full
        }),
{
    let full = PLAYER_SPEED * elapsed;
    lemma_diagonal_share_exists(full);
    let share = spec_diagonal_share(full);
    lemma_diagonal_share_bounds(full, share);
}

/// Every move that is not negative has a diagonal share.
pub proof fn lemma_diagonal_share_exists(moved: int)
    requires
        moved >= 0,
    ensures
        is_diagonal_share(moved, spec_diagonal_share(moved)),
    decreases moved,
{
    let share = diagonal_share_from(moved, 0);
    assert(is_diagonal_share(moved, share));
}

/// The diagonal share of `moved`, found by counting up from `from`.
proof fn diagonal_share_from(moved: int, from: int) -> (share: int)
    requires
        moved >= 0,
        0 <= from,
        2 * (from * from) <= moved * moved,
    ensures
        is_diagonal_share(moved, share),
    decreases moved + 1 - from,
{
    if moved * moved < 2 * ((from + 1) * (from + 1)) {
        from
    } else {
        if from >= moved {
            assert((from + 1) * (from + 1) > moved * moved) by (nonlinear_arith)
                requires
                    from >= moved >= 0,
            ;
        }
        diagonal_share_from(moved, from + 1)
    }
}

/// A bullet: a small rectangle that flies to the right.
#[derive(Clone, Copy, Debug, PartialEq, Eq, Structural)]
pub struct RectBullet {
    pub rect: Rectangle,
}

impl RectBullet {
    /// Where the bullet's left edge is after `dt`.
    pub open spec fn spec_next_x(self, dt: int) -> int {
        self.rect.x + BULLET_SPEED * dt
    }

    /// The bullet after `dt` on an output `width` wide: moved right by
    /// `BULLET_SPEED * dt`, and gone once its left edge is past the output.
    pub open spec fn spec_update(self, width: int, dt: int) -> Option<RectBullet> {
        if self.spec_next_x(dt) > width {
            None
        } else {
            Some(
                RectBullet {
                    rect: Rectangle {
                        x: self.spec_next_x(dt) as i64,
                        y: self.rect.y,
                        w: self.rect.w,
                        h: self.rect.h,
                    },
                },
            )
        }
    }

    /// Moves the bullet for `dt`; `None` once it has left the output to the
    /// right. Time may run backwards as far as the bullet's place stays representable.
    pub fn update(self, phi: &Phi, dt: i64) -> (next: Option<RectBullet>)
        requires
            self.rect.x + BULLET_SPEED * dt >= i64::MIN,
        ensures
            next == self.spec_update(phi.spec_output_size().0 as int, dt as int),
            next is None <==> self.rect.x + BULLET_SPEED * dt > phi.spec_output_size().0,
            next matches Some(b) ==> b.rect.x == self.rect.x + BULLET_SPEED * dt && b.rect.y
                == self.rect.y && b.rect.w == self.rect.w && b.rect.h == self.rect.h,
    {
        let (w, _) = phi.output_size();
        let x: i128 = self.rect.x as i128 + BULLET_SPEED as i128 * dt as i128;
        if x > w as i128 {
            None
        } else {
            Some(RectBullet { rect: Rectangle { x: x as i64, ..self.rect } })
        }
    }

    /// Draws the bullet as a filled yellow rectangle.
    pub fn render(self, phi: &mut Phi)
        ensures
            final(phi).events == old(phi).events,
            final(phi).renderer.spec_output_size() == old(phi).renderer.spec_output_size(),
            final(phi).renderer@ == old(phi).renderer@ + self.spec_drawn(),
    {
        phi.renderer.set_draw_color(Color { r: 230, g: 230, b: 30 });
        phi.renderer.fill_rect(self.rect);
        assert(phi.renderer@ =~= old(phi).renderer@ + self.spec_drawn());
    }

    /// The commands that draw the bullet.
    pub open spec fn spec_drawn(self) -> Seq<DrawCommand> {
        seq![
            DrawCommand::SetDrawColor(Color { r: 230, g: 230, b: 30 }),
            DrawCommand::FillRect(self.rect),
        ]
    }

    /// The bullet's place and size.
    pub fn rect(&self) -> (rect: Rectangle)
        ensures
            rect == self.rect,
    {
        self.rect
    }
}

/// The bullets that are still on an output `width` wide after `dt`, each
/// moved, in their old order.
pub open spec fn spec_update_bullets(bullets: Seq<RectBullet>, width: int, dt: int) -> Seq<
    RectBullet,
>
    decreases bullets.len(),
{
    if bullets.len() == 0 {
        Seq::empty()
    } else {
        let earlier = spec_update_bullets(bullets.drop_last(), width, dt);
        match bullets.last().spec_update(width, dt) {
            Some(b) => earlier.push(b),
            None => earlier,
        }
    }
}

/// Moves every bullet for `dt` and keeps those still on the output.
pub fn update_bullets(bullets: &Vec<RectBullet>, phi: &Phi, dt: i64) -> (kept: Vec<RectBullet>)
    requires
        0 <= dt,
    ensures
        kept@ == spec_update_bullets(bullets@, phi.spec_output_size().0 as int, dt as int),
{
    let mut kept: Vec<RectBullet> = Vec::new();
    let mut i: usize = 0;
    while i < bullets.len()
        invariant
            i <= bullets.len(),
            0 <= dt,
            kept@ == spec_update_bullets(
                bullets@.take(i as int),
                phi.spec_output_size().0 as int,
                dt as int,
            ),
        decreases bullets.len() - i,
    {
        assert(bullets@.take(i + 1).drop_last() =~= bullets@.take(i as int));
        assert(BULLET_SPEED * dt >= 0) by (nonlinear_arith)
            requires
                dt >= 0,
        ;
        if let Some(b) = bullets[i].update(phi, dt) {
            kept.push(b);
        }
        i += 1;
    }
    assert(bullets@.take(i as int) =~= bullets@);
    kept
}

/// A bullet whose left edge would pass the right edge of the output is not
/// among the bullets of the next frame's collection; every other bullet is,
/// moved right by exactly `BULLET_SPEED * dt` and otherwise unchanged; and
/// nothing else is in the collection.
pub proof fn lemma_update_bullets(bullets: Seq<RectBullet>, width: int, dt: int)
    requires
        0 <= dt,
        width <= i64::MAX,
    ensures
        spec_update_bullets(bullets, width, dt).len() <= bullets.len(),
        forall|i: int|
            0 <= i < bullets.len() && (#[trigger] bullets[i]).spec_next_x(dt) <= width
                ==> spec_update_bullets(bullets, width, dt).contains(
                RectBullet {
                    rect: Rectangle {
                        x: (bullets[i].rect.x + BULLET_SPEED * dt) as i64,
                        y: bullets[i].rect.y,
                        w: bullets[i].rect.w,
                        h: bullets[i].rect.h,
                    },
                },
            ),
        forall|j: int|
            0 <= j < spec_update_bullets(bullets, width, dt).len() ==> is_moved_bullet(
                bullets,
                width,
                dt,
                #[trigger] spec_update_bullets(bullets, width, dt)[j],
            ),
    decreases bullets.len(),
{
    let kept = spec_update_bullets(bullets, width, dt);
    if bullets.len() > 0 {
        let front = bullets.drop_last();
        let earlier = spec_update_bullets(front, width, dt);
        lemma_update_bullets(front, width, dt);
        assert forall|i: int|
            0 <= i < bullets.len() && (#[trigger] bullets[i]).spec_next_x(dt)
                <= width implies kept.contains(bullets[i].spec_update(width, dt).unwrap()) by {
            let moved = bullets[i].spec_update(width, dt).unwrap();
            if i < front.len() {
                assert(front[i] == bullets[i]);
                let j = choose|j: int| 0 <= j < earlier.len() && earlier[j] == moved;
                assert(kept[j] == moved);
            } else {
                assert(kept[kept.len() - 1] == moved);
            }
        }
        assert forall|j: int| 0 <= j < kept.len() implies is_moved_bullet(
            bullets,
            width,
            dt,
            #[trigger] kept[j],
        ) by {
            if j < earlier.len() {
                assert(is_moved_bullet(front, width, dt, earlier[j]));
                let i = choose|i: int|
                    0 <= i < front.len() && front[i].spec_update(width, dt) == Some(earlier[j]);
                assert(bullets[i] == front[i]);
            } else {
                let i = bullets.len() - 1;
                assert(bullets[i].spec_update(width, dt) == Some(kept[j]));
                assert(bullets[i].rect.x <= bullets[i].spec_next_x(dt)) by (nonlinear_arith)
                    requires
                        bullets[i].spec_next_x(dt) == bullets[i].rect.x + BULLET_SPEED * dt,
                        dt >= 0,
                ;
            }
        }
    }
}

/// `bullet` is one of `bullets` moved for `dt`, and is on an output `width` wide.
pub open spec fn is_moved_bullet(
    bullets: Seq<RectBullet>,
    width: int,
    dt: int,
    bullet: RectBullet,
) -> bool {
    &&& bullet.rect.x <= width
    &&& exists|i: int|
        0 <= i < bullets.len() && (#[trigger] bullets[i]).spec_update(width, dt) == Some(bullet)
}

/// Sixty-four bits from `rand::random::<u64>()`, which reads the thread's
/// generator. Nothing is claimed of the value: every word can come back.
/// The call panics only where the system has no entropy to seed the generator.
#[verifier::external_body]
fn random_bits() -> (bits: u64) {
    rand::random::<u64>()
}

/// The three random words that one respawn of the asteroid uses up.
#[derive(Clone, Copy, Debug, PartialEq, Eq, Structural)]
pub struct Draws {
    /// Decides the speed of the animation.
    pub fps: u64,
    /// Decides the height at which the asteroid comes back.
    pub y: u64,
    /// Decides the speed of the asteroid.
    pub vel: u64,
}

impl Draws {
    /// Three fresh random words.
    pub fn random() -> (draws: Draws) {
        let fps = random_bits();
        let y = random_bits();
        let vel = random_bits();
        Draws { fps, y, vel }
    }
}

/// The numerator of the fraction in `[0, 1)` that a random word stands for:
/// its low 52 bits, over `FRACTION_ONE`.
pub open spec fn fraction(bits: u64) -> int {
    bits as int % FRACTION_ONE as int
}

/// The fraction of `bits` times `range`, rounded towards zero.
pub open spec fn spec_spread(bits: u64, range: int) -> int {
    if range >= 0 {
        (fraction(bits) * range) / (FRACTION_ONE as int)
    } else {
        -((fraction(bits) * (-range)) / (FRACTION_ONE as int))
    }
}

/// A random fraction of a range lies between zero and the range, the range itself left out.
pub proof fn lemma_spread_bounds(bits: u64, range: int)
    ensures
        range > 0 ==> 0 <= spec_spread(bits, range) < range,
        range == 0 ==> spec_spread(bits, range) == 0,
        range < 0 ==> range < spec_spread(bits, range) <= 0,
{
    let f = fraction(bits);
    let one = FRACTION_ONE as int;
    let size = if range >= 0 {
        range
    } else {
        -range
    };
    assert(0 <= f < one);
    assert(0 <= f * size && f * size <= (one - 1) * size) by (nonlinear_arith)
        requires
            0 <= f <= one - 1,
            size >= 0,
    ;
    vstd::arithmetic::div_mod::lemma_div_pos_is_pos(f * size, one);
    if size > 0 {
        assert(f * size < one * size) by (nonlinear_arith)
            requires
                (f * size) <= (one - 1) * size,
                size > 0,
        ;
        vstd::arithmetic::div_mod::lemma_div_multiples_vanish(size, one);
        vstd::arithmetic::div_mod::lemma_div_is_ordered(f * size, one * size - 1, one);
        vstd::arithmetic::div_mod::lemma_div_multiples_vanish_fancy(size - 1, one - 1, one);
        assert(one * (size - 1) + (one - 1) == one * size - 1) by (nonlinear_arith);
    } else {
        assert(f * size == 0) by (nonlinear_arith)
            requires
                size == 0,
        ;
    }
}

/// The fraction of `bits` times `range`, rounded towards zero.
pub fn spread(bits: u64, range: i64) -> (part: i64)
    ensures
        part == spec_spread(bits, range as int),
        range > 0 ==> 0 <= part < range,
        range == 0 ==> part == 0,
        range < 0 ==> range < part <= 0,
{
    proof {
        lemma_spread_bounds(bits, range as int);
    }
    let f: u128 = (bits % FRACTION_ONE) as u128;
    if range >= 0 {
        assert(f * range <= 0x10_0000_0000_0000 * 0x8000_0000_0000_0000) by (nonlinear_arith)
            requires
                0 <= f <= 0x10_0000_0000_0000,
                0 <= range <= 0x8000_0000_0000_0000,
        ;
        let part: u128 = (f * range as u128) / (FRACTION_ONE as u128);
        part as i64
    } else {
        let size: u128 = (-(range as i128)) as u128;
        assert(f * size <= 0x10_0000_0000_0000 * 0x8000_0000_0000_0000) by (nonlinear_arith)
            requires
                0 <= f <= 0x10_0000_0000_0000,
                0 <= size <= 0x8000_0000_0000_0000,
        ;
        let part: u128 = (f * size) / (FRACTION_ONE as u128);
        -(part as i64)
    }
}

/// The `k`-th frame of the asteroid's sprite sheet, counted row by row.
pub open spec fn asteroid_cell(k: int) -> Rectangle {
    Rectangle {
        x: (ASTEROID_SIDE * (k % (ASTEROIDS_WIDE as int))) as i64,
        y: (ASTEROID_SIDE * (k / (ASTEROIDS_WIDE as int))) as i64,
        w: ASTEROID_SIDE,
        h: ASTEROID_SIDE,
    }
}

/// `frames` are the first frames of the asteroid's animation, cut from `sheet`.
pub open spec fn cut_from_sheet(sheet: Sprite, frames: Seq<Sprite>) -> bool {
    forall|k: int|
        0 <= k < frames.len() ==> {
            &&& (#[trigger] frames[k]).wf()
            &&& frames[k].spec_texture() == sheet.spec_texture()
            &&& frames[k].spec_source().x == sheet.spec_offset(asteroid_cell(k)).0
            &&& frames[k].spec_source().y == sheet.spec_offset(asteroid_cell(k)).1
            &&& frames[k].spec_source().w == ASTEROID_SIDE
            &&& frames[k].spec_source().h == ASTEROID_SIDE
        }
}

/// `sheet` is large enough for the first `count` frames of the asteroid's animation.
pub open spec fn holds_cells(sheet: Sprite, count: int) -> bool {
    forall|k: int| 0 <= k < count ==> sheet.spec_holds(#[trigger] asteroid_cell(k))
}

/// `sheet` is large enough for every frame of the asteroid's animation.
pub open spec fn holds_all_cells(sheet: Sprite) -> bool {
    holds_cells(sheet, ASTEROIDS_TOTAL as int)
}

/// The asteroid: one obstacle that drifts to the left and comes back from the right.
#[derive(Clone, Debug)]
pub struct Asteroid {
    sprite: AnimatedSprite,
    rect: Rectangle,
    vel: i64,
}

impl Asteroid {
    /// The asteroid's animation.
    pub closed spec fn spec_sprite(&self) -> AnimatedSprite {
        self.sprite
    }

    /// The asteroid's place and size.
    pub closed spec fn spec_rect(&self) -> Rectangle {
        self.rect
    }

    /// The asteroid's speed to the left, in length units per second.
    pub closed spec fn spec_vel(&self) -> i64 {
        self.vel
    }

    /// The asteroid has its full animation and its size, is no farther right
    /// than an output reaches, and drifts at a speed that a respawn can give
    /// it. It may have left the output to the left.
    pub open spec fn placed(&self) -> bool {
        &&& self.spec_sprite().wf()
        &&& self.spec_sprite().spec_frames() == ASTEROIDS_TOTAL
        &&& self.spec_rect().w == ASTEROID_SIDE
        &&& self.spec_rect().h == ASTEROID_SIDE
        &&& self.spec_rect().x <= MAX_LENGTH
        &&& -MAX_LENGTH <= self.spec_rect().y <= MAX_LENGTH
        &&& 50 * UNIT <= self.spec_vel() < 150 * UNIT
    }

    /// What holds of the asteroid between frames: it is placed, and has not
    /// yet wholly left the output to the left.
    pub open spec fn inv(&self) -> bool {
        &&& self.placed()
        &&& -ASTEROID_SIDE < self.spec_rect().x
    }

    /// The time per frame that a respawn with `draws` sets: a second
    /// divided by a random rate in `[10, 30)` frames per second, which is
    /// ten plus twenty times the fraction drawn, rounded towards zero.
    pub open spec fn spec_respawn_delay(draws: Draws) -> int {
        (UNIT * FRACTION_ONE) / (10 * FRACTION_ONE + 20 * fraction(draws.fps))
    }

    /// The speed that a respawn with `draws` sets: a random speed in
    /// `[50, 150)` pixels per second.
    pub open spec fn spec_respawn_vel(draws: Draws) -> int {
        50 * UNIT + spec_spread(draws.vel, 100 * UNIT)
    }

    /// Where a respawn with `draws` puts the asteroid on an output of the
    /// given size: at the right edge, at a random height that keeps it on the output.
    pub open spec fn spec_respawn_rect(size: (i64, i64), draws: Draws) -> Rectangle {
        Rectangle {
            x: size.0,
            y: spec_spread(draws.y, size.1 - ASTEROID_SIDE) as i64,
            w: ASTEROID_SIDE,
            h: ASTEROID_SIDE,
        }
    }

    /// `after` is `before` respawned with `draws` on an output of the given
    /// size: the animation keeps its frames and its clock.
    pub open spec fn spec_respawned(
        before: Asteroid,
        size: (i64, i64),
        draws: Draws,
        after: Asteroid,
    ) -> bool {
        &&& after.spec_rect() == Asteroid::spec_respawn_rect(size, draws)
        &&& after.spec_vel() == Asteroid::spec_respawn_vel(draws)
        &&& after.spec_sprite().spec_sprites() == before.spec_sprite().spec_sprites()
        &&& after.spec_sprite().spec_current_time() == before.spec_sprite().spec_current_time()
        &&& after.spec_sprite().spec_frame_delay() == Asteroid::spec_respawn_delay(draws)
    }

    /// How far the asteroid drifts in `dt`, rounded towards zero.
    pub open spec fn spec_drift(&self, dt: int) -> int {
        (dt * self.spec_vel()) / (UNIT as int)
    }

    /// Where the asteroid's left edge is after `dt`.
    pub open spec fn spec_next_x(&self, dt: int) -> int {
        self.spec_rect().x - self.spec_drift(dt)
    }

    /// `after` is `before` after `dt` without a respawn: the asteroid has
    /// drifted to the left and its animation has run on.
    pub open spec fn spec_drifted(before: Asteroid, dt: int, after: Asteroid) -> bool {
        &&& after.spec_rect().x == before.spec_next_x(dt)
        &&& after.spec_rect().y == before.spec_rect().y
        &&& after.spec_rect().w == before.spec_rect().w
        &&& after.spec_rect().h == before.spec_rect().h
        &&& after.spec_vel() == before.spec_vel()
        &&& after.spec_sprite().spec_sprites() == before.spec_sprite().spec_sprites()
        &&& after.spec_sprite().spec_frame_delay() == before.spec_sprite().spec_frame_delay()
        &&& after.spec_sprite().spec_current_time() == advanced_time(
            before.spec_sprite().spec_current_time() as int,
            dt,
            before.spec_sprite().spec_frame_delay() as int,
            before.spec_sprite().spec_frames() as int,
        )
    }

    /// `after` is `before` one frame of `dt` later, on an output of the given
    /// size. The animation has run on. Where the drift leaves the asteroid's
    /// left edge at `-ASTEROID_SIDE` or beyond, the asteroid is respawned
    /// with `draws`; else it has drifted.
    pub open spec fn spec_updated(
        before: Asteroid,
        size: (i64, i64),
        dt: int,
        draws: Draws,
        after: Asteroid,
    ) -> bool {
        if before.spec_next_x(dt) <= -ASTEROID_SIDE {
            &&& after.spec_rect() == Asteroid::spec_respawn_rect(size, draws)
            &&& after.spec_vel() == Asteroid::spec_respawn_vel(draws)
            &&& after.spec_sprite().spec_sprites() == before.spec_sprite().spec_sprites()
            &&& after.spec_sprite().spec_frame_delay() == Asteroid::spec_respawn_delay(draws)
            &&& after.spec_sprite().spec_current_time() == advanced_time(
                before.spec_sprite().spec_current_time() as int,
                dt,
                before.spec_sprite().spec_frame_delay() as int,
                before.spec_sprite().spec_frames() as int,
            )
        } else {
            Asteroid::spec_drifted(before, dt, after)
        }
    }

    /// The asteroid's animation, cut from its sprite sheet row by row, at a
    /// rate of `fps` millionths of a frame per second. Fails where the sheet
    /// is too small for a frame, and where the rate is zero or is refused.
    pub fn get_sprite(sheet: &Sprite, fps: i64) -> (made: Result<AnimatedSprite, ViewError>)
        requires
            sheet.wf(),
        ensures
            match made {
                Ok(a) => {
                    &&& holds_all_cells(*sheet)
                    &&& fps != 0
                    &&& a.wf()
                    &&& a.spec_frames() == ASTEROIDS_TOTAL
                    &&& cut_from_sheet(*sheet, a.spec_sprites())
                    &&& a.spec_frame_delay() == delay_of_fps(fps as int)
                    &&& a.spec_current_time() == 0
                },
                Err(ViewError::Geometry(e)) => {
                    &&& !holds_all_cells(*sheet)
                    &&& e == GeometryError::RegionOutOfBounds
                },
                Err(ViewError::Configuration(e)) => {
                    &&& holds_all_cells(*sheet)
                    &&& if fps == 0 {
                        e == ConfigurationError::ZeroFps
                    } else {
                        animation_error(ASTEROIDS_TOTAL as nat, delay_of_fps(fps as int)) == Some(
                            e,
                        )
                    }
                },
            },
    {
        let mut frames: Vec<Sprite> = Vec::with_capacity(ASTEROIDS_TOTAL);
        let mut yth: usize = 0;
        while yth < ASTEROIDS_HIGH
            invariant
                sheet.wf(),
                yth <= ASTEROIDS_HIGH,
                frames@.len() == if ASTEROIDS_WIDE * yth < ASTEROIDS_TOTAL {
                    ASTEROIDS_WIDE * yth
                } else {
                    ASTEROIDS_TOTAL as int
                },
                holds_cells(*sheet, frames@.len() as int),
                cut_from_sheet(*sheet, frames@),
            decreases ASTEROIDS_HIGH - yth,
        {
            let mut xth: usize = 0;
            while xth < ASTEROIDS_WIDE && ASTEROIDS_WIDE * yth + xth < ASTEROIDS_TOTAL
                invariant
                    sheet.wf(),
                    yth < ASTEROIDS_HIGH,
                    xth <= ASTEROIDS_WIDE,
                    frames@.len() == ASTEROIDS_WIDE * yth + xth,
                    frames@.len() <= ASTEROIDS_TOTAL,
                    holds_cells(*sheet, frames@.len() as int),
                    cut_from_sheet(*sheet, frames@),
                decreases ASTEROIDS_WIDE - xth,
            {
                let ghost k = (ASTEROIDS_WIDE * yth + xth) as int;
                let cell = Rectangle {
                    w: ASTEROID_SIDE,
                    h: ASTEROID_SIDE,
                    x: ASTEROID_SIDE * xth as i64,
                    y: ASTEROID_SIDE * yth as i64,
                };
                assert(cell == asteroid_cell(k));
                match sheet.region(cell) {
                    Some(frame) => {
                        frames.push(frame);
                    },
                    None => {
                        assert(!sheet.spec_holds(asteroid_cell(k)));
                        return Err(ViewError::Geometry(GeometryError::RegionOutOfBounds));
                    },
                }
                xth += 1;
            }
            yth += 1;
        }
        if fps == 0 {
            return Err(ViewError::Configuration(ConfigurationError::ZeroFps));
        }
        match AnimatedSprite::with_fps(frames, fps) {
            Ok(a) => Ok(a),
            Err(e) => Err(ViewError::Configuration(e)),
        }
    }

    /// A new asteroid with the animation cut from `sheet`, placed as a
    /// respawn with fresh random draws places it. Fails exactly when the
    /// sheet is too small for a frame.
    pub fn new(phi: &Phi, sheet: &Sprite) -> (made: Result<Asteroid, ViewError>)
        requires
            sheet.wf(),
        ensures
            match made {
                Ok(a) => exists|draws: Draws| Asteroid::spec_created(*sheet, *phi, draws, a),
                Err(e) => !holds_all_cells(*sheet) && e == ViewError::Geometry(
                    GeometryError::RegionOutOfBounds,
                ),
            },
    {
        let draws = Draws::random();
        let made = Asteroid::new_with(phi, sheet, draws);
        proof {
            if made is Ok {
                assert(Asteroid::spec_created(*sheet, *phi, draws, made->Ok_0));
            }
        }
        made
    }

    /// `made` is a new asteroid with the animation cut from `sheet`, placed by `draws`.
    pub open spec fn spec_created(sheet: Sprite, phi: Phi, draws: Draws, made: Asteroid) -> bool {
        &&& holds_all_cells(sheet)
        &&& made.inv()
        &&& cut_from_sheet(sheet, made.spec_sprite().spec_sprites())
        &&& made.spec_sprite().spec_current_time() == 0
        &&& made.spec_sprite().spec_frame_delay() == Asteroid::spec_respawn_delay(draws)
        &&& made.spec_rect() == Asteroid::spec_respawn_rect(phi.spec_output_size(), draws)
        &&& made.spec_vel() == Asteroid::spec_respawn_vel(draws)
    }

    /// A new asteroid with the animation cut from `sheet`, placed as a
    /// respawn with `draws` places it. Fails exactly when the sheet is too
    /// small for a frame.
    pub fn new_with(phi: &Phi, sheet: &Sprite, draws: Draws) -> (made: Result<Asteroid, ViewError>)
        requires
            sheet.wf(),
        ensures
            match made {
                Ok(a) => Asteroid::spec_created(*sheet, *phi, draws, a),
                Err(e) => !holds_all_cells(*sheet) && e == ViewError::Geometry(
                    GeometryError::RegionOutOfBounds,
                ),
            },
    {
        let sprite = match Asteroid::get_sprite(sheet, UNIT) {
            Ok(sprite) => sprite,
            Err(e) => {
                assert(animation_error(ASTEROIDS_TOTAL as nat, delay_of_fps(UNIT as int)) is None);
                return Err(e);
            },
        };
        let mut asteroid = Asteroid {
            sprite,
            rect: Rectangle { w: 0, h: 0, x: 0, y: 0 },
            vel: 0,
        };
        asteroid.reset_with(phi, draws);
        Ok(asteroid)
    }

    /// The asteroid has its full animation.
    pub open spec fn animated(&self) -> bool {
        &&& self.spec_sprite().wf()
        &&& self.spec_sprite().spec_frames() == ASTEROIDS_TOTAL
    }

    /// Respawns the asteroid at the right edge of the output, with a height,
    /// a speed and an animation rate drawn at random.
    pub fn reset(&mut self, phi: &Phi)
        requires
            old(self).animated(),
        ensures
            final(self).inv(),
            exists|draws: Draws|
                Asteroid::spec_respawned(*old(self), phi.spec_output_size(), draws, *final(self)),
    {
        let draws = Draws::random();
        self.reset_with(phi, draws);
        assert(Asteroid::spec_respawned(*old(self), phi.spec_output_size(), draws, *self));
    }

    /// Respawns the asteroid at the right edge of the output, with the
    /// height, the speed and the animation rate that `draws` decides.
    pub fn reset_with(&mut self, phi: &Phi, draws: Draws)
        requires
            old(self).animated(),
        ensures
            final(self).inv(),
            Asteroid::spec_respawned(*old(self), phi.spec_output_size(), draws, *final(self)),
    {
        let (w, h) = phi.output_size();
        proof {
            lemma_respawn_delay(draws);
        }
        let second: u128 = UNIT as u128 * FRACTION_ONE as u128;
        let rate: u128 = 10 * FRACTION_ONE as u128 + 20 * (draws.fps % FRACTION_ONE) as u128;
        let delay: u128 = second / rate;
        let _ = self.sprite.set_frame_delay(delay as i64);
        self.rect = Rectangle {
            w: ASTEROID_SIDE,
            h: ASTEROID_SIDE,
            x: w,
            y: spread(draws.y, h - ASTEROID_SIDE),
        };
        self.vel = spread(draws.vel, 100 * UNIT) + 50 * UNIT;
    }

    /// Lets the animation run on for `dt`, and lets the asteroid drift for
    /// `dt` unless that takes it wholly past the left edge of the output;
    /// says whether it does.
    fn advance(&mut self, dt: i64) -> (gone: bool)
        requires
            old(self).placed(),
            0 <= dt,
        ensures
            final(self).animated(),
            gone == (old(self).spec_next_x(dt as int) <= -ASTEROID_SIDE),
            gone ==> final(self).spec_rect() == old(self).spec_rect(),
            !gone ==> final(self).inv() && final(self).spec_rect().x == old(self).spec_next_x(
                dt as int,
            ),
            final(self).spec_rect().y == old(self).spec_rect().y,
            final(self).spec_rect().w == old(self).spec_rect().w,
            final(self).spec_rect().h == old(self).spec_rect().h,
            final(self).spec_vel() == old(self).spec_vel(),
            final(self).spec_sprite().spec_sprites() == old(self).spec_sprite().spec_sprites(),
            final(self).spec_sprite().spec_frame_delay() == old(
                self,
            ).spec_sprite().spec_frame_delay(),
            final(self).spec_sprite().spec_current_time() == advanced_time(
                old(self).spec_sprite().spec_current_time() as int,
                dt as int,
                old(self).spec_sprite().spec_frame_delay() as int,
                old(self).spec_sprite().spec_frames() as int,
            ),
    {
        assert(0 <= dt * self.vel <= 0x8000_0000_0000_0000 * 150_000_000) by (nonlinear_arith)
            requires
                0 <= dt <= 0x8000_0000_0000_0000,
                0 <= self.vel <= 150_000_000,
        ;
        proof {
            vstd::arithmetic::div_mod::lemma_div_pos_is_pos(dt * self.vel, UNIT as int);
            vstd::arithmetic::div_mod::lemma_div_is_ordered(
                dt * self.vel,
                0x8000_0000_0000_0000int * 150_000_000int,
                UNIT as int,
            );
        }
        let drift: i128 = (dt as i128 * self.vel as i128) / (UNIT as i128);
        let next: i128 = self.rect.x as i128 - drift;
        self.sprite.add_time(dt);
        if next <= -(ASTEROID_SIDE as i128) {
            true
        } else {
            self.rect.x = next as i64;
            false
        }
    }

    /// Advances the asteroid by one frame of `dt`: it drifts to the left,
    /// and respawns with fresh random draws once it has wholly left the
    /// output, or had left it before.
    pub fn update(&mut self, phi: &Phi, dt: i64)
        requires
            old(self).placed(),
            0 <= dt,
        ensures
            final(self).inv(),
            exists|draws: Draws|
                Asteroid::spec_updated(
                    *old(self),
                    phi.spec_output_size(),
                    dt as int,
                    draws,
                    *final(self),
                ),
            old(self).spec_next_x(dt as int) <= -ASTEROID_SIDE || old(self).spec_rect().x
                <= -ASTEROID_SIDE ==> {
                &&& final(self).spec_rect().x == phi.spec_output_size().0
                &&& final(self).spec_rect().w == ASTEROID_SIDE
                &&& final(self).spec_rect().h == ASTEROID_SIDE
                &&& 50 * UNIT <= final(self).spec_vel() < 150 * UNIT
                &&& phi.spec_output_size().1 >= ASTEROID_SIDE ==> 0 <= final(self).spec_rect().y
                    <= phi.spec_output_size().1 - ASTEROID_SIDE
            },
    {
        if self.advance(dt) {
            let ghost between = *self;
            self.reset(phi);
            proof {
                let draws = choose|draws: Draws|
                    Asteroid::spec_respawned(between, phi.spec_output_size(), draws, *self);
                assert(Asteroid::spec_updated(
                    *old(self),
                    phi.spec_output_size(),
                    dt as int,
                    draws,
                    *self,
                ));
                lemma_asteroid_wraparound(
                    *old(self),
                    phi.spec_output_size(),
                    dt as int,
                    draws,
                    *self,
                );
            }
        } else {
            assert(Asteroid::spec_updated(
                *old(self),
                phi.spec_output_size(),
                dt as int,
                Draws { fps: 0, y: 0, vel: 0 },
                *self,
            ));
            proof {
                if old(self).spec_rect().x <= -ASTEROID_SIDE {
                    lemma_asteroid_past_edge(*old(self), dt as int);
                }
            }
        }
    }

    /// Advances the asteroid by one frame of `dt`: it drifts to the left,
    /// and respawns as `draws` decides once it has wholly left the output,
    /// or had left it before.
    pub fn update_with(&mut self, phi: &Phi, dt: i64, draws: Draws)
        requires
            old(self).placed(),
            0 <= dt,
        ensures
            final(self).inv(),
            Asteroid::spec_updated(
                *old(self),
                phi.spec_output_size(),
                dt as int,
                draws,
                *final(self),
            ),
    {
        if self.advance(dt) {
            self.reset_with(phi, draws);
        }
    }

    /// Draws the frame of the animation that is due, at the asteroid's place.
    pub fn render(&self, phi: &mut Phi)
        requires
            self.animated(),
        ensures
            final(phi).events == old(phi).events,
            final(phi).renderer.spec_output_size() == old(phi).renderer.spec_output_size(),
            final(phi).renderer@ == old(phi).renderer@.push(
                self.spec_sprite().drawn(self.spec_rect()),
            ),
    {
        phi.renderer.copy_sprite(&self.sprite, self.rect);
    }

    /// The asteroid's place and size.
    pub fn rect(&self) -> (rect: Rectangle)
        ensures
            rect == self.spec_rect(),
    {
        self.rect
    }

    /// The asteroid's speed to the left, in length units per second.
    pub fn vel(&self) -> (vel: i64)
        ensures
            vel == self.spec_vel(),
    {
        self.vel
    }

    /// The asteroid's animation.
    pub fn sprite(&self) -> (sprite: &AnimatedSprite)
        ensures
            *sprite == self.spec_sprite(),
    {
        &self.sprite
    }
}

/// At a rate that a respawn can draw, a frame stays for more than a
/// thirtieth and no more than a tenth of a second, and one run through the
/// asteroid's animation fits the clock.
pub proof fn lemma_respawn_delay(draws: Draws)
    ensures
        UNIT as int / 30 <= Asteroid::spec_respawn_delay(draws) <= UNIT as int / 10,
        animation_error(ASTEROIDS_TOTAL as nat, Asteroid::spec_respawn_delay(draws)) is None,
{
    let one = FRACTION_ONE as int;
    let second = UNIT * FRACTION_ONE;
    let rate = 10 * one + 20 * fraction(draws.fps);
    assert(10 * one <= rate <= 30 * one);
    vstd::arithmetic::div_mod::lemma_div_is_ordered_by_denominator(second, 10 * one, rate);
    vstd::arithmetic::div_mod::lemma_div_is_ordered_by_denominator(second, rate, 30 * one);
    assert(one == 4_503_599_627_370_496);
    assert(second == 4_503_599_627_370_496_000_000int);
    assert(4_503_599_627_370_496_000_000int / 45_035_996_273_704_960int == 100_000);
    assert(4_503_599_627_370_496_000_000int / 135_107_988_821_114_880int == 33_333);
    let delay = second / rate;
    assert(ASTEROIDS_TOTAL == 143);
    assert((ASTEROIDS_TOTAL as nat) * delay == 143 * delay);
}

/// An asteroid that has wholly left the output to the left is still
/// beyond the left edge after any time that is not negative, as it does
/// not drift to the right.
pub proof fn lemma_asteroid_past_edge(before: Asteroid, dt: int)
    requires
        before.spec_rect().x <= -ASTEROID_SIDE,
        before.spec_vel() >= 0,
        dt >= 0,
    ensures
        before.spec_next_x(dt) <= -ASTEROID_SIDE,
{
    assert(dt * before.spec_vel() >= 0) by (nonlinear_arith)
        requires
            dt >= 0,
            before.spec_vel() >= 0,
    ;
    vstd::arithmetic::div_mod::lemma_div_pos_is_pos(dt * before.spec_vel(), UNIT as int);
}

/// Once a frame has brought the asteroid's left edge to `-ASTEROID_SIDE` or
/// beyond, or has found it there, the asteroid is at the right edge of the
/// output, in its size, at a speed in `[50, 150)` pixels per second, and at a height that
/// keeps it wholly on an output that is tall enough for it.
pub proof fn lemma_asteroid_wraparound(
    before: Asteroid,
    size: (i64, i64),
    dt: int,
    draws: Draws,
    after: Asteroid,
)
    requires
        Asteroid::spec_updated(before, size, dt, draws, after),
        before.spec_next_x(dt) <= -ASTEROID_SIDE || (before.spec_rect().x <= -ASTEROID_SIDE
            && before.spec_vel() >= 0 && dt >= 0),
    ensures
        after.spec_rect().x == size.0,
        after.spec_rect().w == ASTEROID_SIDE,
        after.spec_rect().h == ASTEROID_SIDE,
        50 * UNIT <= after.spec_vel() < 150 * UNIT,
        size.1 >= ASTEROID_SIDE ==> 0 <= after.spec_rect().y <= size.1 - ASTEROID_SIDE,
{
    if before.spec_rect().x <= -ASTEROID_SIDE && before.spec_vel() >= 0 && dt >= 0 {
        lemma_asteroid_past_edge(before, dt);
    }
    lemma_spread_bounds(draws.y, size.1 - ASTEROID_SIDE);
    lemma_spread_bounds(draws.vel, 100 * UNIT);
}

/// The `k`-th picture of the ship's sprite sheet, counted row by row.
pub open spec fn ship_cell(k: int) -> Rectangle {
    Rectangle { x: (SHIP_W * (k % 3)) as i64, y: (SHIP_H * (k / 3)) as i64, w: SHIP_W, h: SHIP_H }
}

/// `sheet` is large enough for the first `count` pictures of the ship.
pub open spec fn holds_ship_cells(sheet: Sprite, count: int) -> bool {
    forall|k: int| 0 <= k < count ==> sheet.spec_holds(#[trigger] ship_cell(k))
}

/// `frames` are the first pictures of the ship, cut from `sheet`.
pub open spec fn cut_from_ship_sheet(sheet: Sprite, frames: Seq<Sprite>) -> bool {
    forall|k: int|
        0 <= k < frames.len() ==> {
            &&& (#[trigger] frames[k]).wf()
            &&& frames[k].spec_texture() == sheet.spec_texture()
            &&& frames[k].spec_source().x == sheet.spec_offset(ship_cell(k)).0
            &&& frames[k].spec_source().y == sheet.spec_offset(ship_cell(k)).1
            &&& frames[k].spec_source().w == SHIP_W
            &&& frames[k].spec_source().h == SHIP_H
        }
}

/// The part of an output of the given size that the ship may move in: the
/// left seven tenths of it.
pub open spec fn movable_region(size: (i64, i64)) -> Rectangle {
    Rectangle { x: 0, y: 0, w: (size.0 * 7 / 10) as i64, h: size.1 }
}

/// Where a ship at `rect` is after the given keys were held for `elapsed`:
/// moved, and then brought back into the movable region. `None` where the
/// ship does not fit the region.
pub open spec fn spec_steered(rect: Rectangle, keys: KeyState, elapsed: int, size: (i64, i64))
    -> Option<Rectangle> {
    let (dx, dy) = spec_displacement(keys, elapsed);
    let region = movable_region(size);
    if rect.fits_in(region) {
        Some(
            Rectangle {
                x: clamp(rect.x + dx, region.x as int, region.right() - rect.w) as i64,
                y: clamp(rect.y + dy, region.y as int, region.bottom() - rect.h) as i64,
                w: rect.w,
                h: rect.h,
            },
        )
    } else {
        None
    }
}

/// A ship that is steered lies within the movable region afterwards, and
/// keeps its size.
pub proof fn lemma_steered_inside(
    rect: Rectangle,
    keys: KeyState,
    elapsed: int,
    size: (i64, i64),
)
    requires
        rect.valid(),
        0 <= size.0 <= MAX_LENGTH,
        0 <= size.1 <= MAX_LENGTH,
    ensures
        spec_steered(rect, keys, elapsed, size) is Some <==> rect.fits_in(movable_region(size)),
        spec_steered(rect, keys, elapsed, size) matches Some(r) ==> {
            &&& movable_region(size).spec_contains(r)
            &&& r.is_translation_of(rect)
        },
{
}

/// A time so long that whatever moves for it at the ship's speed leaves
/// every output: steering for longer ends where steering for this long does.
pub const FAR_ELAPSED: i64 = 100_000_000_000_000;

/// An axis that moves for `FAR_ELAPSED` or longer moves farther than any
/// output reaches.
pub proof fn lemma_far_move(keys: KeyState, elapsed: int)
    requires
        elapsed >= FAR_ELAPSED,
    ensures
        spec_moved(keys, elapsed) > MAX_LENGTH,
{
    let full = PLAYER_SPEED * elapsed;
    lemma_diagonal_share_exists(full);
    let share = spec_diagonal_share(full);
    if 2 * (share + 1) <= full {
        assert((2 * (share + 1)) * (2 * (share + 1)) <= full * full) by (nonlinear_arith)
            requires
                0 <= 2 * (share + 1) <= full,
        ;
        assert((2 * (share + 1)) * (2 * (share + 1)) == 4 * ((share + 1) * (share + 1)))
            by (nonlinear_arith);
        assert((share + 1) * (share + 1) >= 0) by (nonlinear_arith);
    }
}

/// Steering for `FAR_ELAPSED` ends where steering for any longer time
/// does, with the same picture of the ship.
pub proof fn lemma_far_steer(rect: Rectangle, keys: KeyState, elapsed: int, size: (i64, i64))
    requires
        elapsed >= FAR_ELAPSED,
        rect.valid(),
        0 <= rect.x <= MAX_LENGTH,
        0 <= rect.y <= MAX_LENGTH,
        0 <= size.0 <= MAX_LENGTH,
        0 <= size.1 <= MAX_LENGTH,
    ensures
        spec_steered(rect, keys, elapsed, size) == spec_steered(
            rect,
            keys,
            FAR_ELAPSED as int,
            size,
        ),
        ShipFrame::spec_select(
            spec_displacement(keys, elapsed).0,
            spec_displacement(keys, elapsed).1,
        ) == ShipFrame::spec_select(
            spec_displacement(keys, FAR_ELAPSED as int).0,
            spec_displacement(keys, FAR_ELAPSED as int).1,
        ),
{
    lemma_far_move(keys, elapsed);
    lemma_far_move(keys, FAR_ELAPSED as int);
}

/// The two bullets that a ship at `rect` fires, one from each cannon.
pub open spec fn spec_spawn_bullets(rect: Rectangle) -> Seq<RectBullet> {
    seq![
        RectBullet {
            rect: Rectangle {
                x: (rect.x + 30 * UNIT) as i64,
                y: (rect.y + 6 * UNIT) as i64,
                w: BULLET_W,
                h: BULLET_H,
            },
        },
        RectBullet {
            rect: Rectangle {
                x: (rect.x + 30 * UNIT) as i64,
                y: (rect.y + SHIP_H - 10 * UNIT) as i64,
                w: BULLET_W,
                h: BULLET_H,
            },
        },
    ]
}

/// The player's ship.
#[derive(Clone, Debug)]
pub struct Ship {
    rect: Rectangle,
    sprites: Vec<Sprite>,
    current: ShipFrame,
}

impl Ship {
    /// The ship's place and size.
    pub closed spec fn spec_rect(&self) -> Rectangle {
        self.rect
    }

    /// The ship's nine pictures.
    pub closed spec fn spec_sprites(&self) -> Seq<Sprite> {
        self.sprites@
    }

    /// The picture that is shown.
    pub closed spec fn spec_current(&self) -> ShipFrame {
        self.current
    }

    /// The ship has its nine pictures and its size, and is on the output.
    pub open spec fn inv(&self) -> bool {
        &&& self.spec_sprites().len() == 9
        &&& self.spec_rect().w == SHIP_W
        &&& self.spec_rect().h == SHIP_H
        &&& 0 <= self.spec_rect().x <= MAX_LENGTH
        &&& 0 <= self.spec_rect().y <= MAX_LENGTH
    }

    /// The command that draws the ship.
    pub open spec fn spec_drawn(&self) -> DrawCommand {
        self.spec_sprites()[self.spec_current().spec_index()].drawn(self.spec_rect())
    }

    /// A ship at its starting place, with the pictures cut from `sheet` row
    /// by row. Fails exactly when the sheet is too small for a picture.
    pub fn new(sheet: &Sprite) -> (made: Result<Ship, ViewError>)
        requires
            sheet.wf(),
        ensures
            match made {
                Ok(ship) => {
                    &&& holds_ship_cells(*sheet, 9)
                    &&& ship.inv()
                    &&& cut_from_ship_sheet(*sheet, ship.spec_sprites())
                    &&& ship.spec_rect() == (Rectangle {
                        x: 64_000_000,
                        y: 64_000_000,
                        w: SHIP_W,
                        h: SHIP_H,
                    })
                    &&& ship.spec_current() == ShipFrame::MidNorm
                },
                Err(e) => !holds_ship_cells(*sheet, 9) && e == ViewError::Geometry(
                    GeometryError::RegionOutOfBounds,
                ),
            },
    {
        let mut sprites: Vec<Sprite> = Vec::with_capacity(9);
        let mut y: usize = 0;
        while y < 3
            invariant
                sheet.wf(),
                y <= 3,
                sprites@.len() == 3 * y,
                holds_ship_cells(*sheet, sprites@.len() as int),
                cut_from_ship_sheet(*sheet, sprites@),
            decreases 3 - y,
        {
            let mut x: usize = 0;
            while x < 3
                invariant
                    sheet.wf(),
                    y < 3,
                    x <= 3,
                    sprites@.len() == 3 * y + x,
                    holds_ship_cells(*sheet, sprites@.len() as int),
                    cut_from_ship_sheet(*sheet, sprites@),
                decreases 3 - x,
            {
                let ghost k = (3 * y + x) as int;
                let cell = Rectangle {
                    w: SHIP_W,
                    h: SHIP_H,
                    x: SHIP_W * x as i64,
                    y: SHIP_H * y as i64,
                };
                assert(cell == ship_cell(k));
                match sheet.region(cell) {
                    Some(sprite) => {
                        sprites.push(sprite);
                    },
                    None => {
                        assert(!sheet.spec_holds(ship_cell(k)));
                        return Err(ViewError::Geometry(GeometryError::RegionOutOfBounds));
                    },
                }
                x += 1;
            }
            y += 1;
        }
        Ok(
            Ship {
                rect: Rectangle { x: 64_000_000, y: 64_000_000, w: SHIP_W, h: SHIP_H },
                sprites,
                current: ShipFrame::MidNorm,
            },
        )
    }

    /// Moves the ship as the held keys ask for `elapsed`, keeps it within
    /// the movable region of the output, and picks its picture. Fails, and
    /// leaves the ship as it is, exactly when the ship does not fit the region.
    pub fn steer(&mut self, keys: &KeyState, elapsed: i64, size: (i64, i64)) -> (steered: Result<
        (),
        GeometryError,
    >)
        requires
            old(self).inv(),
            0 <= elapsed,
            0 <= size.0 <= MAX_LENGTH,
            0 <= size.1 <= MAX_LENGTH,
        ensures
            final(self).inv(),
            final(self).spec_sprites() == old(self).spec_sprites(),
            match steered {
                Ok(()) => {
                    &&& spec_steered(old(self).spec_rect(), *keys, elapsed as int, size) == Some(
                        final(self).spec_rect(),
                    )
                    &&& final(self).spec_current() == ShipFrame::spec_select(
                        spec_displacement(*keys, elapsed as int).0,
                        spec_displacement(*keys, elapsed as int).1,
                    )
                },
                Err(e) => {
                    &&& e == GeometryError::LargerThanBounds
                    &&& spec_steered(old(self).spec_rect(), *keys, elapsed as int, size) is None
                    &&& *final(self) == *old(self)
                },
            },
    {
        let held = if elapsed > FAR_ELAPSED {
            FAR_ELAPSED
        } else {
            elapsed
        };
        proof {
            if elapsed > FAR_ELAPSED {
                lemma_far_steer(self.rect, *keys, elapsed as int, size);
            }
        }
        let (dx, dy) = displacement(keys, held);
        let moved = Rectangle { x: self.rect.x + dx, y: self.rect.y + dy, ..self.rect };
        let region = Rectangle { x: 0, y: 0, w: size.0 * 7 / 10, h: size.1 };
        match moved.move_inside(region) {
            Some(rect) => {
                self.rect = rect;
                self.current = ShipFrame::select(dx, dy);
                Ok(())
            },
            None => Err(GeometryError::LargerThanBounds),
        }
    }

    /// The two bullets that the ship fires, one from each cannon.
    pub fn spawn_bullets(&self) -> (bullets: Vec<RectBullet>)
        requires
            self.inv(),
        ensures
            bullets@ == spec_spawn_bullets(self.spec_rect()),
    {
        let cannons_x = self.rect.x + 30_000_000;
        let cannon1_y = self.rect.y + 6_000_000;
        let cannon2_y = self.rect.y + SHIP_H - 10_000_000;
        let mut bullets: Vec<RectBullet> = Vec::new();
        bullets.push(
            RectBullet { rect: Rectangle { x: cannons_x, y: cannon1_y, w: BULLET_W, h: BULLET_H } },
        );
        bullets.push(
            RectBullet { rect: Rectangle { x: cannons_x, y: cannon2_y, w: BULLET_W, h: BULLET_H } },
        );
        assert(bullets@ =~= spec_spawn_bullets(self.spec_rect()));
        bullets
    }

    /// Draws the ship's current picture at the ship's place.
    pub fn render(&self, phi: &mut Phi)
        requires
            self.inv(),
        ensures
            final(phi).events == old(phi).events,
            final(phi).renderer.spec_output_size() == old(phi).renderer.spec_output_size(),
            final(phi).renderer@ == old(phi).renderer@.push(self.spec_drawn()),
    {
        phi.renderer.copy_sprite(&self.sprites[self.current.index()], self.rect);
    }

    /// The ship's place and size.
    pub fn rect(&self) -> (rect: Rectangle)
        ensures
            rect == self.spec_rect(),
    {
        self.rect
    }

    /// The picture that is shown.
    pub fn current(&self) -> (frame: ShipFrame)
        ensures
            frame == self.spec_current(),
    {
        self.current
    }
}

/// The images that the game screen is built from.
#[derive(Clone, Copy, Debug, PartialEq, Eq, Structural)]
pub struct GameAssets {
    /// The sheet of the ship's nine pictures, three by three.
    pub spaceship: Sprite,
    /// The sheet of the asteroid's animation.
    pub asteroid: Sprite,
    /// The scenery that a new game starts with.
    pub background: BgSet,
}

impl GameAssets {
    /// Both sheets are well-formed sprites.
    pub open spec fn wf(&self) -> bool {
        self.spaceship.wf() && self.asteroid.wf()
    }

    /// Both sheets are large enough for every picture cut from them.
    pub open spec fn sufficient(&self) -> bool {
        holds_ship_cells(self.spaceship, 9) && holds_all_cells(self.asteroid)
    }
}

/// The commands that draw `bullets`, one bullet after the other.
pub open spec fn spec_bullets_drawn(bullets: Seq<RectBullet>) -> Seq<DrawCommand>
    decreases bullets.len(),
{
    if bullets.len() == 0 {
        Seq::empty()
    } else {
        spec_bullets_drawn(bullets.drop_last()) + bullets.last().spec_drawn()
    }
}

/// The game screen.
#[derive(Clone, Debug)]
pub struct ShipView {
    player: Ship,
    asteroid: Asteroid,
    bullets: Vec<RectBullet>,
    bg: BgSet,
}

impl ShipView {
    /// The player's ship.
    pub closed spec fn spec_player(&self) -> Ship {
        self.player
    }

    /// The asteroid.
    pub closed spec fn spec_asteroid(&self) -> Asteroid {
        self.asteroid
    }

    /// The bullets in flight, oldest first.
    pub closed spec fn spec_bullets(&self) -> Seq<RectBullet> {
        self.bullets@
    }

    /// The scenery.
    pub closed spec fn spec_bg(&self) -> BgSet {
        self.bg
    }

    /// The ship and the asteroid are as they must be between frames.
    pub open spec fn inv(&self) -> bool {
        self.spec_player().inv() && self.spec_asteroid().inv()
    }

    /// Everything that one frame draws, in order: the cleared output, the
    /// two layers of scenery behind the game, the ship, the bullets, the
    /// asteroid, and the layer of scenery before the game.
    pub open spec fn spec_scene(&self, elapsed: i64) -> Seq<DrawCommand> {
        seq![
            DrawCommand::SetDrawColor(Color { r: 0, g: 0, b: 0 }),
            DrawCommand::Clear,
            DrawCommand::Scenery { layer: Layer::Back, sprite: self.spec_bg().back, elapsed },
            DrawCommand::Scenery { layer: Layer::Middle, sprite: self.spec_bg().middle, elapsed },
            self.spec_player().spec_drawn(),
        ] + spec_bullets_drawn(self.spec_bullets()) + seq![
            self.spec_asteroid().spec_sprite().drawn(self.spec_asteroid().spec_rect()),
            DrawCommand::Scenery { layer: Layer::Front, sprite: self.spec_bg().front, elapsed },
        ]
    }

    /// `made` is a new game built from `assets` before the scenery `bg`, its
    /// asteroid placed by `draws`: the ship at its starting place, no bullet in flight.
    pub open spec fn spec_created(
        assets: GameAssets,
        phi: Phi,
        bg: BgSet,
        draws: Draws,
        made: ShipView,
    ) -> bool {
        &&& assets.sufficient()
        &&& made.inv()
        &&& cut_from_ship_sheet(assets.spaceship, made.spec_player().spec_sprites())
        &&& made.spec_player().spec_rect() == (Rectangle {
            x: 64_000_000,
            y: 64_000_000,
            w: SHIP_W,
            h: SHIP_H,
        })
        &&& made.spec_player().spec_current() == ShipFrame::MidNorm
        &&& made.spec_bullets() == Seq::<RectBullet>::empty()
        &&& Asteroid::spec_created(assets.asteroid, phi, draws, made.spec_asteroid())
        &&& made.spec_bg() == bg
    }

    /// A new game before the scenery that comes with `assets`. Fails exactly
    /// when a sheet is too small for a picture cut from it.
    pub fn new(phi: &Phi, assets: &GameAssets) -> (made: Result<ShipView, ViewError>)
        requires
            assets.wf(),
        ensures
            match made {
                Ok(view) => exists|draws: Draws|
                    ShipView::spec_created(*assets, *phi, assets.background, draws, view),
                Err(e) => !assets.sufficient() && e == ViewError::Geometry(
                    GeometryError::RegionOutOfBounds,
                ),
            },
    {
        ShipView::with_background(phi, assets, assets.background)
    }

    /// A new game before the scenery `bg`. Fails exactly when a sheet is too
    /// small for a picture cut from it.
    pub fn with_background(phi: &Phi, assets: &GameAssets, bg: BgSet) -> (made: Result<
        ShipView,
        ViewError,
    >)
        requires
            assets.wf(),
        ensures
            match made {
                Ok(view) => exists|draws: Draws|
                    ShipView::spec_created(*assets, *phi, bg, draws, view),
                Err(e) => !assets.sufficient() && e == ViewError::Geometry(
                    GeometryError::RegionOutOfBounds,
                ),
            },
    {
        let player = match Ship::new(&assets.spaceship) {
            Ok(player) => player,
            Err(e) => {
                return Err(e);
            },
        };
        let asteroid = match Asteroid::new(phi, &assets.asteroid) {
            Ok(asteroid) => asteroid,
            Err(e) => {
                return Err(e);
            },
        };
        let view = ShipView { player, bullets: Vec::new(), asteroid, bg };
        proof {
            let draws = choose|draws: Draws|
                Asteroid::spec_created(assets.asteroid, *phi, draws, asteroid);
            assert(ShipView::spec_created(*assets, *phi, bg, draws, view));
        }
        Ok(view)
    }

    /// `after`, `drawn` and `action` are what one frame of `elapsed` makes of
    /// the game `before` in the context `context`.
    ///
    /// A request to quit ends the game and changes nothing. A ship that does
    /// not fit the movable region is an error and changes nothing. Else the
    /// ship is steered, the bullets fly on, the asteroid drifts or respawns,
    /// a press of the space key fires two bullets from where the ship now
    /// is, and the scene is drawn.
    pub open spec fn spec_rendered(
        before: ShipView,
        context: Phi,
        elapsed: i64,
        after: ShipView,
        drawn: Phi,
        action: Result<ViewAction, ViewError>,
    ) -> bool {
        let size = context.spec_output_size();
        let keys = context.events.current;
        let steered = spec_steered(before.spec_player().spec_rect(), keys, elapsed as int, size);
        if context.events.spec_quit() {
            &&& action == Ok::<ViewAction, ViewError>(ViewAction::Quit)
            &&& after == before
            &&& drawn == context
        } else if steered is None {
            &&& action == Err::<ViewAction, ViewError>(
                ViewError::Geometry(GeometryError::LargerThanBounds),
            )
            &&& after == before
            &&& drawn == context
        } else {
            &&& action == Ok::<ViewAction, ViewError>(ViewAction::Continue)
            &&& after.spec_bg() == before.spec_bg()
            &&& after.spec_player().spec_sprites() == before.spec_player().spec_sprites()
            &&& after.spec_player().spec_rect() == steered.unwrap()
            &&& after.spec_player().spec_current() == ShipFrame::spec_select(
                spec_displacement(keys, elapsed as int).0,
                spec_displacement(keys, elapsed as int).1,
            )
            &&& after.spec_bullets() == spec_update_bullets(
                before.spec_bullets(),
                size.0 as int,
                elapsed as int,
            ) + (if context.events.spec_pressed(Key::Space) {
                spec_spawn_bullets(steered.unwrap())
            } else {
                Seq::empty()
            })
            &&& exists|draws: Draws|
                Asteroid::spec_updated(
                    before.spec_asteroid(),
                    size,
                    elapsed as int,
                    draws,
                    after.spec_asteroid(),
                )
            &&& drawn.events == context.events
            &&& drawn.renderer.spec_output_size() == context.renderer.spec_output_size()
            &&& drawn.renderer@ == context.renderer@ + after.spec_scene(elapsed)
        }
    }

    /// Draws the scene.
    fn draw(&self, phi: &mut Phi, elapsed: i64)
        requires
            self.inv(),
        ensures
            final(phi).events == old(phi).events,
            final(phi).renderer.spec_output_size() == old(phi).renderer.spec_output_size(),
            final(phi).renderer@ == old(phi).renderer@ + self.spec_scene(elapsed),
    {
        phi.renderer.set_draw_color(Color { r: 0, g: 0, b: 0 });
        phi.renderer.clear();
        phi.renderer.scenery(Layer::Back, self.bg.back, elapsed);
        phi.renderer.scenery(Layer::Middle, self.bg.middle, elapsed);
        self.player.render(phi);
        let ghost start = phi.renderer@;
        let mut i: usize = 0;
        while i < self.bullets.len()
            invariant
                i <= self.bullets.len(),
                phi.events == old(phi).events,
                phi.renderer.spec_output_size() == old(phi).renderer.spec_output_size(),
                phi.renderer@ == start + spec_bullets_drawn(self.bullets@.take(i as int)),
            decreases self.bullets.len() - i,
        {
            assert(self.bullets@.take(i + 1).drop_last() =~= self.bullets@.take(i as int));
            self.bullets[i].render(phi);
            assert(phi.renderer@ =~= start + spec_bullets_drawn(self.bullets@.take(i + 1)));
            i += 1;
        }
        assert(self.bullets@.take(i as int) =~= self.bullets@);
        self.asteroid.render(phi);
        phi.renderer.scenery(Layer::Front, self.bg.front, elapsed);
        assert(phi.renderer@ =~= old(phi).renderer@ + self.spec_scene(elapsed));
    }

    /// The player's ship.
    pub fn player(&self) -> (player: &Ship)
        ensures
            *player == self.spec_player(),
    {
        &self.player
    }

    /// The asteroid.
    pub fn asteroid(&self) -> (asteroid: &Asteroid)
        ensures
            *asteroid == self.spec_asteroid(),
    {
        &self.asteroid
    }

    /// The bullets in flight, oldest first.
    pub fn bullets(&self) -> (bullets: &Vec<RectBullet>)
        ensures
            bullets@ == self.spec_bullets(),
    {
        &self.bullets
    }
}

impl View for ShipView {
    open spec fn view_inv(&self) -> bool {
        self.inv()
    }

    open spec fn accepts(&self, elapsed: i64) -> bool {
        elapsed >= 0
    }

    open spec fn rendered(
        before: ShipView,
        context: Phi,
        elapsed: i64,
        after: ShipView,
        drawn: Phi,
        action: Result<ViewAction, ViewError>,
    ) -> bool {
        ShipView::spec_rendered(before, context, elapsed, after, drawn, action)
    }

    fn render(&mut self, phi: &mut Phi, elapsed: i64) -> (action: Result<ViewAction, ViewError>) {
        if phi.events.quit() {
            return Ok(ViewAction::Quit);
        }
        let size = phi.output_size();
        if let Err(e) = self.player.steer(&phi.events.current, elapsed, size) {
            return Err(ViewError::Geometry(e));
        }
        self.bullets = update_bullets(&self.bullets, phi, elapsed);
        self.asteroid.update(phi, elapsed);
        if phi.events.pressed(Key::Space) {
            let mut fresh = self.player.spawn_bullets();
            self.bullets.append(&mut fresh);
        }
        self.draw(phi, elapsed);
        Ok(ViewAction::Continue)
    }
}

} // verus!
