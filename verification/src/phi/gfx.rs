//! Sprites, animations and the list of drawing commands they are rendered to.

use crate::phi::data::{Rectangle, UNIT};
use vstd::prelude::*;

verus! {

/// An opaque colour, one byte per channel.
#[derive(Clone, Copy, Debug, PartialEq, Eq, Structural)]
pub struct Color {
    pub r: u8,
    pub g: u8,
    pub b: u8,
}

/// The three parallax layers of the scenery behind and before the game.
#[derive(Clone, Copy, Debug, PartialEq, Eq, Structural)]
pub enum Layer {
    Back,
    Middle,
    Front,
}

/// One primitive that the rendering backend is asked to perform.
#[derive(Clone, Copy, Debug, PartialEq, Eq, Structural)]
pub enum DrawCommand {
    /// Select the colour used by `Clear` and `FillRect`.
    SetDrawColor(Color),
    /// Fill the whole output with the draw colour.
    Clear,
    /// Fill a rectangle with the draw colour.
    FillRect(Rectangle),
    /// Blit the region `src` of a texture, scaled into `dest`.
    Copy { texture: usize, src: Rectangle, dest: Rectangle },
    /// Scroll one layer of the scenery by `elapsed` and draw it.
    Scenery { layer: Layer, sprite: Sprite, elapsed: i64 },
}

/// Why an object could not be configured.
#[derive(Clone, Copy, Debug, PartialEq, Eq, Structural)]
pub enum ConfigurationError {
    /// An animation was asked to run at a rate of zero.
    ZeroFps,
    /// The time per frame is zero or negative.
    FrameDelayNotPositive,
    /// An animation was given no frames.
    NoFrames,
    /// One run through all frames would not fit the clock.
    AnimationTooLong,
}

/// A drawing surface of a known size that records what is drawn on it.
pub struct Renderer {
    width: u32,
    height: u32,
    commands: Vec<DrawCommand>,
}

impl vstd::view::View for Renderer {
    type V = Seq<DrawCommand>;

    /// The commands recorded so far, oldest first.
    closed spec fn view(&self) -> Seq<DrawCommand> {
        self.commands@
    }
}

impl Renderer {
    /// Width and height of the output, in pixels.
    pub closed spec fn spec_output_size(&self) -> (u32, u32) {
        (self.width, self.height)
    }

    /// An empty surface of `width` by `height` pixels.
    pub fn new(width: u32, height: u32) -> (renderer: Renderer)
        ensures
            renderer@ == Seq::<DrawCommand>::empty(),
            renderer.spec_output_size() == (width, height),
    {
        Renderer { width, height, commands: Vec::new() }
    }

    /// Width and height of the output, in pixels.
    pub fn output_size(&self) -> (size: (u32, u32))
        ensures
            size == self.spec_output_size(),
    {
        (self.width, self.height)
    }

    /// Records that the output now has another size.
    pub fn resize(&mut self, width: u32, height: u32)
        ensures
            final(self)@ == old(self)@,
            final(self).spec_output_size() == (width, height),
    {
        self.width = width;
        self.height = height;
    }

    /// Selects the colour of the fills that follow.
    pub fn set_draw_color(&mut self, color: Color)
        ensures
            final(self)@ == old(self)@.push(DrawCommand::SetDrawColor(color)),
            final(self).spec_output_size() == old(self).spec_output_size(),
    {
        self.commands.push(DrawCommand::SetDrawColor(color));
    }

    /// Fills the whole output with the draw colour.
    pub fn clear(&mut self)
        ensures
            final(self)@ == old(self)@.push(DrawCommand::Clear),
            final(self).spec_output_size() == old(self).spec_output_size(),
    {
        self.commands.push(DrawCommand::Clear);
    }

    /// Fills `rect` with the draw colour.
    pub fn fill_rect(&mut self, rect: Rectangle)
        ensures
            final(self)@ == old(self)@.push(DrawCommand::FillRect(rect)),
            final(self).spec_output_size() == old(self).spec_output_size(),
    {
        self.commands.push(DrawCommand::FillRect(rect));
    }

    /// Blits the region `src` of `texture` into `dest`.
    pub fn copy(&mut self, texture: usize, src: Rectangle, dest: Rectangle)
        ensures
            final(self)@ == old(self)@.push(DrawCommand::Copy { texture, src, dest }),
            final(self).spec_output_size() == old(self).spec_output_size(),
    {
        self.commands.push(DrawCommand::Copy { texture, src, dest });
    }

    /// Scrolls one layer of the scenery by `elapsed` and draws it.
    pub fn scenery(&mut self, layer: Layer, sprite: Sprite, elapsed: i64)
        ensures
            final(self)@ == old(self)@.push(DrawCommand::Scenery { layer, sprite, elapsed }),
            final(self).spec_output_size() == old(self).spec_output_size(),
    {
        self.commands.push(DrawCommand::Scenery { layer, sprite, elapsed });
    }

    /// Hands out everything recorded so far and starts an empty list.
    pub fn take_commands(&mut self) -> (taken: Vec<DrawCommand>)
        ensures
            taken@ == old(self)@,
            final(self)@ == Seq::<DrawCommand>::empty(),
            final(self).spec_output_size() == old(self).spec_output_size(),
    {
        let mut taken: Vec<DrawCommand> = Vec::new();
        std::mem::swap(&mut taken, &mut self.commands);
        taken
    }
}

/// Something that draws itself into a destination rectangle.
pub trait Renderable {
    /// What must hold of the value for it to be drawn.
    spec fn drawable(&self) -> bool;

    /// The command that draws the value into `dest`.
    spec fn drawn(&self, dest: Rectangle) -> DrawCommand;

    /// Appends to `renderer` the command that draws the value into `dest`.
    fn render(&self, renderer: &mut Renderer, dest: Rectangle)
        requires
            self.drawable(),
        ensures
            final(renderer)@ == old(renderer)@.push(self.drawn(dest)),
            final(renderer).spec_output_size() == old(renderer).spec_output_size(),
    ;
}

/// A drawing surface that sprites of type `T` can be copied to.
pub trait CopySprite<T: Renderable> {
    /// The commands recorded so far, oldest first.
    spec fn recorded(&self) -> Seq<DrawCommand>;

    /// Draws `sprite` into `dest`.
    fn copy_sprite(&mut self, sprite: &T, dest: Rectangle)
        requires
            sprite.drawable(),
        ensures
            final(self).recorded() == old(self).recorded().push(sprite.drawn(dest)),
    ;
}

impl<T: Renderable> CopySprite<T> for Renderer {
    open spec fn recorded(&self) -> Seq<DrawCommand> {
        self@
    }

    fn copy_sprite(&mut self, sprite: &T, dest: Rectangle)
        ensures
            final(self).spec_output_size() == old(self).spec_output_size(),
    {
        sprite.render(self, dest);
    }
}

/// A rectangular region of a texture. Regions of one texture share it: a
/// sprite holds the texture's handle, never the image.
#[derive(Clone, Copy, Debug, PartialEq, Eq, Structural)]
pub struct Sprite {
    tex: usize,
    src: Rectangle,
}

impl Sprite {
    /// The handle of the texture the sprite is cut from.
    pub closed spec fn spec_texture(self) -> usize {
        self.tex
    }

    /// The region of the texture that the sprite shows.
    pub closed spec fn spec_source(self) -> Rectangle {
        self.src
    }

    /// The region is a valid rectangle whose far edges are representable.
    pub open spec fn wf(self) -> bool {
        &&& self.spec_source().valid()
        &&& self.spec_source().right() <= i64::MAX
        &&& self.spec_source().bottom() <= i64::MAX
    }

    /// `rect`, which is relative to the sprite's region, as a region of the texture.
    pub open spec fn spec_offset(self, rect: Rectangle) -> (int, int) {
        (rect.x + self.spec_source().x, rect.y + self.spec_source().y)
    }

    /// Whether `rect`, taken relative to the sprite's region, lies within it.
    pub open spec fn spec_holds(self, rect: Rectangle) -> bool {
        let src = self.spec_source();
        let (x, y) = self.spec_offset(rect);
        &&& src.x <= x <= src.right()
        &&& src.x <= x + rect.w <= src.right()
        &&& src.y <= y <= src.bottom()
        &&& src.y <= y + rect.h <= src.bottom()
    }

    /// The whole of a texture of `width` by `height` pixels.
    pub fn new(texture: usize, width: u32, height: u32) -> (sprite: Sprite)
        ensures
            sprite.wf(),
            sprite.spec_texture() == texture,
            sprite.spec_source().x == 0,
            sprite.spec_source().y == 0,
            sprite.spec_source().w == width * UNIT,
            sprite.spec_source().h == height * UNIT,
    {
        Sprite {
            tex: texture,
            src: Rectangle { x: 0, y: 0, w: width as i64 * UNIT, h: height as i64 * UNIT },
        }
    }

    /// The part `rect` of this sprite, `rect` being relative to the sprite's
    /// own top-left corner. Fails exactly when `rect` reaches outside the sprite.
    pub fn region(&self, rect: Rectangle) -> (sub: Option<Sprite>)
        requires
            self.wf(),
            rect.valid(),
        ensures
            sub.is_some() <==> self.spec_holds(rect),
            sub matches Some(s) ==> {
                &&& s.wf()
                &&& s.spec_texture() == self.spec_texture()
                &&& s.spec_source().x == self.spec_offset(rect).0
                &&& s.spec_source().y == self.spec_offset(rect).1
                &&& s.spec_source().w == rect.w
                &&& s.spec_source().h == rect.h
            },
    {
        let x: i128 = rect.x as i128 + self.src.x as i128;
        let y: i128 = rect.y as i128 + self.src.y as i128;
        let right: i128 = self.src.x as i128 + self.src.w as i128;
        let bottom: i128 = self.src.y as i128 + self.src.h as i128;
        let inside = self.src.x as i128 <= x && x + rect.w as i128 <= right && self.src.y as i128
            <= y && y + rect.h as i128 <= bottom;
        if inside {
            Some(Sprite { tex: self.tex, src: Rectangle { x: x as i64, y: y as i64, ..rect } })
        } else {
            None
        }
    }

    /// Width and height of the sprite's region.
    pub fn size(&self) -> (size: (i64, i64))
        ensures
            size == (self.spec_source().w, self.spec_source().h),
    {
        (self.src.w, self.src.h)
    }

    /// The handle of the texture the sprite is cut from.
    pub fn texture(&self) -> (texture: usize)
        ensures
            texture == self.spec_texture(),
    {
        self.tex
    }

    /// The region of the texture that the sprite shows.
    pub fn source(&self) -> (src: Rectangle)
        ensures
            src == self.spec_source(),
    {
        self.src
    }

    /// Draws the sprite's region of the texture, scaled into `dest`.
    pub fn render(&self, renderer: &mut Renderer, dest: Rectangle)
        ensures
            final(renderer)@ == old(renderer)@.push(
                DrawCommand::Copy {
                    texture: self.spec_texture(),
                    src: self.spec_source(),
                    dest,
                },
            ),
            final(renderer).spec_output_size() == old(renderer).spec_output_size(),
    {
        renderer.copy(self.tex, self.src, dest);
    }
}

impl Renderable for Sprite {
    open spec fn drawable(&self) -> bool {
        true
    }

    open spec fn drawn(&self, dest: Rectangle) -> DrawCommand {
        DrawCommand::Copy { texture: self.spec_texture(), src: self.spec_source(), dest }
    }

    fn render(&self, renderer: &mut Renderer, dest: Rectangle) {
        renderer.copy(self.tex, self.src, dest);
    }
}

/// The frame shown at `time` by an animation of `frames` frames that each
/// stay for `delay`.
pub open spec fn frame_index(time: int, delay: int, frames: int) -> int {
    (time / delay) % frames
}

/// The clock of an animation after `dt` has passed: a clock that would go
/// below zero restarts at the last frame, and one that would pass the
/// largest representable time drops the whole runs through all frames that
/// it has counted, which leaves the frame that is shown as it is.
pub open spec fn advanced_time(time: int, dt: int, delay: int, frames: int) -> int {
    if time + dt < 0 {
        (frames - 1) * delay
    } else if time + dt > i64::MAX {
        (time + dt) % (frames * delay)
    } else {
        time + dt
    }
}

/// Why an animation of `frames` frames that each stay for `delay` is refused, if it is.
pub open spec fn animation_error(frames: nat, delay: int) -> Option<ConfigurationError> {
    if frames == 0 {
        Some(ConfigurationError::NoFrames)
    } else if delay <= 0 {
        Some(ConfigurationError::FrameDelayNotPositive)
    } else if frames * delay > i64::MAX {
        Some(ConfigurationError::AnimationTooLong)
    } else {
        None
    }
}

/// The time per frame at a rate of `fps` millionths of a frame per second:
/// a second divided by the rate, rounded towards zero.
pub open spec fn delay_of_fps(fps: int) -> int {
    (UNIT * UNIT) / fps
}

/// The time per frame at any rate but zero is no longer than a million
/// seconds, and is negative or zero at a negative rate.
pub proof fn lemma_delay_of_fps(fps: int)
    requires
        fps != 0,
    ensures
        -(UNIT * UNIT) <= delay_of_fps(fps) <= UNIT * UNIT,
        fps > 0 ==> delay_of_fps(fps) >= 0,
        fps < 0 ==> delay_of_fps(fps) <= 0,
{
    let second: int = UNIT * UNIT;
    let delay = second / fps;
    assert(second == fps * delay + second % fps && 0 <= second % fps) by (nonlinear_arith)
        requires
            delay == second / fps,
            fps != 0,
    ;
    if fps > 0 {
        assert(second % fps < fps) by (nonlinear_arith)
            requires
                fps > 0,
        ;
        assert(0 <= delay <= second) by (nonlinear_arith)
            requires
                second == fps * delay + second % fps,
                0 <= second % fps < fps,
                fps >= 1,
                second >= 0,
        ;
    } else {
        assert(second % fps < -fps) by (nonlinear_arith)
            requires
                fps < 0,
        ;
        assert(-second <= delay <= 0) by (nonlinear_arith)
            requires
                second == fps * delay + second % fps,
                0 <= second % fps < -fps,
                fps <= -1,
                second >= 0,
        ;
    }
}

/// A sequence of frames shown one after the other, each for the same time.
#[derive(Clone, Debug)]
pub struct AnimatedSprite {
    sprites: Vec<Sprite>,
    frame_delay: i64,
    current_time: i64,
}

impl AnimatedSprite {
    /// The frames, in the order they are shown.
    pub closed spec fn spec_sprites(&self) -> Seq<Sprite> {
        self.sprites@
    }

    /// How long each frame stays.
    pub closed spec fn spec_frame_delay(&self) -> i64 {
        self.frame_delay
    }

    /// The animation's clock.
    pub closed spec fn spec_current_time(&self) -> i64 {
        self.current_time
    }

    /// The number of frames.
    pub open spec fn spec_frames(&self) -> nat {
        self.spec_sprites().len()
    }

    /// There is a frame, each frame stays for a positive time, one run through
    /// all frames fits the clock, and the clock is not negative.
    pub open spec fn wf(&self) -> bool {
        &&& animation_error(self.spec_frames(), self.spec_frame_delay() as int) is None
        &&& self.spec_current_time() >= 0
    }

    /// The index of the frame shown now.
    pub open spec fn spec_current_frame(&self) -> int {
        frame_index(
            self.spec_current_time() as int,
            self.spec_frame_delay() as int,
            self.spec_frames() as int,
        )
    }

    /// An animation of `sprites` that shows each for `frame_delay`, starting now.
    pub fn new(sprites: Vec<Sprite>, frame_delay: i64) -> (made: Result<
        AnimatedSprite,
        ConfigurationError,
    >)
        ensures
            match made {
                Ok(a) => {
                    &&& animation_error(sprites@.len(), frame_delay as int) is None
                    &&& a.wf()
                    &&& a.spec_sprites() == sprites@
                    &&& a.spec_frame_delay() == frame_delay
                    &&& a.spec_current_time() == 0
                },
                Err(e) => animation_error(sprites@.len(), frame_delay as int) == Some(e),
            },
    {
        match check_animation(sprites.len(), frame_delay) {
            Some(e) => Err(e),
            None => Ok(AnimatedSprite { sprites, frame_delay, current_time: 0 }),
        }
    }

    /// An animation of `sprites` at a rate of `fps`, starting now. The rate
    /// is in millionths of a frame per second, so that it need not be whole,
    /// and is not zero. A rate that leaves a frame no time is refused like
    /// the delay it stands for.
    pub fn with_fps(sprites: Vec<Sprite>, fps: i64) -> (made: Result<
        AnimatedSprite,
        ConfigurationError,
    >)
        requires
            fps != 0,
        ensures
            match made {
                Ok(a) => {
                    &&& animation_error(sprites@.len(), delay_of_fps(fps as int)) is None
                    &&& a.wf()
                    &&& a.spec_sprites() == sprites@
                    &&& a.spec_frame_delay() == delay_of_fps(fps as int)
                    &&& a.spec_current_time() == 0
                },
                Err(e) => animation_error(sprites@.len(), delay_of_fps(fps as int)) == Some(e),
            },
    {
        proof {
            lemma_delay_of_fps(fps as int);
        }
        AnimatedSprite::new(sprites, (UNIT * UNIT) / fps)
    }

    /// The number of frames.
    pub fn frames(&self) -> (count: usize)
        ensures
            count == self.spec_frames(),
    {
        self.sprites.len()
    }

    /// How long each frame stays.
    pub fn frame_delay(&self) -> (delay: i64)
        ensures
            delay == self.spec_frame_delay(),
    {
        self.frame_delay
    }

    /// The animation's clock.
    pub fn current_time(&self) -> (time: i64)
        ensures
            time == self.spec_current_time(),
    {
        self.current_time
    }

    /// The index of the frame shown now.
    pub fn current_frame(&self) -> (index: usize)
        requires
            self.wf(),
        ensures
            index == self.spec_current_frame(),
            index < self.spec_frames(),
    {
        proof {
            lemma_last_frame_fits(self.sprites@.len() as int, self.frame_delay as int);
        }
        let count = self.sprites.len() as i64;
        let index = (self.current_time / self.frame_delay) % count;
        proof {
            vstd::arithmetic::div_mod::lemma_div_pos_is_pos(
                self.current_time as int,
                self.frame_delay as int,
            );
            vstd::arithmetic::div_mod::lemma_mod_bound(
                self.current_time as int / self.frame_delay as int,
                count as int,
            );
        }
        index as usize
    }

    /// Makes each frame stay for `frame_delay`. The clock keeps its value.
    /// A delay that `new` would refuse is refused here, and changes nothing.
    pub fn set_frame_delay(&mut self, frame_delay: i64) -> (set: Result<(), ConfigurationError>)
        requires
            old(self).wf(),
        ensures
            final(self).spec_sprites() == old(self).spec_sprites(),
            final(self).spec_current_time() == old(self).spec_current_time(),
            final(self).wf(),
            match set {
                Ok(()) => {
                    &&& animation_error(old(self).spec_frames(), frame_delay as int) is None
                    &&& final(self).spec_frame_delay() == frame_delay
                },
                Err(e) => {
                    &&& animation_error(old(self).spec_frames(), frame_delay as int) == Some(e)
                    &&& final(self).spec_frame_delay() == old(self).spec_frame_delay()
                },
            },
    {
        match check_animation(self.sprites.len(), frame_delay) {
            Some(e) => Err(e),
            None => {
                self.frame_delay = frame_delay;
                Ok(())
            },
        }
    }

    /// Makes the animation run at a rate of `fps` millionths of a frame per
    /// second, which is not zero. The clock keeps its value. A rate that
    /// `with_fps` would refuse is refused here, and changes nothing.
    pub fn set_fps(&mut self, fps: i64) -> (set: Result<(), ConfigurationError>)
        requires
            old(self).wf(),
            fps != 0,
        ensures
            final(self).spec_sprites() == old(self).spec_sprites(),
            final(self).spec_current_time() == old(self).spec_current_time(),
            final(self).wf(),
            match set {
                Ok(()) => {
                    &&& animation_error(old(self).spec_frames(), delay_of_fps(fps as int)) is None
                    &&& final(self).spec_frame_delay() == delay_of_fps(fps as int)
                },
                Err(e) => {
                    &&& animation_error(old(self).spec_frames(), delay_of_fps(fps as int)) == Some(
                        e,
                    )
                    &&& final(self).spec_frame_delay() == old(self).spec_frame_delay()
                },
            },
    {
        proof {
            lemma_delay_of_fps(fps as int);
        }
        self.set_frame_delay((UNIT * UNIT) / fps)
    }

    /// Lets `dt` pass on the animation's clock; `dt` may be negative.
    pub fn add_time(&mut self, dt: i64)
        requires
            old(self).wf(),
        ensures
            final(self).wf(),
            final(self).spec_sprites() == old(self).spec_sprites(),
            final(self).spec_frame_delay() == old(self).spec_frame_delay(),
            final(self).spec_current_time() == advanced_time(
                old(self).spec_current_time() as int,
                dt as int,
                old(self).spec_frame_delay() as int,
                old(self).spec_frames() as int,
            ),
    {
        proof {
            lemma_last_frame_fits(self.sprites@.len() as int, self.frame_delay as int);
            assert(self.sprites@.len() * self.frame_delay == self.frame_delay
                * self.sprites@.len()) by (nonlinear_arith);
        }
        let sum: i128 = self.current_time as i128 + dt as i128;
        if sum < 0 {
            let last = (self.sprites.len() - 1) as i64;
            self.current_time = last * self.frame_delay;
        } else if sum > i64::MAX as i128 {
            let run: i64 = self.frame_delay * (self.sprites.len() as i64);
            proof {
                assert(run > 0) by (nonlinear_arith)
                    requires
                        run == self.frame_delay * self.sprites@.len(),
                        self.frame_delay > 0,
                        self.sprites@.len() > 0,
                ;
                vstd::arithmetic::div_mod::lemma_mod_bound(sum as int, run as int);
            }
            self.current_time = (sum % (run as i128)) as i64;
        } else {
            self.current_time = sum as i64;
        }
    }
}

impl Renderable for AnimatedSprite {
    open spec fn drawable(&self) -> bool {
        self.wf()
    }

    open spec fn drawn(&self, dest: Rectangle) -> DrawCommand {
        self.spec_sprites()[self.spec_current_frame()].drawn(dest)
    }

    fn render(&self, renderer: &mut Renderer, dest: Rectangle) {
        let current_frame = self.current_frame();
        let sprite = &self.sprites[current_frame];
        sprite.render(renderer, dest);
    }
}

/// Why an animation of `frames` frames that each stay for `delay` is refused, if it is.
fn check_animation(frames: usize, delay: i64) -> (error: Option<ConfigurationError>)
    ensures
        error == animation_error(frames as nat, delay as int),
{
    if frames == 0 {
        return Some(ConfigurationError::NoFrames);
    }
    if delay <= 0 {
        return Some(ConfigurationError::FrameDelayNotPositive);
    }
    if frames as u64 > 0x7fff_ffff_ffff_ffff {
        assert(frames * delay > i64::MAX) by (nonlinear_arith)
            requires
                frames > i64::MAX,
                delay >= 1,
        ;
        return Some(ConfigurationError::AnimationTooLong);
    }
    match delay.checked_mul(frames as i64) {
        Some(_) => {
            assert(frames * delay == delay * frames) by (nonlinear_arith);
            None
        },
        None => {
            assert(frames * delay == delay * frames) by (nonlinear_arith);
            assert(delay * frames >= 0) by (nonlinear_arith)
                requires
                    frames >= 0,
                    delay >= 0,
            ;
            Some(ConfigurationError::AnimationTooLong)
        },
    }
}

/// The time at which the last of `frames` frames begins is representable
/// where one run through all of them is.
proof fn lemma_last_frame_fits(frames: int, delay: int)
    requires
        frames >= 1,
        delay > 0,
        frames * delay <= i64::MAX,
    ensures
        frames <= i64::MAX,
        0 <= (frames - 1) * delay <= i64::MAX,
{
    assert(frames <= frames * delay) by (nonlinear_arith)
        requires
            frames >= 1,
            delay >= 1,
    ;
    assert((frames - 1) * delay == frames * delay - delay) by (nonlinear_arith);
    assert((frames - 1) * delay >= 0) by (nonlinear_arith)
        requires
            frames - 1 >= 0,
            delay >= 0,
    ;
}

/// Letting one run through all frames pass on an animation's clock leaves
/// the frame that is shown unchanged.
pub proof fn lemma_add_time_periodic(time: int, delay: int, frames: int)
    requires
        delay > 0,
        frames > 0,
        0 <= time,
    ensures
        frame_index(advanced_time(time, frames * delay, delay, frames), delay, frames)
            == frame_index(time, delay, frames),
{
    let run = frames * delay;
    assert(run > 0) by (nonlinear_arith)
        requires
            run == frames * delay,
            delay > 0,
            frames > 0,
    ;
    lemma_animation_periodic(time, delay, frames, 1);
    assert(1 * run == run);
    lemma_whole_runs_dropped(time + run, delay, frames);
}

/// Dropping the whole runs through all frames from a time leaves the frame
/// that is shown at that time unchanged.
pub proof fn lemma_whole_runs_dropped(time: int, delay: int, frames: int)
    requires
        delay > 0,
        frames > 0,
    ensures
        frame_index(time % (frames * delay), delay, frames) == frame_index(time, delay, frames),
{
    let run = frames * delay;
    assert(run > 0) by (nonlinear_arith)
        requires
            run == frames * delay,
            delay > 0,
            frames > 0,
    ;
    vstd::arithmetic::div_mod::lemma_fundamental_div_mod(time, run);
    assert(time == time % run + (time / run) * run) by (nonlinear_arith)
        requires
            time == run * (time / run) + time % run,
    ;
    lemma_animation_periodic(time % run, delay, frames, time / run);
}

/// An animation shows the same frame again after one run through all its
/// frames: after `frames * delay`, and so after any number of runs.
pub proof fn lemma_animation_periodic(time: int, delay: int, frames: int, runs: int)
    requires
        delay > 0,
        frames > 0,
    ensures
        frame_index(time + runs * (frames * delay), delay, frames) == frame_index(
            time,
            delay,
            frames,
        ),
{
    let q = time / delay;
    let r = time % delay;
    vstd::arithmetic::div_mod::lemma_fundamental_div_mod(time, delay);
    vstd::arithmetic::div_mod::lemma_mod_bound(time, delay);
    assert(time + runs * (frames * delay) == (q + runs * frames) * delay + r)
        by (nonlinear_arith)
        requires
            time == delay * q + r,
    ;
    vstd::arithmetic::div_mod::lemma_fundamental_div_mod_converse_div(
        time + runs * (frames * delay),
        delay,
        q + runs * frames,
        r,
    );
    assert(q + runs * frames == frames * runs + q) by (nonlinear_arith);
    vstd::arithmetic::div_mod::lemma_mod_multiples_vanish(runs, q, frames);
}

} // verus!
