//! The main menu: a column of actions, one of them selected.

use crate::phi::data::{div_toward_zero, GeometryError, Rectangle, MAX_LENGTH};
use crate::phi::events::Key;
use crate::phi::gfx::{Color, CopySprite, DrawCommand, Renderable, Sprite};
use crate::phi::{Phi, View, ViewAction, ViewError};
use crate::views::game::{Draws, GameAssets, ShipView};
use crate::views::ActiveView;
use vstd::prelude::*;
use vstd::view::View as _;

verus! {

/// The most actions a menu can hold.
pub const MAX_ACTIONS: usize = 127;

/// Distance from the top of the output to the first row.
pub const ROW_TOP: i64 = 32_000_000;

/// Distance from one row to the next.
pub const ROW_PITCH: i64 = 48_000_000;

/// What an action of the menu does when it is activated.
#[derive(Clone, Copy, Debug, PartialEq, Eq, Structural)]
pub enum MenuCommand {
    /// Start a new game.
    NewGame,
    /// Leave the program.
    Quit,
}

/// One row of the menu: its label as a picture, plain and highlighted, and
/// what it does.
#[derive(Clone, Copy, Debug)]
pub struct Action {
    pub label: &'static str,
    pub func: MenuCommand,
    pub idle_sprite: Sprite,
    pub hover_sprite: Sprite,
}

impl Action {
    /// A row that shows `idle_sprite`, or `hover_sprite` while it is
    /// selected, and does `func`.
    pub fn new(label: &'static str, func: MenuCommand, idle_sprite: Sprite, hover_sprite: Sprite)
        -> (action: Action)
        ensures
            action.label == label,
            action.func == func,
            action.idle_sprite == idle_sprite,
            action.hover_sprite == hover_sprite,
    {
        Action { label, func, idle_sprite, hover_sprite }
    }
}

/// The index selected after a press of the up key, among `count` actions:
/// one less, and the last where there is none before.
pub open spec fn spec_up(selected: int, count: int) -> int {
    if selected - 1 < 0 {
        count - 1
    } else {
        selected - 1
    }
}

/// The index selected after a press of the down key, among `count`
/// actions: one more, and the first where there is none after.
pub open spec fn spec_down(selected: int, count: int) -> int {
    if selected + 1 >= count {
        0
    } else {
        selected + 1
    }
}

/// The index selected after one frame in which the up key, the down key,
/// both or neither went down. Up is applied first.
pub open spec fn spec_select(selected: int, count: int, up: bool, down: bool) -> int {
    let after_up = if up {
        spec_up(selected, count)
    } else {
        selected
    };
    if down {
        spec_down(after_up, count)
    } else {
        after_up
    }
}

/// The selection wraps around at both ends of the menu: up from the first
/// action leads to the last, down from the last leads to the first. Every
/// other press moves by one, and the selection stays within the menu.
pub proof fn lemma_selection_wraps(selected: int, count: int)
    requires
        0 <= selected < count,
    ensures
        spec_up(0, count) == count - 1,
        spec_down(count - 1, count) == 0,
        0 <= spec_up(selected, count) < count,
        0 <= spec_down(selected, count) < count,
        selected > 0 ==> spec_up(selected, count) == selected - 1,
        selected < count - 1 ==> spec_down(selected, count) == selected + 1,
        spec_down(spec_up(selected, count), count) == selected,
        spec_up(spec_down(selected, count), count) == selected,
{
}

/// Half of `d`, rounded towards zero.
pub open spec fn half(d: int) -> int {
    div_toward_zero(d, 2)
}

/// Where the `i`-th row is drawn on an output `width` wide: centred, at its
/// place in the column, in the size of the plain picture.
pub open spec fn spec_row_rect(action: Action, i: int, width: int) -> Rectangle {
    Rectangle {
        x: half(width - action.idle_sprite.spec_source().w) as i64,
        y: (ROW_TOP + ROW_PITCH * i) as i64,
        w: action.idle_sprite.spec_source().w,
        h: action.idle_sprite.spec_source().h,
    }
}

/// The command that draws the `i`-th row: highlighted if it is selected.
pub open spec fn spec_row(action: Action, i: int, selected: int, width: int) -> DrawCommand {
    if selected == i {
        action.hover_sprite.drawn(spec_row_rect(action, i, width))
    } else {
        action.idle_sprite.drawn(spec_row_rect(action, i, width))
    }
}

/// The commands that draw the first `count` rows, top to bottom.
pub open spec fn spec_rows(actions: Seq<Action>, count: int, selected: int, width: int) -> Seq<
    DrawCommand,
>
    decreases count,
{
    if count <= 0 {
        Seq::empty()
    } else {
        spec_rows(actions, count - 1, selected, width).push(
            spec_row(actions[count - 1], count - 1, selected, width),
        )
    }
}

/// The main menu.
#[derive(Clone, Debug)]
pub struct MainMenuView {
    actions: Vec<Action>,
    selected: usize,
    assets: GameAssets,
}

impl MainMenuView {
    /// The rows, top to bottom.
    pub closed spec fn spec_actions(&self) -> Seq<Action> {
        self.actions@
    }

    /// The index of the selected row.
    pub closed spec fn spec_selected(&self) -> usize {
        self.selected
    }

    /// What a new game is built from.
    pub closed spec fn spec_assets(&self) -> GameAssets {
        self.assets
    }

    /// `actions` can form a menu: there is at least one and not too many,
    /// and their plain pictures are well-formed sprites.
    pub open spec fn acceptable(actions: Seq<Action>) -> bool {
        &&& 1 <= actions.len() <= MAX_ACTIONS
        &&& forall|i: int| 0 <= i < actions.len() ==> (#[trigger] actions[i]).idle_sprite.wf()
    }

    /// The menu has acceptable rows, one of them selected, and can start a game.
    pub open spec fn inv(&self) -> bool {
        &&& MainMenuView::acceptable(self.spec_actions())
        &&& self.spec_selected() < self.spec_actions().len()
        &&& self.spec_assets().wf()
    }

    /// Everything that one frame draws on an output `width` wide: the
    /// cleared output and the rows.
    pub open spec fn spec_scene(&self, width: int) -> Seq<DrawCommand> {
        seq![DrawCommand::SetDrawColor(Color { r: 0, g: 0, b: 0 }), DrawCommand::Clear]
            + spec_rows(
            self.spec_actions(),
            self.spec_actions().len() as int,
            self.spec_selected() as int,
            width,
        )
    }

    /// The menu of the game: "New Game" above "Quit", the first selected.
    /// The four pictures are the two labels, each plain and highlighted.
    pub fn new(
        new_game_idle: Sprite,
        new_game_hover: Sprite,
        quit_idle: Sprite,
        quit_hover: Sprite,
        assets: GameAssets,
    ) -> (menu: MainMenuView)
        requires
            new_game_idle.wf(),
            quit_idle.wf(),
            assets.wf(),
        ensures
            menu.inv(),
            menu.spec_selected() == 0,
            menu.spec_assets() == assets,
            menu.spec_actions().len() == 2,
            menu.spec_actions()[0].label == "New Game",
            menu.spec_actions()[1].label == "Quit",
            menu.spec_actions()[0].func == MenuCommand::NewGame,
            menu.spec_actions()[0].idle_sprite == new_game_idle,
            menu.spec_actions()[0].hover_sprite == new_game_hover,
            menu.spec_actions()[1].func == MenuCommand::Quit,
            menu.spec_actions()[1].idle_sprite == quit_idle,
            menu.spec_actions()[1].hover_sprite == quit_hover,
    {
        let mut actions: Vec<Action> = Vec::new();
        actions.push(Action::new("New Game", MenuCommand::NewGame, new_game_idle, new_game_hover));
        actions.push(Action::new("Quit", MenuCommand::Quit, quit_idle, quit_hover));
        MainMenuView { actions, selected: 0, assets }
    }

    /// A menu of the given rows, the first selected. `None` exactly when
    /// there is no row, or more than `MAX_ACTIONS`.
    pub fn with_actions(actions: Vec<Action>, assets: GameAssets) -> (menu: Option<MainMenuView>)
        requires
            forall|i: int| 0 <= i < actions@.len() ==> (#[trigger] actions@[i]).idle_sprite.wf(),
            assets.wf(),
        ensures
            menu is Some <==> 1 <= actions@.len() <= MAX_ACTIONS,
            menu matches Some(m) ==> {
                &&& m.inv()
                &&& m.spec_actions() == actions@
                &&& m.spec_selected() == 0
                &&& m.spec_assets() == assets
            },
    {
        if actions.len() == 0 || actions.len() > MAX_ACTIONS {
            None
        } else {
            Some(MainMenuView { actions, selected: 0, assets })
        }
    }

    /// The index of the selected row.
    pub fn selected(&self) -> (selected: usize)
        ensures
            selected == self.spec_selected(),
    {
        self.selected
    }

    /// The rows, top to bottom.
    pub fn actions(&self) -> (actions: &Vec<Action>)
        ensures
            actions@ == self.spec_actions(),
    {
        &self.actions
    }

    /// `action` is what activating a row that does `func` leads to, in a
    /// menu that builds its games from `assets`.
    pub open spec fn spec_activated(
        func: MenuCommand,
        assets: GameAssets,
        context: Phi,
        action: Result<ViewAction, ViewError>,
    ) -> bool {
        match func {
            MenuCommand::Quit => action == Ok::<ViewAction, ViewError>(ViewAction::Quit),
            MenuCommand::NewGame => match action {
                Ok(next) => {
                    &&& next is ChangeView
                    &&& next->ChangeView_0 is Game
                    &&& exists|draws: Draws|
                        ShipView::spec_created(
                            assets,
                            context,
                            assets.background,
                            draws,
                            next->ChangeView_0->Game_0,
                        )
                },
                Err(e) => !assets.sufficient() && e == ViewError::Geometry(
                    GeometryError::RegionOutOfBounds,
                ),
            },
        }
    }

    /// Does what the selected row is for.
    fn activate(&self, phi: &Phi) -> (action: Result<ViewAction, ViewError>)
        requires
            self.inv(),
        ensures
            MainMenuView::spec_activated(
                self.spec_actions()[self.spec_selected() as int].func,
                self.spec_assets(),
                *phi,
                action,
            ),
    {
        match self.actions[self.selected].func {
            MenuCommand::NewGame => match ShipView::new(phi, &self.assets) {
                Ok(game) => {
                    let ghost made = game;
                    let action = Ok(ViewAction::ChangeView(ActiveView::Game(game)));
                    assert(action->Ok_0->ChangeView_0->Game_0 == made);
                    action
                },
                Err(e) => Err(e),
            },
            MenuCommand::Quit => Ok(ViewAction::Quit),
        }
    }

    /// `after`, `drawn` and `action` are what one frame makes of the menu
    /// `before` in the context `context`.
    ///
    /// A request to quit ends the program. Else a press of the space key
    /// activates the selected row and nothing is drawn. Else a press of the
    /// up or down key moves the selection, and the menu is drawn.
    pub open spec fn spec_rendered(
        before: MainMenuView,
        context: Phi,
        after: MainMenuView,
        drawn: Phi,
        action: Result<ViewAction, ViewError>,
    ) -> bool {
        if context.events.spec_quit() {
            &&& action == Ok::<ViewAction, ViewError>(ViewAction::Quit)
            &&& after == before
            &&& drawn == context
        } else if context.events.spec_pressed(Key::Space) {
            &&& MainMenuView::spec_activated(
                before.spec_actions()[before.spec_selected() as int].func,
                before.spec_assets(),
                context,
                action,
            )
            &&& after == before
            &&& drawn == context
        } else {
            &&& action == Ok::<ViewAction, ViewError>(ViewAction::Continue)
            &&& after.spec_actions() == before.spec_actions()
            &&& after.spec_assets() == before.spec_assets()
            &&& after.spec_selected() == spec_select(
                before.spec_selected() as int,
                before.spec_actions().len() as int,
                context.events.spec_pressed(Key::Up),
                context.events.spec_pressed(Key::Down),
            )
            &&& drawn.events == context.events
            &&& drawn.renderer.spec_output_size() == context.renderer.spec_output_size()
            &&& drawn.renderer@ == context.renderer@ + after.spec_scene(
                context.spec_output_size().0 as int,
            )
        }
    }

    /// Draws the menu.
    fn draw(&self, phi: &mut Phi)
        requires
            self.inv(),
        ensures
            final(phi).events == old(phi).events,
            final(phi).renderer.spec_output_size() == old(phi).renderer.spec_output_size(),
            final(phi).renderer@ == old(phi).renderer@ + self.spec_scene(
                old(phi).spec_output_size().0 as int,
            ),
    {
        phi.renderer.set_draw_color(Color { r: 0, g: 0, b: 0 });
        phi.renderer.clear();
        let (win_w, _) = phi.output_size();
        let ghost start = phi.renderer@;
        let mut i: usize = 0;
        while i < self.actions.len()
            invariant
                self.inv(),
                i <= self.actions.len(),
                0 <= win_w <= MAX_LENGTH,
                phi.events == old(phi).events,
                phi.renderer.spec_output_size() == old(phi).renderer.spec_output_size(),
                phi.renderer@ == start + spec_rows(
                    self.actions@,
                    i as int,
                    self.selected as int,
                    win_w as int,
                ),
            decreases self.actions.len() - i,
        {
            let action = &self.actions[i];
            let (w, h) = action.idle_sprite.size();
            let dest = Rectangle {
                x: (win_w - w) / 2,
                y: ROW_TOP + ROW_PITCH * i as i64,
                w: w,
                h: h,
            };
            assert(dest == spec_row_rect(*action, i as int, win_w as int));
            if self.selected == i {
                phi.renderer.copy_sprite(&action.hover_sprite, dest);
            } else {
                phi.renderer.copy_sprite(&action.idle_sprite, dest);
            }
            assert(phi.renderer@ =~= start + spec_rows(
                self.actions@,
                i + 1,
                self.selected as int,
                win_w as int,
            ));
            i += 1;
        }
        assert(phi.renderer@ =~= old(phi).renderer@ + self.spec_scene(
            old(phi).spec_output_size().0 as int,
        ));
    }
}

impl View for MainMenuView {
    open spec fn view_inv(&self) -> bool {
        self.inv()
    }

    open spec fn accepts(&self, elapsed: i64) -> bool {
        true
    }

    open spec fn rendered(
        before: MainMenuView,
        context: Phi,
        elapsed: i64,
        after: MainMenuView,
        drawn: Phi,
        action: Result<ViewAction, ViewError>,
    ) -> bool {
        MainMenuView::spec_rendered(before, context, after, drawn, action)
    }

    fn render(&mut self, phi: &mut Phi, elapsed: i64) -> (action: Result<ViewAction, ViewError>) {
        if phi.events.quit() {
            return Ok(ViewAction::Quit);
        }
        if phi.events.pressed(Key::Space) {
            return self.activate(phi);
        }
        if phi.events.pressed(Key::Up) {
            if self.selected == 0 {
                self.selected = self.actions.len() - 1;
            } else {
                self.selected -= 1;
            }
        }
        if phi.events.pressed(Key::Down) {
            self.selected += 1;
            if self.selected >= self.actions.len() {
                self.selected = 0;
            }
        }
        self.draw(phi);
        Ok(ViewAction::Continue)
    }
}

} // verus!
