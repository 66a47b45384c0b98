//! The screens of the game.

pub mod game;
pub mod main_menu;
pub mod shared;

use crate::phi::{Phi, View, ViewAction, ViewError};
use crate::views::game::ShipView;
use crate::views::main_menu::MainMenuView;
use vstd::prelude::*;

verus! {

/// The view that the main loop drives: one of the screens of the game.
#[derive(Clone, Debug)]
pub enum ActiveView {
    MainMenu(MainMenuView),
    Game(ShipView),
}

impl ActiveView {
    /// What holds of the view between frames: what holds of the screen it is.
    pub open spec fn inv(&self) -> bool {
        match self {
            ActiveView::MainMenu(menu) => menu.inv(),
            ActiveView::Game(game) => game.inv(),
        }
    }
}

impl View for ActiveView {
    open spec fn view_inv(&self) -> bool {
        self.inv()
    }

    open spec fn accepts(&self, elapsed: i64) -> bool {
        match self {
            ActiveView::MainMenu(menu) => menu.accepts(elapsed),
            ActiveView::Game(game) => game.accepts(elapsed),
        }
    }

    open spec fn rendered(
        before: ActiveView,
        context: Phi,
        elapsed: i64,
        after: ActiveView,
        drawn: Phi,
        action: Result<ViewAction, ViewError>,
    ) -> bool {
        match (before, after) {
            (ActiveView::MainMenu(b), ActiveView::MainMenu(a)) => MainMenuView::rendered(
                b,
                context,
                elapsed,
                a,
                drawn,
                action,
            ),
            (ActiveView::Game(b), ActiveView::Game(a)) => ShipView::rendered(
                b,
                context,
                elapsed,
                a,
                drawn,
                action,
            ),
            _ => false,
        }
    }

    fn render(&mut self, phi: &mut Phi, elapsed: i64) -> (action: Result<ViewAction, ViewError>) {
        match self {
            ActiveView::MainMenu(menu) => menu.render(phi, elapsed),
            ActiveView::Game(game) => game.render(phi, elapsed),
        }
    }
}

} // verus!
