//! The default user interface.

use crate::hot_plate::screen::drawable::special::Flipped;
use crate::hot_plate::screen::drawable::{Axis, Drawable, Pixels, Triangle, U16x2};
use crate::hot_plate::screen::ui::Menu;
use vstd::prelude::*;

verus! {

/// The distance of the arrows of the home menu from the sides of the
/// display, in pixels.
pub const TRIANGLE_X: u16 = 10;

/// The distance of the arrows of the home menu from the top of the display,
/// in pixels.
pub const TRIANGLE_Y: u16 = 140;

/// The size of the arrows of the home menu, in pixels.
pub const TRIANGLE_SIZE: u16 = 20;

/// The default user interface.
#[derive(Clone, Copy, Debug, PartialEq, Eq, Structural, Hash)]
pub struct DefaultUI {
    current_menu: Menu,
}

/// A shape drawn at a place of the display.
pub struct Drawing {
    /// The place of the shape.
    pub position: U16x2,
    /// The runs of pixels of the shape.
    pub pixels: Vec<Pixels>,
}

/// Where the arrow on the right of the home menu is drawn: as far from the
/// right side of a display of the width `width` as the arrow on the left is
/// from the left side, or at the left side on a display too narrow for
/// that.
pub open spec fn right_arrow_x(width: u16) -> u16 {
    if width >= 30 {
        (width - 30) as u16
    } else {
        0
    }
}

impl DefaultUI {
    /// The menu that is shown.
    pub closed spec fn current_menu(&self) -> Menu {
        self.current_menu
    }

    /// The user interface at its home menu.
    pub fn new() -> (ui: Self)
        ensures
            ui.current_menu() == Menu::Home,
    {
        Self { current_menu: Menu::Home }
    }

    /// The menu that is shown.
    pub fn get_current_menu(&self) -> (menu: Menu)
        ensures
            menu == self.current_menu(),
    {
        self.current_menu
    }

    /// The shapes of the menu that is shown, on a display of the extent
    /// `screen_size`, in the order in which they are to be drawn.
    ///
    /// The home menu shows two arrows: a triangle on the left, and the same
    /// triangle mirrored on the right. The reflow menu shows nothing.
    pub fn draw(&self, screen_size: U16x2) -> (drawings: Vec<Drawing>)
        ensures
            self.current_menu() == Menu::Reflowing ==> drawings@.len() == 0,
            self.current_menu() == Menu::Home ==> {
                &&& drawings@.len() == 2
                &&& drawings@[0].position == (U16x2 { x: 10, y: 140 })
                &&& drawings@[0].pixels@ == (Triangle { size: 20 }).pixels()
                &&& drawings@[1].position == (U16x2 { x: right_arrow_x(screen_size.x), y: 140 })
                &&& drawings@[1].pixels@ == (Flipped {
                    draw: Triangle { size: 20 },
                    axis: Axis::Horizontal,
                }).pixels()
            },
    {
        let mut drawings: Vec<Drawing> = Vec::new();
        match self.current_menu {
            Menu::Home => {
                let left = Triangle { size: TRIANGLE_SIZE };
                drawings.push(
                    Drawing { position: U16x2 { x: TRIANGLE_X, y: TRIANGLE_Y }, pixels: left.draw() },
                );
                let x: u16 = if screen_size.x >= TRIANGLE_X + TRIANGLE_SIZE {
                    screen_size.x - TRIANGLE_X - TRIANGLE_SIZE
                } else {
                    0
                };
                let right = Flipped { draw: Triangle { size: TRIANGLE_SIZE }, axis: Axis::Horizontal };
                drawings.push(Drawing { position: U16x2 { x, y: TRIANGLE_Y }, pixels: right.draw() });
            },
            Menu::Reflowing => {},
        }
        drawings
    }
}

} // verus!
