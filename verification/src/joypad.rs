//! The eight buttons and the column selector through which the program reads
//! them, four at a time. On the wire a pressed button reads as 0.

use crate::utils::{bit, bit_value, lemma_pack_bits};
use vstd::prelude::*;

verus! {

/// The column of the button matrix that is selected for reading. Column Zero
/// holds the direction keys, column One the four buttons.
#[derive(Copy, Clone, Debug, PartialEq, Eq, Structural)]
pub enum Column {
    Zero,
    One,
}

/// The name of a button.
#[derive(Copy, Clone, Debug, PartialEq, Eq, Structural)]
pub enum Button {
    A,
    B,
    Start,
    Select,
    Up,
    Down,
    Right,
    Left,
}

/// Which buttons are held down, and which column is selected.
#[derive(Copy, Clone, Debug, PartialEq, Eq, Structural)]
pub struct Joypad {
    pub column: Column,
    pub start: bool,
    pub select: bool,
    pub b: bool,
    pub a: bool,
    pub down: bool,
    pub up: bool,
    pub left: bool,
    pub right: bool,
}

impl Joypad {
    /// Whether the button that shows at the given bit of the selected column
    /// is held down. Bit 3 is Down or Start, bit 2 Up or Select, bit 1 Left or
    /// B, bit 0 Right or A.
    pub open spec fn row_pressed(self, row: int) -> bool {
        if self.column == Column::Zero {
            if row == 3 {
                self.down
            } else if row == 2 {
                self.up
            } else if row == 1 {
                self.left
            } else {
                self.right
            }
        } else {
            if row == 3 {
                self.start
            } else if row == 2 {
                self.select
            } else if row == 1 {
                self.b
            } else {
                self.a
            }
        }
    }

    /// The byte that reading the joypad register gives: bit 5 for column Zero
    /// or bit 4 for column One, and in the low nibble a one for each button of
    /// the selected column that is not held down.
    pub open spec fn spec_to_byte(self) -> u8 {
        ((if self.column == Column::Zero {
            32int
        } else {
            16int
        }) + 8 * bit_value(!self.row_pressed(3)) + 4 * bit_value(!self.row_pressed(2)) + 2
            * bit_value(!self.row_pressed(1)) + bit_value(!self.row_pressed(0))) as u8
    }

    /// These buttons with the named one held down or let go.
    pub open spec fn spec_set_button(self, button: Button, to: bool) -> Joypad {
        match button {
            Button::A => Joypad { a: to, ..self },
            Button::B => Joypad { b: to, ..self },
            Button::Start => Joypad { start: to, ..self },
            Button::Select => Joypad { select: to, ..self },
            Button::Up => Joypad { up: to, ..self },
            Button::Down => Joypad { down: to, ..self },
            Button::Right => Joypad { right: to, ..self },
            Button::Left => Joypad { left: to, ..self },
        }
    }

    /// Whether `other` differs from `self` in a button of the column that is
    /// selected in `self`.
    pub open spec fn selected_buttons_differ(self, other: Joypad) -> bool {
        if self.column == Column::Zero {
            self.down != other.down || self.up != other.up || self.left != other.left
                || self.right != other.right
        } else {
            self.start != other.start || self.select != other.select || self.b != other.b
                || self.a != other.a
        }
    }

    /// No button held down, column Zero selected.
    pub fn new() -> (joypad: Joypad)
        ensures
            joypad == (Joypad {
                column: Column::Zero,
                start: false,
                select: false,
                b: false,
                a: false,
                down: false,
                up: false,
                left: false,
                right: false,
            }),
    {
        Joypad {
            column: Column::Zero,
            start: false,
            select: false,
            b: false,
            a: false,
            down: false,
            up: false,
            left: false,
            right: false,
        }
    }

    /// The byte that reading the joypad register gives.
    pub fn to_byte(&self) -> (byte: u8)
        ensures
            byte == self.spec_to_byte(),
    {
        let bit_4 = bit(
            !((self.down && self.reading_column_0()) || (self.start && self.reading_column_1())),
        );
        let bit_3 = bit(
            !((self.up && self.reading_column_0()) || (self.select && self.reading_column_1())),
        );
        let bit_2 = bit(
            !((self.left && self.reading_column_0()) || (self.b && self.reading_column_1())),
        );
        let bit_1 = bit(
            !((self.right && self.reading_column_0()) || (self.a && self.reading_column_1())),
        );
        proof {
            lemma_pack_bits(0, 0, 0, 0, bit_4, bit_3, bit_2, bit_1);
        }
        let row_bits = bit_4 << 3 | bit_3 << 2 | bit_2 << 1 | bit_1;
        if self.reading_column_0() {
            (1 << 5) | row_bits
        } else {
            (1 << 4) | row_bits
        }
    }

    /// Holds the named button down or lets it go.
    pub fn set_button(&mut self, button: Button, to: bool)
        ensures
            *final(self) == old(self).spec_set_button(button, to),
    {
        match button {
            Button::A => self.a = to,
            Button::B => self.b = to,
            Button::Start => self.start = to,
            Button::Select => self.select = to,
            Button::Up => self.up = to,
            Button::Down => self.down = to,
            Button::Right => self.right = to,
            Button::Left => self.left = to,
        }
    }

    /// Whether column Zero is selected.
    pub fn reading_column_0(&self) -> (selected: bool)
        ensures
            selected == (self.column == Column::Zero),
    {
        self.column == Column::Zero
    }

    /// Whether column One is selected.
    pub fn reading_column_1(&self) -> (selected: bool)
        ensures
            selected == (self.column == Column::One),
    {
        self.column == Column::One
    }
}

} // verus!
