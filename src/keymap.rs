//! Key mapping tables: matrix position to keyboard usage.
use vstd::prelude::*;
use usbd_human_interface_device::page::Keyboard;

verus! {

/// Number of output-driven lines of the matrix.
pub const LINES: usize = 6;

/// Number of input-sampled columns of the matrix.
pub const COLUMNS: usize = 6;

/// The usage table of one keyboard half, tagged with how its columns are
/// wired. `table[line][column]` is the usage of a position in the table's
/// logical layout.
#[derive(Clone, Copy)]
pub enum KeyMapping {
    /// Columns wired index-to-pinkie: the physical column index runs in
    /// reverse of the table's layout.
    Left([[Keyboard; 6]; 6]),
    /// Columns wired in the table's own order.
    Right([[Keyboard; 6]; 6]),
    /// An absent or disabled half: every position yields no event.
    Other,
}

impl KeyMapping {
    /// The usage that position (`line`, `column`) resolves to.
    pub open spec fn resolve(self, line: int, column: int) -> Keyboard {
        match self {
            KeyMapping::Left(table) => table@[line]@[(COLUMNS - 1) - column],
            KeyMapping::Right(table) => table@[line]@[column],
            KeyMapping::Other => Keyboard::NoEventIndicated,
        }
    }

    /// Resolves position (`line`, `column`) through the table, inverting
    /// the column for a mirrored half.
    pub fn mapping(&self, line: usize, column: usize) -> (r: Keyboard)
        requires
            line < LINES,
            column < COLUMNS,
        ensures
            r == self.resolve(line as int, column as int),
            self matches KeyMapping::Right(table) ==> r == table@[line as int]@[column as int],
            self matches KeyMapping::Left(table) ==> r == table@[line as int]@[5 - column],
            self is Other ==> r == Keyboard::NoEventIndicated,
    {
        match self {
            KeyMapping::Left(mapping) => mapping[line][5 - column],
            KeyMapping::Right(mapping) => mapping[line][column],
            KeyMapping::Other => Keyboard::NoEventIndicated,
        }
    }
}

/// Logical layout of the right half, row by row from the number row down.
pub open spec fn right_table() -> [[Keyboard; 6]; 6] {
    [
        [
            Keyboard::Keyboard6,
            Keyboard::Keyboard7,
            Keyboard::Keyboard8,
            Keyboard::Keyboard9,
            Keyboard::Keyboard0,
            Keyboard::Minus,
        ],
        [Keyboard::Y, Keyboard::U, Keyboard::I, Keyboard::O, Keyboard::P, Keyboard::Backslash],
        [
            Keyboard::H,
            Keyboard::J,
            Keyboard::K,
            Keyboard::L,
            Keyboard::Semicolon,
            Keyboard::Apostrophe,
        ],
        [
            Keyboard::N,
            Keyboard::M,
            Keyboard::Comma,
            Keyboard::Dot,
            Keyboard::ForwardSlash,
            Keyboard::RightShift,
        ],
        [
            Keyboard::ReturnEnter,
            Keyboard::Space,
            Keyboard::UpArrow,
            Keyboard::DownArrow,
            Keyboard::NoEventIndicated,
            Keyboard::NoEventIndicated,
        ],
        [
            Keyboard::F2,
            Keyboard::RightControl,
            Keyboard::LeftBrace,
            Keyboard::RightBrace,
            Keyboard::NoEventIndicated,
            Keyboard::NoEventIndicated,
        ],
    ]
}

/// Logical layout of the left half, row by row from the number row down.
pub open spec fn left_table() -> [[Keyboard; 6]; 6] {
    [
        [
            Keyboard::Equal,
            Keyboard::Keyboard1,
            Keyboard::Keyboard2,
            Keyboard::Keyboard3,
            Keyboard::Keyboard4,
            Keyboard::Keyboard5,
        ],
        [Keyboard::Tab, Keyboard::Q, Keyboard::W, Keyboard::E, Keyboard::R, Keyboard::T],
        [Keyboard::Grave, Keyboard::A, Keyboard::S, Keyboard::D, Keyboard::F, Keyboard::G],
        [Keyboard::LeftShift, Keyboard::Z, Keyboard::X, Keyboard::C, Keyboard::V, Keyboard::B],
        [
            Keyboard::NoEventIndicated,
            Keyboard::NoEventIndicated,
            Keyboard::LeftArrow,
            Keyboard::RightArrow,
            Keyboard::DeleteBackspace,
            Keyboard::LeftControl,
        ],
        [
            Keyboard::NoEventIndicated,
            Keyboard::NoEventIndicated,
            Keyboard::DeleteForward,
            Keyboard::End,
            Keyboard::Escape,
            Keyboard::LeftAlt,
        ],
    ]
}

/// The right half's mapping, wired in the table's own column order.
pub fn right_keys() -> (r: KeyMapping)
    ensures
        r == KeyMapping::Right(right_table()),
{
    KeyMapping::Right(
        [
            [
                Keyboard::Keyboard6,
                Keyboard::Keyboard7,
                Keyboard::Keyboard8,
                Keyboard::Keyboard9,
                Keyboard::Keyboard0,
                Keyboard::Minus,
            ],
            [Keyboard::Y, Keyboard::U, Keyboard::I, Keyboard::O, Keyboard::P, Keyboard::Backslash],
            [
                Keyboard::H,
                Keyboard::J,
                Keyboard::K,
                Keyboard::L,
                Keyboard::Semicolon,
                Keyboard::Apostrophe,
            ],
            [
                Keyboard::N,
                Keyboard::M,
                Keyboard::Comma,
                Keyboard::Dot,
                Keyboard::ForwardSlash,
                Keyboard::RightShift,
            ],
            [
                Keyboard::ReturnEnter,
                Keyboard::Space,
                Keyboard::UpArrow,
                Keyboard::DownArrow,
                Keyboard::NoEventIndicated,
                Keyboard::NoEventIndicated,
            ],
            [
                Keyboard::F2,
                Keyboard::RightControl,
                Keyboard::LeftBrace,
                Keyboard::RightBrace,
                Keyboard::NoEventIndicated,
                Keyboard::NoEventIndicated,
            ],
        ],
    )
}

/// The left half's mapping, whose columns are wired in reverse.
pub fn left_keys() -> (r: KeyMapping)
    ensures
        r == KeyMapping::Left(left_table()),
{
    KeyMapping::Left(
        [
            [
                Keyboard::Equal,
                Keyboard::Keyboard1,
                Keyboard::Keyboard2,
                Keyboard::Keyboard3,
                Keyboard::Keyboard4,
                Keyboard::Keyboard5,
            ],
            [Keyboard::Tab, Keyboard::Q, Keyboard::W, Keyboard::E, Keyboard::R, Keyboard::T],
            [Keyboard::Grave, Keyboard::A, Keyboard::S, Keyboard::D, Keyboard::F, Keyboard::G],
            [Keyboard::LeftShift, Keyboard::Z, Keyboard::X, Keyboard::C, Keyboard::V, Keyboard::B],
            [
                Keyboard::NoEventIndicated,
                Keyboard::NoEventIndicated,
                Keyboard::LeftArrow,
                Keyboard::RightArrow,
                Keyboard::DeleteBackspace,
                Keyboard::LeftControl,
            ],
            [
                Keyboard::NoEventIndicated,
                Keyboard::NoEventIndicated,
                Keyboard::DeleteForward,
                Keyboard::End,
                Keyboard::Escape,
                Keyboard::LeftAlt,
            ],
        ],
    )
}

} // verus!
