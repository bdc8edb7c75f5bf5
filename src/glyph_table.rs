use crate::font::CubePos;
use vstd::prelude::*;

verus! {

/// The cell at column `x`, row `y` of a glyph's grid.
pub open spec fn cell(x: int, y: int) -> CubePos {
    CubePos { x: x as i32, y: y as i32 }
}

/// The cells of the glyph in table slot `i`, which holds the character with code `i + 32`,
/// in drawing order. Every slot but the space's holds at least one cell.
pub open spec fn glyph_cells(i: int) -> Seq<CubePos> {
    if i == 0 {
        // space
        seq![]
    } else if i == 1 {
        // '!'
        seq![
            cell(2, 0), cell(2, 1), cell(2, 2), cell(2, 3), cell(2, 5), cell(2, 6),
            cell(2, 7),
        ]
    } else if i == 2 {
        // '"'
        seq![
            cell(1, 5), cell(1, 6), cell(1, 7), cell(3, 5), cell(3, 6), cell(3, 7),
        ]
    } else if i == 3 {
        // '#'
        seq![
            cell(1, 1), cell(1, 2), cell(1, 3), cell(1, 4), cell(1, 5), cell(1, 6),
            cell(3, 1), cell(3, 2), cell(3, 3), cell(3, 4), cell(3, 5), cell(3, 6),
            cell(0, 2), cell(2, 2), cell(4, 2), cell(0, 5), cell(2, 5), cell(4, 5),
        ]
    } else if i == 4 {
        // '$'
        seq![
            cell(2, 0), cell(2, 1), cell(2, 2), cell(2, 3), cell(2, 4), cell(2, 5),
            cell(2, 6), cell(2, 7), cell(0, 1), cell(1, 1), cell(3, 1), cell(0, 2),
            cell(1, 3), cell(3, 3), cell(0, 4), cell(1, 5), cell(3, 5), cell(0, 6),
            cell(1, 6), cell(3, 6),
        ]
    } else if i == 5 {
        // '%'
        seq![
            cell(0, 0), cell(1, 1), cell(2, 2), cell(3, 3), cell(4, 4), cell(5, 5),
            cell(6, 6), cell(7, 7), cell(0, 5), cell(0, 6), cell(1, 6), cell(1, 5),
            cell(6, 1), cell(6, 2), cell(7, 2), cell(7, 1),
        ]
    } else if i == 6 {
        // '&'
        seq![
            cell(1, 0), cell(2, 0), cell(3, 0), cell(0, 1), cell(4, 1), cell(0, 2),
            cell(1, 3), cell(2, 3), cell(0, 4), cell(3, 4), cell(0, 5), cell(4, 5),
            cell(1, 6), cell(2, 6), cell(4, 6), cell(5, 6),
        ]
    } else if i == 7 {
        // '\''
        seq![
            cell(2, 5), cell(2, 6), cell(2, 7),
        ]
    } else if i == 8 {
        // '('
        seq![
            cell(2, 1), cell(1, 2), cell(1, 3), cell(1, 4), cell(1, 5), cell(2, 6),
        ]
    } else if i == 9 {
        // ')'
        seq![
            cell(1, 1), cell(2, 2), cell(2, 3), cell(2, 4), cell(2, 5), cell(1, 6),
        ]
    } else if i == 10 {
        // '*'
        seq![
            cell(2, 2), cell(2, 3), cell(2, 4), cell(1, 3), cell(3, 3), cell(1, 2),
            cell(3, 4), cell(1, 4), cell(3, 2),
        ]
    } else if i == 11 {
        // '+'
        seq![
            cell(2, 1), cell(2, 2), cell(2, 3), cell(2, 4), cell(2, 5), cell(0, 3),
            cell(1, 3), cell(3, 3), cell(4, 3),
        ]
    } else if i == 12 {
        // ','
        seq![
            cell(2, 0), cell(1, 1),
        ]
    } else if i == 13 {
        // '-'
        seq![
            cell(0, 3), cell(1, 3), cell(2, 3), cell(3, 3), cell(4, 3),
        ]
    } else if i == 14 {
        // '.'
        seq![
            cell(2, 0),
        ]
    } else if i == 15 {
        // '/'
        seq![
            cell(0, 0), cell(1, 1), cell(2, 2), cell(3, 3), cell(4, 4), cell(5, 5),
            cell(6, 6), cell(7, 7),
        ]
    } else if i == 16 {
        // '0'
        seq![
            cell(1, 0), cell(2, 0), cell(3, 0), cell(0, 1), cell(4, 1), cell(0, 2),
            cell(4, 2), cell(0, 3), cell(4, 3), cell(0, 4), cell(4, 4), cell(0, 5),
            cell(4, 5), cell(1, 6), cell(2, 6), cell(3, 6),
        ]
    } else if i == 17 {
        // '1'
        seq![
            cell(2, 0), cell(2, 1), cell(2, 2), cell(2, 3), cell(2, 4), cell(2, 5),
            cell(2, 6), cell(1, 5), cell(0, 0), cell(1, 0), cell(3, 0), cell(4, 0),
        ]
    } else if i == 18 {
        // '2'
        seq![
            cell(0, 0), cell(1, 0), cell(2, 0), cell(3, 0), cell(4, 0), cell(0, 1),
            cell(1, 2), cell(2, 3), cell(3, 4), cell(4, 5), cell(0, 6), cell(1, 6),
            cell(2, 6), cell(3, 6),
        ]
    } else if i == 19 {
        // '3'
        seq![
            cell(0, 0), cell(1, 0), cell(2, 0), cell(3, 0), cell(4, 1), cell(4, 2),
            cell(1, 3), cell(2, 3), cell(3, 3), cell(4, 4), cell(4, 5), cell(0, 6),
            cell(1, 6), cell(2, 6), cell(3, 6),
        ]
    } else if i == 20 {
        // '4'
        seq![
            cell(0, 3), cell(1, 3), cell(2, 3), cell(3, 3), cell(4, 3), cell(3, 0),
            cell(3, 1), cell(3, 2), cell(3, 4), cell(3, 5), cell(3, 6), cell(0, 4),
            cell(1, 5), cell(2, 6),
        ]
    } else if i == 21 {
        // '5'
        seq![
            cell(0, 0), cell(1, 0), cell(2, 0), cell(3, 0), cell(4, 1), cell(4, 2),
            cell(0, 3), cell(1, 3), cell(2, 3), cell(3, 3), cell(0, 4), cell(0, 5),
            cell(0, 6), cell(1, 6), cell(2, 6), cell(3, 6), cell(4, 6),
        ]
    } else if i == 22 {
        // '6'
        seq![
            cell(1, 0), cell(2, 0), cell(3, 0), cell(0, 1), cell(4, 1), cell(0, 2),
            cell(4, 2), cell(0, 3), cell(1, 3), cell(2, 3), cell(3, 3), cell(0, 4),
            cell(0, 5), cell(1, 6), cell(2, 6), cell(3, 6),
        ]
    } else if i == 23 {
        // '7'
        seq![
            cell(0, 6), cell(1, 6), cell(2, 6), cell(3, 6), cell(4, 6), cell(4, 5),
            cell(3, 4), cell(2, 3), cell(1, 2), cell(1, 1), cell(1, 0),
        ]
    } else if i == 24 {
        // '8'
        seq![
            cell(1, 0), cell(2, 0), cell(3, 0), cell(0, 1), cell(4, 1), cell(0, 2),
            cell(4, 2), cell(1, 3), cell(2, 3), cell(3, 3), cell(0, 4), cell(4, 4),
            cell(0, 5), cell(4, 5), cell(1, 6), cell(2, 6), cell(3, 6),
        ]
    } else if i == 25 {
        // '9'
        seq![
            cell(1, 0), cell(2, 0), cell(3, 0), cell(4, 1), cell(4, 2), cell(0, 3),
            cell(1, 3), cell(2, 3), cell(3, 3), cell(4, 3), cell(0, 4), cell(4, 4),
            cell(0, 5), cell(4, 5), cell(1, 6), cell(2, 6), cell(3, 6),
        ]
    } else if i == 26 {
        // ':'
        seq![
            cell(2, 1), cell(2, 5),
        ]
    } else if i == 27 {
        // ';'
        seq![
            cell(2, 0), cell(1, 1), cell(2, 5),
        ]
    } else if i == 28 {
        // '<'
        seq![
            cell(4, 1), cell(3, 2), cell(2, 3), cell(1, 4), cell(2, 5), cell(3, 6),
            cell(4, 7),
        ]
    } else if i == 29 {
        // '='
        seq![
            cell(0, 2), cell(1, 2), cell(2, 2), cell(3, 2), cell(4, 2), cell(0, 4),
            cell(1, 4), cell(2, 4), cell(3, 4), cell(4, 4),
        ]
    } else if i == 30 {
        // '>'
        seq![
            cell(0, 1), cell(1, 2), cell(2, 3), cell(3, 4), cell(2, 5), cell(1, 6),
            cell(0, 7),
        ]
    } else if i == 31 {
        // '?'
        seq![
            cell(0, 5), cell(1, 6), cell(2, 6), cell(3, 6), cell(4, 5), cell(4, 4),
            cell(3, 3), cell(2, 3), cell(2, 2), cell(2, 0),
        ]
    } else if i == 32 {
        // '@'
        seq![
            cell(1, 0), cell(2, 0), cell(3, 0), cell(4, 0), cell(0, 1), cell(5, 1),
            cell(0, 2), cell(2, 2), cell(3, 2), cell(4, 2), cell(5, 2), cell(0, 3),
            cell(2, 3), cell(4, 3), cell(0, 4), cell(2, 4), cell(3, 4), cell(4, 4),
            cell(1, 5), cell(2, 5), cell(3, 5), cell(4, 5),
        ]
    } else if i == 33 {
        // 'A'
        seq![
            cell(0, 0), cell(0, 1), cell(0, 2), cell(0, 3), cell(0, 4), cell(0, 5),
            cell(4, 0), cell(4, 1), cell(4, 2), cell(4, 3), cell(4, 4), cell(4, 5),
            cell(1, 6), cell(2, 6), cell(3, 6), cell(1, 3), cell(2, 3), cell(3, 3),
        ]
    } else if i == 34 {
        // 'B'
        seq![
            cell(0, 0), cell(0, 1), cell(0, 2), cell(0, 3), cell(0, 4), cell(0, 5),
            cell(0, 6), cell(1, 0), cell(2, 0), cell(3, 0), cell(4, 1), cell(4, 2),
            cell(1, 3), cell(2, 3), cell(3, 3), cell(4, 4), cell(4, 5), cell(1, 6),
            cell(2, 6), cell(3, 6),
        ]
    } else if i == 35 {
        // 'C'
        seq![
            cell(1, 0), cell(2, 0), cell(3, 0), cell(4, 0), cell(0, 1), cell(0, 2),
            cell(0, 3), cell(0, 4), cell(0, 5), cell(1, 6), cell(2, 6), cell(3, 6),
            cell(4, 6),
        ]
    } else if i == 36 {
        // 'D'
        seq![
            cell(0, 0), cell(0, 1), cell(0, 2), cell(0, 3), cell(0, 4), cell(0, 5),
            cell(0, 6), cell(1, 0), cell(2, 0), cell(3, 0), cell(4, 1), cell(4, 2),
            cell(4, 3), cell(4, 4), cell(4, 5), cell(1, 6), cell(2, 6), cell(3, 6),
        ]
    } else if i == 37 {
        // 'E'
        seq![
            cell(0, 0), cell(0, 1), cell(0, 2), cell(0, 3), cell(0, 4), cell(0, 5),
            cell(0, 6), cell(1, 0), cell(2, 0), cell(3, 0), cell(4, 0), cell(1, 3),
            cell(2, 3), cell(3, 3), cell(1, 6), cell(2, 6), cell(3, 6), cell(4, 6),
        ]
    } else if i == 38 {
        // 'F'
        seq![
            cell(0, 0), cell(0, 1), cell(0, 2), cell(0, 3), cell(0, 4), cell(0, 5),
            cell(0, 6), cell(1, 3), cell(2, 3), cell(3, 3), cell(1, 6), cell(2, 6),
            cell(3, 6), cell(4, 6),
        ]
    } else if i == 39 {
        // 'G'
        seq![
            cell(1, 0), cell(2, 0), cell(3, 0), cell(4, 0), cell(0, 1), cell(0, 2),
            cell(0, 3), cell(0, 4), cell(0, 5), cell(1, 6), cell(2, 6), cell(3, 6),
            cell(4, 6), cell(4, 5), cell(4, 4), cell(3, 3), cell(4, 3),
        ]
    } else if i == 40 {
        // 'H'
        seq![
            cell(0, 0), cell(0, 1), cell(0, 2), cell(0, 3), cell(0, 4), cell(0, 5),
            cell(0, 6), cell(4, 0), cell(4, 1), cell(4, 2), cell(4, 3), cell(4, 4),
            cell(4, 5), cell(4, 6), cell(1, 3), cell(2, 3), cell(3, 3),
        ]
    } else if i == 41 {
        // 'I'
        seq![
            cell(0, 0), cell(1, 0), cell(2, 0), cell(3, 0), cell(4, 0), cell(2, 1),
            cell(2, 2), cell(2, 3), cell(2, 4), cell(2, 5), cell(0, 6), cell(1, 6),
            cell(2, 6), cell(3, 6), cell(4, 6),
        ]
    } else if i == 42 {
        // 'J'
        seq![
            cell(0, 0), cell(1, 0), cell(2, 0), cell(3, 1), cell(3, 2), cell(3, 3),
            cell(3, 4), cell(3, 5), cell(0, 6), cell(1, 6), cell(2, 6), cell(3, 6),
            cell(4, 6),
        ]
    } else if i == 43 {
        // 'K'
        seq![
            cell(0, 0), cell(0, 1), cell(0, 2), cell(0, 3), cell(0, 4), cell(0, 5),
            cell(0, 6), cell(4, 0), cell(3, 1), cell(2, 2), cell(1, 3), cell(2, 4),
            cell(3, 5), cell(4, 6),
        ]
    } else if i == 44 {
        // 'L'
        seq![
            cell(0, 0), cell(0, 1), cell(0, 2), cell(0, 3), cell(0, 4), cell(0, 5),
            cell(0, 6), cell(1, 0), cell(2, 0), cell(3, 0), cell(4, 0),
        ]
    } else if i == 45 {
        // 'M'
        seq![
            cell(0, 0), cell(0, 1), cell(0, 2), cell(0, 3), cell(0, 4), cell(0, 5),
            cell(0, 6), cell(6, 0), cell(6, 1), cell(6, 2), cell(6, 3), cell(6, 4),
            cell(6, 5), cell(6, 6), cell(1, 5), cell(2, 4), cell(3, 3), cell(4, 4),
            cell(5, 5),
        ]
    } else if i == 46 {
        // 'N'
        seq![
            cell(0, 0), cell(0, 1), cell(0, 2), cell(0, 3), cell(0, 4), cell(0, 5),
            cell(0, 6), cell(4, 0), cell(4, 1), cell(4, 2), cell(4, 3), cell(4, 4),
            cell(4, 5), cell(4, 6), cell(1, 1), cell(2, 2), cell(3, 3),
        ]
    } else if i == 47 {
        // 'O'
        seq![
            cell(1, 0), cell(2, 0), cell(3, 0), cell(0, 1), cell(4, 1), cell(0, 2),
            cell(4, 2), cell(0, 3), cell(4, 3), cell(0, 4), cell(4, 4), cell(0, 5),
            cell(4, 5), cell(1, 6), cell(2, 6), cell(3, 6),
        ]
    } else if i == 48 {
        // 'P'
        seq![
            cell(0, 0), cell(0, 1), cell(0, 2), cell(0, 3), cell(0, 4), cell(0, 5),
            cell(0, 6), cell(1, 3), cell(2, 3), cell(3, 3), cell(4, 4), cell(4, 5),
            cell(1, 6), cell(2, 6), cell(3, 6),
        ]
    } else if i == 49 {
        // 'Q'
        seq![
            cell(1, 0), cell(2, 0), cell(3, 0), cell(0, 1), cell(4, 1), cell(0, 2),
            cell(4, 2), cell(0, 3), cell(4, 3), cell(0, 4), cell(4, 4), cell(0, 5),
            cell(4, 5), cell(1, 6), cell(2, 6), cell(3, 6), cell(3, 1), cell(4, 0),
        ]
    } else if i == 50 {
        // 'R'
        seq![
            cell(0, 0), cell(0, 1), cell(0, 2), cell(0, 3), cell(0, 4), cell(0, 5),
            cell(0, 6), cell(1, 3), cell(2, 3), cell(3, 3), cell(4, 4), cell(4, 5),
            cell(1, 6), cell(2, 6), cell(3, 6), cell(2, 2), cell(3, 1), cell(4, 0),
        ]
    } else if i == 51 {
        // 'S'
        seq![
            cell(0, 0), cell(1, 0), cell(2, 0), cell(3, 0), cell(4, 1), cell(4, 2),
            cell(3, 3), cell(2, 3), cell(1, 3), cell(0, 4), cell(0, 5), cell(1, 6),
            cell(2, 6), cell(3, 6), cell(4, 6),
        ]
    } else if i == 52 {
        // 'T'
        seq![
            cell(0, 6), cell(1, 6), cell(2, 6), cell(3, 6), cell(4, 6), cell(2, 0),
            cell(2, 1), cell(2, 2), cell(2, 3), cell(2, 4), cell(2, 5),
        ]
    } else if i == 53 {
        // 'U'
        seq![
            cell(0, 1), cell(0, 2), cell(0, 3), cell(0, 4), cell(0, 5), cell(0, 6),
            cell(4, 1), cell(4, 2), cell(4, 3), cell(4, 4), cell(4, 5), cell(4, 6),
            cell(1, 0), cell(2, 0), cell(3, 0),
        ]
    } else if i == 54 {
        // 'V'
        seq![
            cell(0, 4), cell(0, 5), cell(0, 6), cell(1, 2), cell(1, 3), cell(2, 0),
            cell(2, 1), cell(3, 2), cell(3, 3), cell(4, 4), cell(4, 5), cell(4, 6),
        ]
    } else if i == 55 {
        // 'W'
        seq![
            cell(0, 2), cell(0, 3), cell(0, 4), cell(0, 5), cell(0, 6), cell(1, 0),
            cell(1, 1), cell(2, 2), cell(2, 3), cell(3, 0), cell(3, 1), cell(4, 2),
            cell(4, 3), cell(4, 4), cell(4, 5), cell(4, 6),
        ]
    } else if i == 56 {
        // 'X'
        seq![
            cell(0, 0), cell(1, 1), cell(2, 2), cell(2, 3), cell(2, 4), cell(3, 5),
            cell(4, 6), cell(4, 0), cell(3, 1), cell(1, 5), cell(0, 6),
        ]
    } else if i == 57 {
        // 'Y'
        seq![
            cell(0, 6), cell(1, 5), cell(2, 4), cell(2, 3), cell(2, 2), cell(2, 1),
            cell(2, 0), cell(3, 5), cell(4, 6),
        ]
    } else if i == 58 {
        // 'Z'
        seq![
            cell(0, 0), cell(1, 0), cell(2, 0), cell(3, 0), cell(4, 0), cell(4, 1),
            cell(3, 2), cell(2, 3), cell(1, 4), cell(0, 5), cell(0, 6), cell(1, 6),
            cell(2, 6), cell(3, 6), cell(4, 6),
        ]
    } else if i == 59 {
        // '['
        seq![
            cell(1, 0), cell(1, 1), cell(1, 2), cell(1, 3), cell(1, 4), cell(1, 5),
            cell(1, 6), cell(2, 0), cell(3, 0), cell(2, 6), cell(3, 6),
        ]
    } else if i == 60 {
        // '\\'
        seq![
            cell(0, 7), cell(1, 6), cell(2, 5), cell(3, 4), cell(4, 3), cell(5, 2),
            cell(6, 1), cell(7, 0),
        ]
    } else if i == 61 {
        // ']'
        seq![
            cell(3, 0), cell(3, 1), cell(3, 2), cell(3, 3), cell(3, 4), cell(3, 5),
            cell(3, 6), cell(1, 0), cell(2, 0), cell(1, 6), cell(2, 6),
        ]
    } else if i == 62 {
        // '^'
        seq![
            cell(2, 7), cell(1, 6), cell(3, 6), cell(0, 5), cell(4, 5),
        ]
    } else if i == 63 {
        // '_'
        seq![
            cell(0, 0), cell(1, 0), cell(2, 0), cell(3, 0), cell(4, 0),
        ]
    } else if i == 64 {
        // '`'
        seq![
            cell(1, 7), cell(2, 6),
        ]
    } else if i == 65 {
        // 'a'
        seq![
            cell(1, 0), cell(2, 0), cell(3, 0), cell(4, 1), cell(4, 2), cell(4, 3),
            cell(4, 4), cell(0, 2), cell(1, 2), cell(2, 2), cell(3, 2), cell(0, 4),
            cell(1, 4), cell(2, 4), cell(3, 4),
        ]
    } else if i == 66 {
        // 'b'
        seq![
            cell(0, 0), cell(0, 1), cell(0, 2), cell(0, 3), cell(0, 4), cell(0, 5),
            cell(0, 6), cell(1, 0), cell(2, 0), cell(3, 0), cell(4, 1), cell(4, 2),
            cell(4, 3), cell(1, 4), cell(2, 4), cell(3, 4),
        ]
    } else if i == 67 {
        // 'c'
        seq![
            cell(1, 0), cell(2, 0), cell(3, 0), cell(0, 1), cell(0, 2), cell(0, 3),
            cell(1, 4), cell(2, 4), cell(3, 4),
        ]
    } else if i == 68 {
        // 'd'
        seq![
            cell(4, 0), cell(4, 1), cell(4, 2), cell(4, 3), cell(4, 4), cell(4, 5),
            cell(4, 6), cell(1, 0), cell(2, 0), cell(3, 0), cell(0, 1), cell(0, 2),
            cell(0, 3), cell(1, 4), cell(2, 4), cell(3, 4),
        ]
    } else if i == 69 {
        // 'e'
        seq![
            cell(1, 0), cell(2, 0), cell(3, 0), cell(0, 1), cell(0, 2), cell(1, 2),
            cell(2, 2), cell(3, 2), cell(4, 2), cell(0, 3), cell(1, 4), cell(2, 4),
            cell(3, 4),
        ]
    } else if i == 70 {
        // 'f'
        seq![
            cell(1, 0), cell(1, 1), cell(1, 2), cell(1, 3), cell(1, 4), cell(1, 5),
            cell(2, 6), cell(3, 6), cell(0, 3), cell(2, 3),
        ]
    } else if i == 71 {
        // 'g'
        seq![
            cell(1, 0), cell(2, 0), cell(3, 0), cell(4, 1), cell(4, 2), cell(4, 3),
            cell(4, 4), cell(0, 2), cell(1, 2), cell(2, 2), cell(3, 2), cell(0, 4),
            cell(1, 4), cell(2, 4), cell(3, 4), cell(0, -1), cell(1, -2), cell(2, -2),
            cell(3, -2),
        ]
    } else if i == 72 {
        // 'h'
        seq![
            cell(0, 0), cell(0, 1), cell(0, 2), cell(0, 3), cell(0, 4), cell(0, 5),
            cell(0, 6), cell(1, 2), cell(2, 2), cell(3, 2), cell(4, 1), cell(4, 0),
        ]
    } else if i == 73 {
        // 'i'
        seq![
            cell(2, 0), cell(2, 1), cell(2, 2), cell(2, 3), cell(2, 4), cell(2, 6),
        ]
    } else if i == 74 {
        // 'j'
        seq![
            cell(3, 0), cell(3, 1), cell(3, 2), cell(3, 3), cell(3, 4), cell(3, 6),
            cell(0, -1), cell(1, -1), cell(2, -1),
        ]
    } else if i == 75 {
        // 'k'
        seq![
            cell(0, 0), cell(0, 1), cell(0, 2), cell(0, 3), cell(0, 4), cell(0, 5),
            cell(0, 6), cell(3, 0), cell(2, 1), cell(1, 2), cell(2, 3), cell(3, 4),
        ]
    } else if i == 76 {
        // 'l'
        seq![
            cell(2, 0), cell(2, 1), cell(2, 2), cell(2, 3), cell(2, 4), cell(2, 5),
            cell(2, 6),
        ]
    } else if i == 77 {
        // 'm'
        seq![
            cell(0, 0), cell(0, 1), cell(0, 2), cell(0, 3), cell(0, 4), cell(1, 2),
            cell(2, 1), cell(2, 0), cell(3, 2), cell(4, 1), cell(4, 0), cell(6, 0),
            cell(6, 1), cell(6, 2), cell(6, 3), cell(6, 4),
        ]
    } else if i == 78 {
        // 'n'
        seq![
            cell(0, 0), cell(0, 1), cell(0, 2), cell(0, 3), cell(0, 4), cell(1, 2),
            cell(2, 2), cell(3, 2), cell(4, 1), cell(4, 0),
        ]
    } else if i == 79 {
        // 'o'
        seq![
            cell(1, 0), cell(2, 0), cell(3, 0), cell(0, 1), cell(4, 1), cell(0, 2),
            cell(4, 2), cell(0, 3), cell(4, 3), cell(1, 4), cell(2, 4), cell(3, 4),
        ]
    } else if i == 80 {
        // 'p'
        seq![
            cell(0, -2), cell(0, -1), cell(0, 0), cell(0, 1), cell(0, 2), cell(0, 3),
            cell(0, 4), cell(1, 2), cell(2, 2), cell(3, 2), cell(4, 3), cell(4, 4),
            cell(1, 4), cell(2, 4), cell(3, 4),
        ]
    } else if i == 81 {
        // 'q'
        seq![
            cell(4, -2), cell(4, -1), cell(4, 0), cell(4, 1), cell(4, 2), cell(4, 3),
            cell(4, 4), cell(1, 0), cell(2, 0), cell(3, 0), cell(0, 1), cell(0, 2),
            cell(0, 3), cell(1, 4), cell(2, 4), cell(3, 4),
        ]
    } else if i == 82 {
        // 'r'
        seq![
            cell(0, 0), cell(0, 1), cell(0, 2), cell(0, 3), cell(0, 4), cell(1, 2),
            cell(2, 3), cell(3, 4),
        ]
    } else if i == 83 {
        // 's'
        seq![
            cell(0, 0), cell(1, 0), cell(2, 0), cell(3, 0), cell(4, 1), cell(3, 2),
            cell(2, 2), cell(1, 2), cell(0, 3), cell(1, 4), cell(2, 4), cell(3, 4),
            cell(4, 4),
        ]
    } else if i == 84 {
        // 't'
        seq![
            cell(1, 0), cell(1, 1), cell(1, 2), cell(1, 3), cell(1, 4), cell(1, 5),
            cell(0, 3), cell(2, 3), cell(2, 0), cell(3, 0),
        ]
    } else if i == 85 {
        // 'u'
        seq![
            cell(0, 1), cell(0, 2), cell(0, 3), cell(0, 4), cell(4, 0), cell(4, 1),
            cell(4, 2), cell(4, 3), cell(4, 4), cell(1, 0), cell(2, 0), cell(3, 0),
        ]
    } else if i == 86 {
        // 'v'
        seq![
            cell(0, 3), cell(0, 4), cell(1, 1), cell(1, 2), cell(2, 0), cell(3, 1),
            cell(3, 2), cell(4, 3), cell(4, 4),
        ]
    } else if i == 87 {
        // 'w'
        seq![
            cell(0, 2), cell(0, 3), cell(0, 4), cell(1, 0), cell(2, 1), cell(2, 2),
            cell(3, 0), cell(4, 2), cell(4, 3), cell(4, 4),
        ]
    } else if i == 88 {
        // 'x'
        seq![
            cell(0, 0), cell(1, 1), cell(2, 2), cell(3, 3), cell(4, 4), cell(4, 0),
            cell(3, 1), cell(1, 3), cell(0, 4),
        ]
    } else if i == 89 {
        // 'y'
        seq![
            cell(0, 4), cell(1, 3), cell(2, 2), cell(2, 1), cell(2, 0), cell(3, 3),
            cell(4, 4), cell(1, -1), cell(0, -2),
        ]
    } else if i == 90 {
        // 'z'
        seq![
            cell(0, 0), cell(1, 0), cell(2, 0), cell(3, 0), cell(4, 0), cell(4, 1),
            cell(3, 2), cell(2, 2), cell(1, 3), cell(0, 4), cell(1, 4), cell(2, 4),
            cell(3, 4), cell(4, 4),
        ]
    } else if i == 91 {
        // '{'
        seq![
            cell(2, 0), cell(2, 1), cell(2, 2), cell(1, 3), cell(2, 4), cell(2, 5),
            cell(2, 6), cell(3, 0), cell(3, 6),
        ]
    } else if i == 92 {
        // '|'
        seq![
            cell(2, 0), cell(2, 1), cell(2, 2), cell(2, 3), cell(2, 4), cell(2, 5),
            cell(2, 6), cell(2, 7),
        ]
    } else if i == 93 {
        // '}'
        seq![
            cell(2, 0), cell(2, 1), cell(2, 2), cell(3, 3), cell(2, 4), cell(2, 5),
            cell(2, 6), cell(1, 0), cell(1, 6),
        ]
    } else if i == 94 {
        // '~'
        seq![
            cell(0, 3), cell(1, 4), cell(2, 4), cell(3, 3), cell(4, 2), cell(5, 2),
            cell(6, 3),
        ]
    } else {
        seq![]
    }
}

/// Builds the glyph in table slot `i`.
pub(crate) fn glyph_at(i: usize) -> (r: Vec<CubePos>)
    requires
        i < 95,
    ensures
        r@ == glyph_cells(i as int),
{
    match i {
        // space
        0 => vec![],
        // '!'
        1 => vec![
            CubePos { x: 2, y: 0 }, CubePos { x: 2, y: 1 }, CubePos { x: 2, y: 2 }, CubePos { x: 2, y: 3 },
            CubePos { x: 2, y: 5 }, CubePos { x: 2, y: 6 }, CubePos { x: 2, y: 7 },
        ],
        // '"'
        2 => vec![
            CubePos { x: 1, y: 5 }, CubePos { x: 1, y: 6 }, CubePos { x: 1, y: 7 }, CubePos { x: 3, y: 5 },
            CubePos { x: 3, y: 6 }, CubePos { x: 3, y: 7 },
        ],
        // '#'
        3 => vec![
            CubePos { x: 1, y: 1 }, CubePos { x: 1, y: 2 }, CubePos { x: 1, y: 3 }, CubePos { x: 1, y: 4 },
            CubePos { x: 1, y: 5 }, CubePos { x: 1, y: 6 }, CubePos { x: 3, y: 1 }, CubePos { x: 3, y: 2 },
            CubePos { x: 3, y: 3 }, CubePos { x: 3, y: 4 }, CubePos { x: 3, y: 5 }, CubePos { x: 3, y: 6 },
            CubePos { x: 0, y: 2 }, CubePos { x: 2, y: 2 }, CubePos { x: 4, y: 2 }, CubePos { x: 0, y: 5 },
            CubePos { x: 2, y: 5 }, CubePos { x: 4, y: 5 },
        ],
        // '$'
        4 => vec![
            CubePos { x: 2, y: 0 }, CubePos { x: 2, y: 1 }, CubePos { x: 2, y: 2 }, CubePos { x: 2, y: 3 },
            CubePos { x: 2, y: 4 }, CubePos { x: 2, y: 5 }, CubePos { x: 2, y: 6 }, CubePos { x: 2, y: 7 },
            CubePos { x: 0, y: 1 }, CubePos { x: 1, y: 1 }, CubePos { x: 3, y: 1 }, CubePos { x: 0, y: 2 },
            CubePos { x: 1, y: 3 }, CubePos { x: 3, y: 3 }, CubePos { x: 0, y: 4 }, CubePos { x: 1, y: 5 },
            CubePos { x: 3, y: 5 }, CubePos { x: 0, y: 6 }, CubePos { x: 1, y: 6 }, CubePos { x: 3, y: 6 },
        ],
        // '%'
        5 => vec![
            CubePos { x: 0, y: 0 }, CubePos { x: 1, y: 1 }, CubePos { x: 2, y: 2 }, CubePos { x: 3, y: 3 },
            CubePos { x: 4, y: 4 }, CubePos { x: 5, y: 5 }, CubePos { x: 6, y: 6 }, CubePos { x: 7, y: 7 },
            CubePos { x: 0, y: 5 }, CubePos { x: 0, y: 6 }, CubePos { x: 1, y: 6 }, CubePos { x: 1, y: 5 },
            CubePos { x: 6, y: 1 }, CubePos { x: 6, y: 2 }, CubePos { x: 7, y: 2 }, CubePos { x: 7, y: 1 },
        ],
        // '&'
        6 => vec![
            CubePos { x: 1, y: 0 }, CubePos { x: 2, y: 0 }, CubePos { x: 3, y: 0 }, CubePos { x: 0, y: 1 },
            CubePos { x: 4, y: 1 }, CubePos { x: 0, y: 2 }, CubePos { x: 1, y: 3 }, CubePos { x: 2, y: 3 },
            CubePos { x: 0, y: 4 }, CubePos { x: 3, y: 4 }, CubePos { x: 0, y: 5 }, CubePos { x: 4, y: 5 },
            CubePos { x: 1, y: 6 }, CubePos { x: 2, y: 6 }, CubePos { x: 4, y: 6 }, CubePos { x: 5, y: 6 },
        ],
        // '\''
        7 => vec![
            CubePos { x: 2, y: 5 }, CubePos { x: 2, y: 6 }, CubePos { x: 2, y: 7 },
        ],
        // '('
        8 => vec![
            CubePos { x: 2, y: 1 }, CubePos { x: 1, y: 2 }, CubePos { x: 1, y: 3 }, CubePos { x: 1, y: 4 },
            CubePos { x: 1, y: 5 }, CubePos { x: 2, y: 6 },
        ],
        // ')'
        9 => vec![
            CubePos { x: 1, y: 1 }, CubePos { x: 2, y: 2 }, CubePos { x: 2, y: 3 }, CubePos { x: 2, y: 4 },
            CubePos { x: 2, y: 5 }, CubePos { x: 1, y: 6 },
        ],
        // '*'
        10 => vec![
            CubePos { x: 2, y: 2 }, CubePos { x: 2, y: 3 }, CubePos { x: 2, y: 4 }, CubePos { x: 1, y: 3 },
            CubePos { x: 3, y: 3 }, CubePos { x: 1, y: 2 }, CubePos { x: 3, y: 4 }, CubePos { x: 1, y: 4 },
            CubePos { x: 3, y: 2 },
        ],
        // '+'
        11 => vec![
            CubePos { x: 2, y: 1 }, CubePos { x: 2, y: 2 }, CubePos { x: 2, y: 3 }, CubePos { x: 2, y: 4 },
            CubePos { x: 2, y: 5 }, CubePos { x: 0, y: 3 }, CubePos { x: 1, y: 3 }, CubePos { x: 3, y: 3 },
            CubePos { x: 4, y: 3 },
        ],
        // ','
        12 => vec![
            CubePos { x: 2, y: 0 }, CubePos { x: 1, y: 1 },
        ],
        // '-'
        13 => vec![
            CubePos { x: 0, y: 3 }, CubePos { x: 1, y: 3 }, CubePos { x: 2, y: 3 }, CubePos { x: 3, y: 3 },
            CubePos { x: 4, y: 3 },
        ],
        // '.'
        14 => vec![
            CubePos { x: 2, y: 0 },
        ],
        // '/'
        15 => vec![
            CubePos { x: 0, y: 0 }, CubePos { x: 1, y: 1 }, CubePos { x: 2, y: 2 }, CubePos { x: 3, y: 3 },
            CubePos { x: 4, y: 4 }, CubePos { x: 5, y: 5 }, CubePos { x: 6, y: 6 }, CubePos { x: 7, y: 7 },
        ],
        // '0'
        16 => vec![
            CubePos { x: 1, y: 0 }, CubePos { x: 2, y: 0 }, CubePos { x: 3, y: 0 }, CubePos { x: 0, y: 1 },
            CubePos { x: 4, y: 1 }, CubePos { x: 0, y: 2 }, CubePos { x: 4, y: 2 }, CubePos { x: 0, y: 3 },
            CubePos { x: 4, y: 3 }, CubePos { x: 0, y: 4 }, CubePos { x: 4, y: 4 }, CubePos { x: 0, y: 5 },
            CubePos { x: 4, y: 5 }, CubePos { x: 1, y: 6 }, CubePos { x: 2, y: 6 }, CubePos { x: 3, y: 6 },
        ],
        // '1'
        17 => vec![
            CubePos { x: 2, y: 0 }, CubePos { x: 2, y: 1 }, CubePos { x: 2, y: 2 }, CubePos { x: 2, y: 3 },
            CubePos { x: 2, y: 4 }, CubePos { x: 2, y: 5 }, CubePos { x: 2, y: 6 }, CubePos { x: 1, y: 5 },
            CubePos { x: 0, y: 0 }, CubePos { x: 1, y: 0 }, CubePos { x: 3, y: 0 }, CubePos { x: 4, y: 0 },
        ],
        // '2'
        18 => vec![
            CubePos { x: 0, y: 0 }, CubePos { x: 1, y: 0 }, CubePos { x: 2, y: 0 }, CubePos { x: 3, y: 0 },
            CubePos { x: 4, y: 0 }, CubePos { x: 0, y: 1 }, CubePos { x: 1, y: 2 }, CubePos { x: 2, y: 3 },
            CubePos { x: 3, y: 4 }, CubePos { x: 4, y: 5 }, CubePos { x: 0, y: 6 }, CubePos { x: 1, y: 6 },
            CubePos { x: 2, y: 6 }, CubePos { x: 3, y: 6 },
        ],
        // '3'
        19 => vec![
            CubePos { x: 0, y: 0 }, CubePos { x: 1, y: 0 }, CubePos { x: 2, y: 0 }, CubePos { x: 3, y: 0 },
            CubePos { x: 4, y: 1 }, CubePos { x: 4, y: 2 }, CubePos { x: 1, y: 3 }, CubePos { x: 2, y: 3 },
            CubePos { x: 3, y: 3 }, CubePos { x: 4, y: 4 }, CubePos { x: 4, y: 5 }, CubePos { x: 0, y: 6 },
            CubePos { x: 1, y: 6 }, CubePos { x: 2, y: 6 }, CubePos { x: 3, y: 6 },
        ],
        // '4'
        20 => vec![
            CubePos { x: 0, y: 3 }, CubePos { x: 1, y: 3 }, CubePos { x: 2, y: 3 }, CubePos { x: 3, y: 3 },
            CubePos { x: 4, y: 3 }, CubePos { x: 3, y: 0 }, CubePos { x: 3, y: 1 }, CubePos { x: 3, y: 2 },
            CubePos { x: 3, y: 4 }, CubePos { x: 3, y: 5 }, CubePos { x: 3, y: 6 }, CubePos { x: 0, y: 4 },
            CubePos { x: 1, y: 5 }, CubePos { x: 2, y: 6 },
        ],
        // '5'
        21 => vec![
            CubePos { x: 0, y: 0 }, CubePos { x: 1, y: 0 }, CubePos { x: 2, y: 0 }, CubePos { x: 3, y: 0 },
            CubePos { x: 4, y: 1 }, CubePos { x: 4, y: 2 }, CubePos { x: 0, y: 3 }, CubePos { x: 1, y: 3 },
            CubePos { x: 2, y: 3 }, CubePos { x: 3, y: 3 }, CubePos { x: 0, y: 4 }, CubePos { x: 0, y: 5 },
            CubePos { x: 0, y: 6 }, CubePos { x: 1, y: 6 }, CubePos { x: 2, y: 6 }, CubePos { x: 3, y: 6 },
            CubePos { x: 4, y: 6 },
        ],
        // '6'
        22 => vec![
            CubePos { x: 1, y: 0 }, CubePos { x: 2, y: 0 }, CubePos { x: 3, y: 0 }, CubePos { x: 0, y: 1 },
            CubePos { x: 4, y: 1 }, CubePos { x: 0, y: 2 }, CubePos { x: 4, y: 2 }, CubePos { x: 0, y: 3 },
            CubePos { x: 1, y: 3 }, CubePos { x: 2, y: 3 }, CubePos { x: 3, y: 3 }, CubePos { x: 0, y: 4 },
            CubePos { x: 0, y: 5 }, CubePos { x: 1, y: 6 }, CubePos { x: 2, y: 6 }, CubePos { x: 3, y: 6 },
        ],
        // '7'
        23 => vec![
            CubePos { x: 0, y: 6 }, CubePos { x: 1, y: 6 }, CubePos { x: 2, y: 6 }, CubePos { x: 3, y: 6 },
            CubePos { x: 4, y: 6 }, CubePos { x: 4, y: 5 }, CubePos { x: 3, y: 4 }, CubePos { x: 2, y: 3 },
            CubePos { x: 1, y: 2 }, CubePos { x: 1, y: 1 }, CubePos { x: 1, y: 0 },
        ],
        // '8'
        24 => vec![
            CubePos { x: 1, y: 0 }, CubePos { x: 2, y: 0 }, CubePos { x: 3, y: 0 }, CubePos { x: 0, y: 1 },
            CubePos { x: 4, y: 1 }, CubePos { x: 0, y: 2 }, CubePos { x: 4, y: 2 }, CubePos { x: 1, y: 3 },
            CubePos { x: 2, y: 3 }, CubePos { x: 3, y: 3 }, CubePos { x: 0, y: 4 }, CubePos { x: 4, y: 4 },
            CubePos { x: 0, y: 5 }, CubePos { x: 4, y: 5 }, CubePos { x: 1, y: 6 }, CubePos { x: 2, y: 6 },
            CubePos { x: 3, y: 6 },
        ],
        // '9'
        25 => vec![
            CubePos { x: 1, y: 0 }, CubePos { x: 2, y: 0 }, CubePos { x: 3, y: 0 }, CubePos { x: 4, y: 1 },
            CubePos { x: 4, y: 2 }, CubePos { x: 0, y: 3 }, CubePos { x: 1, y: 3 }, CubePos { x: 2, y: 3 },
            CubePos { x: 3, y: 3 }, CubePos { x: 4, y: 3 }, CubePos { x: 0, y: 4 }, CubePos { x: 4, y: 4 },
            CubePos { x: 0, y: 5 }, CubePos { x: 4, y: 5 }, CubePos { x: 1, y: 6 }, CubePos { x: 2, y: 6 },
            CubePos { x: 3, y: 6 },
        ],
        // ':'
        26 => vec![
            CubePos { x: 2, y: 1 }, CubePos { x: 2, y: 5 },
        ],
        // ';'
        27 => vec![
            CubePos { x: 2, y: 0 }, CubePos { x: 1, y: 1 }, CubePos { x: 2, y: 5 },
        ],
        // '<'
        28 => vec![
            CubePos { x: 4, y: 1 }, CubePos { x: 3, y: 2 }, CubePos { x: 2, y: 3 }, CubePos { x: 1, y: 4 },
            CubePos { x: 2, y: 5 }, CubePos { x: 3, y: 6 }, CubePos { x: 4, y: 7 },
        ],
        // '='
        29 => vec![
            CubePos { x: 0, y: 2 }, CubePos { x: 1, y: 2 }, CubePos { x: 2, y: 2 }, CubePos { x: 3, y: 2 },
            CubePos { x: 4, y: 2 }, CubePos { x: 0, y: 4 }, CubePos { x: 1, y: 4 }, CubePos { x: 2, y: 4 },
            CubePos { x: 3, y: 4 }, CubePos { x: 4, y: 4 },
        ],
        // '>'
        30 => vec![
            CubePos { x: 0, y: 1 }, CubePos { x: 1, y: 2 }, CubePos { x: 2, y: 3 }, CubePos { x: 3, y: 4 },
            CubePos { x: 2, y: 5 }, CubePos { x: 1, y: 6 }, CubePos { x: 0, y: 7 },
        ],
        // '?'
        31 => vec![
            CubePos { x: 0, y: 5 }, CubePos { x: 1, y: 6 }, CubePos { x: 2, y: 6 }, CubePos { x: 3, y: 6 },
            CubePos { x: 4, y: 5 }, CubePos { x: 4, y: 4 }, CubePos { x: 3, y: 3 }, CubePos { x: 2, y: 3 },
            CubePos { x: 2, y: 2 }, CubePos { x: 2, y: 0 },
        ],
        // '@'
        32 => vec![
            CubePos { x: 1, y: 0 }, CubePos { x: 2, y: 0 }, CubePos { x: 3, y: 0 }, CubePos { x: 4, y: 0 },
            CubePos { x: 0, y: 1 }, CubePos { x: 5, y: 1 }, CubePos { x: 0, y: 2 }, CubePos { x: 2, y: 2 },
            CubePos { x: 3, y: 2 }, CubePos { x: 4, y: 2 }, CubePos { x: 5, y: 2 }, CubePos { x: 0, y: 3 },
            CubePos { x: 2, y: 3 }, CubePos { x: 4, y: 3 }, CubePos { x: 0, y: 4 }, CubePos { x: 2, y: 4 },
            CubePos { x: 3, y: 4 }, CubePos { x: 4, y: 4 }, CubePos { x: 1, y: 5 }, CubePos { x: 2, y: 5 },
            CubePos { x: 3, y: 5 }, CubePos { x: 4, y: 5 },
        ],
        // 'A'
        33 => vec![
            CubePos { x: 0, y: 0 }, CubePos { x: 0, y: 1 }, CubePos { x: 0, y: 2 }, CubePos { x: 0, y: 3 },
            CubePos { x: 0, y: 4 }, CubePos { x: 0, y: 5 }, CubePos { x: 4, y: 0 }, CubePos { x: 4, y: 1 },
            CubePos { x: 4, y: 2 }, CubePos { x: 4, y: 3 }, CubePos { x: 4, y: 4 }, CubePos { x: 4, y: 5 },
            CubePos { x: 1, y: 6 }, CubePos { x: 2, y: 6 }, CubePos { x: 3, y: 6 }, CubePos { x: 1, y: 3 },
            CubePos { x: 2, y: 3 }, CubePos { x: 3, y: 3 },
        ],
        // 'B'
        34 => vec![
            CubePos { x: 0, y: 0 }, CubePos { x: 0, y: 1 }, CubePos { x: 0, y: 2 }, CubePos { x: 0, y: 3 },
            CubePos { x: 0, y: 4 }, CubePos { x: 0, y: 5 }, CubePos { x: 0, y: 6 }, CubePos { x: 1, y: 0 },
            CubePos { x: 2, y: 0 }, CubePos { x: 3, y: 0 }, CubePos { x: 4, y: 1 }, CubePos { x: 4, y: 2 },
            CubePos { x: 1, y: 3 }, CubePos { x: 2, y: 3 }, CubePos { x: 3, y: 3 }, CubePos { x: 4, y: 4 },
            CubePos { x: 4, y: 5 }, CubePos { x: 1, y: 6 }, CubePos { x: 2, y: 6 }, CubePos { x: 3, y: 6 },
        ],
        // 'C'
        35 => vec![
            CubePos { x: 1, y: 0 }, CubePos { x: 2, y: 0 }, CubePos { x: 3, y: 0 }, CubePos { x: 4, y: 0 },
            CubePos { x: 0, y: 1 }, CubePos { x: 0, y: 2 }, CubePos { x: 0, y: 3 }, CubePos { x: 0, y: 4 },
            CubePos { x: 0, y: 5 }, CubePos { x: 1, y: 6 }, CubePos { x: 2, y: 6 }, CubePos { x: 3, y: 6 },
            CubePos { x: 4, y: 6 },
        ],
        // 'D'
        36 => vec![
            CubePos { x: 0, y: 0 }, CubePos { x: 0, y: 1 }, CubePos { x: 0, y: 2 }, CubePos { x: 0, y: 3 },
            CubePos { x: 0, y: 4 }, CubePos { x: 0, y: 5 }, CubePos { x: 0, y: 6 }, CubePos { x: 1, y: 0 },
            CubePos { x: 2, y: 0 }, CubePos { x: 3, y: 0 }, CubePos { x: 4, y: 1 }, CubePos { x: 4, y: 2 },
            CubePos { x: 4, y: 3 }, CubePos { x: 4, y: 4 }, CubePos { x: 4, y: 5 }, CubePos { x: 1, y: 6 },
            CubePos { x: 2, y: 6 }, CubePos { x: 3, y: 6 },
        ],
        // 'E'
        37 => vec![
            CubePos { x: 0, y: 0 }, CubePos { x: 0, y: 1 }, CubePos { x: 0, y: 2 }, CubePos { x: 0, y: 3 },
            CubePos { x: 0, y: 4 }, CubePos { x: 0, y: 5 }, CubePos { x: 0, y: 6 }, CubePos { x: 1, y: 0 },
            CubePos { x: 2, y: 0 }, CubePos { x: 3, y: 0 }, CubePos { x: 4, y: 0 }, CubePos { x: 1, y: 3 },
            CubePos { x: 2, y: 3 }, CubePos { x: 3, y: 3 }, CubePos { x: 1, y: 6 }, CubePos { x: 2, y: 6 },
            CubePos { x: 3, y: 6 }, CubePos { x: 4, y: 6 },
        ],
        // 'F'
        38 => vec![
            CubePos { x: 0, y: 0 }, CubePos { x: 0, y: 1 }, CubePos { x: 0, y: 2 }, CubePos { x: 0, y: 3 },
            CubePos { x: 0, y: 4 }, CubePos { x: 0, y: 5 }, CubePos { x: 0, y: 6 }, CubePos { x: 1, y: 3 },
            CubePos { x: 2, y: 3 }, CubePos { x: 3, y: 3 }, CubePos { x: 1, y: 6 }, CubePos { x: 2, y: 6 },
            CubePos { x: 3, y: 6 }, CubePos { x: 4, y: 6 },
        ],
        // 'G'
        39 => vec![
            CubePos { x: 1, y: 0 }, CubePos { x: 2, y: 0 }, CubePos { x: 3, y: 0 }, CubePos { x: 4, y: 0 },
            CubePos { x: 0, y: 1 }, CubePos { x: 0, y: 2 }, CubePos { x: 0, y: 3 }, CubePos { x: 0, y: 4 },
            CubePos { x: 0, y: 5 }, CubePos { x: 1, y: 6 }, CubePos { x: 2, y: 6 }, CubePos { x: 3, y: 6 },
            CubePos { x: 4, y: 6 }, CubePos { x: 4, y: 5 }, CubePos { x: 4, y: 4 }, CubePos { x: 3, y: 3 },
            CubePos { x: 4, y: 3 },
        ],
        // 'H'
        40 => vec![
            CubePos { x: 0, y: 0 }, CubePos { x: 0, y: 1 }, CubePos { x: 0, y: 2 }, CubePos { x: 0, y: 3 },
            CubePos { x: 0, y: 4 }, CubePos { x: 0, y: 5 }, CubePos { x: 0, y: 6 }, CubePos { x: 4, y: 0 },
            CubePos { x: 4, y: 1 }, CubePos { x: 4, y: 2 }, CubePos { x: 4, y: 3 }, CubePos { x: 4, y: 4 },
            CubePos { x: 4, y: 5 }, CubePos { x: 4, y: 6 }, CubePos { x: 1, y: 3 }, CubePos { x: 2, y: 3 },
            CubePos { x: 3, y: 3 },
        ],
        // 'I'
        41 => vec![
            CubePos { x: 0, y: 0 }, CubePos { x: 1, y: 0 }, CubePos { x: 2, y: 0 }, CubePos { x: 3, y: 0 },
            CubePos { x: 4, y: 0 }, CubePos { x: 2, y: 1 }, CubePos { x: 2, y: 2 }, CubePos { x: 2, y: 3 },
            CubePos { x: 2, y: 4 }, CubePos { x: 2, y: 5 }, CubePos { x: 0, y: 6 }, CubePos { x: 1, y: 6 },
            CubePos { x: 2, y: 6 }, CubePos { x: 3, y: 6 }, CubePos { x: 4, y: 6 },
        ],
        // 'J'
        42 => vec![
            CubePos { x: 0, y: 0 }, CubePos { x: 1, y: 0 }, CubePos { x: 2, y: 0 }, CubePos { x: 3, y: 1 },
            CubePos { x: 3, y: 2 }, CubePos { x: 3, y: 3 }, CubePos { x: 3, y: 4 }, CubePos { x: 3, y: 5 },
            CubePos { x: 0, y: 6 }, CubePos { x: 1, y: 6 }, CubePos { x: 2, y: 6 }, CubePos { x: 3, y: 6 },
            CubePos { x: 4, y: 6 },
        ],
        // 'K'
        43 => vec![
            CubePos { x: 0, y: 0 }, CubePos { x: 0, y: 1 }, CubePos { x: 0, y: 2 }, CubePos { x: 0, y: 3 },
            CubePos { x: 0, y: 4 }, CubePos { x: 0, y: 5 }, CubePos { x: 0, y: 6 }, CubePos { x: 4, y: 0 },
            CubePos { x: 3, y: 1 }, CubePos { x: 2, y: 2 }, CubePos { x: 1, y: 3 }, CubePos { x: 2, y: 4 },
            CubePos { x: 3, y: 5 }, CubePos { x: 4, y: 6 },
        ],
        // 'L'
        44 => vec![
            CubePos { x: 0, y: 0 }, CubePos { x: 0, y: 1 }, CubePos { x: 0, y: 2 }, CubePos { x: 0, y: 3 },
            CubePos { x: 0, y: 4 }, CubePos { x: 0, y: 5 }, CubePos { x: 0, y: 6 }, CubePos { x: 1, y: 0 },
            CubePos { x: 2, y: 0 }, CubePos { x: 3, y: 0 }, CubePos { x: 4, y: 0 },
        ],
        // 'M'
        45 => vec![
            CubePos { x: 0, y: 0 }, CubePos { x: 0, y: 1 }, CubePos { x: 0, y: 2 }, CubePos { x: 0, y: 3 },
            CubePos { x: 0, y: 4 }, CubePos { x: 0, y: 5 }, CubePos { x: 0, y: 6 }, CubePos { x: 6, y: 0 },
            CubePos { x: 6, y: 1 }, CubePos { x: 6, y: 2 }, CubePos { x: 6, y: 3 }, CubePos { x: 6, y: 4 },
            CubePos { x: 6, y: 5 }, CubePos { x: 6, y: 6 }, CubePos { x: 1, y: 5 }, CubePos { x: 2, y: 4 },
            CubePos { x: 3, y: 3 }, CubePos { x: 4, y: 4 }, CubePos { x: 5, y: 5 },
        ],
        // 'N'
        46 => vec![
            CubePos { x: 0, y: 0 }, CubePos { x: 0, y: 1 }, CubePos { x: 0, y: 2 }, CubePos { x: 0, y: 3 },
            CubePos { x: 0, y: 4 }, CubePos { x: 0, y: 5 }, CubePos { x: 0, y: 6 }, CubePos { x: 4, y: 0 },
            CubePos { x: 4, y: 1 }, CubePos { x: 4, y: 2 }, CubePos { x: 4, y: 3 }, CubePos { x: 4, y: 4 },
            CubePos { x: 4, y: 5 }, CubePos { x: 4, y: 6 }, CubePos { x: 1, y: 1 }, CubePos { x: 2, y: 2 },
            CubePos { x: 3, y: 3 },
        ],
        // 'O'
        47 => vec![
            CubePos { x: 1, y: 0 }, CubePos { x: 2, y: 0 }, CubePos { x: 3, y: 0 }, CubePos { x: 0, y: 1 },
            CubePos { x: 4, y: 1 }, CubePos { x: 0, y: 2 }, CubePos { x: 4, y: 2 }, CubePos { x: 0, y: 3 },
            CubePos { x: 4, y: 3 }, CubePos { x: 0, y: 4 }, CubePos { x: 4, y: 4 }, CubePos { x: 0, y: 5 },
            CubePos { x: 4, y: 5 }, CubePos { x: 1, y: 6 }, CubePos { x: 2, y: 6 }, CubePos { x: 3, y: 6 },
        ],
        // 'P'
        48 => vec![
            CubePos { x: 0, y: 0 }, CubePos { x: 0, y: 1 }, CubePos { x: 0, y: 2 }, CubePos { x: 0, y: 3 },
            CubePos { x: 0, y: 4 }, CubePos { x: 0, y: 5 }, CubePos { x: 0, y: 6 }, CubePos { x: 1, y: 3 },
            CubePos { x: 2, y: 3 }, CubePos { x: 3, y: 3 }, CubePos { x: 4, y: 4 }, CubePos { x: 4, y: 5 },
            CubePos { x: 1, y: 6 }, CubePos { x: 2, y: 6 }, CubePos { x: 3, y: 6 },
        ],
        // 'Q'
        49 => vec![
            CubePos { x: 1, y: 0 }, CubePos { x: 2, y: 0 }, CubePos { x: 3, y: 0 }, CubePos { x: 0, y: 1 },
            CubePos { x: 4, y: 1 }, CubePos { x: 0, y: 2 }, CubePos { x: 4, y: 2 }, CubePos { x: 0, y: 3 },
            CubePos { x: 4, y: 3 }, CubePos { x: 0, y: 4 }, CubePos { x: 4, y: 4 }, CubePos { x: 0, y: 5 },
            CubePos { x: 4, y: 5 }, CubePos { x: 1, y: 6 }, CubePos { x: 2, y: 6 }, CubePos { x: 3, y: 6 },
            CubePos { x: 3, y: 1 }, CubePos { x: 4, y: 0 },
        ],
        // 'R'
        50 => vec![
            CubePos { x: 0, y: 0 }, CubePos { x: 0, y: 1 }, CubePos { x: 0, y: 2 }, CubePos { x: 0, y: 3 },
            CubePos { x: 0, y: 4 }, CubePos { x: 0, y: 5 }, CubePos { x: 0, y: 6 }, CubePos { x: 1, y: 3 },
            CubePos { x: 2, y: 3 }, CubePos { x: 3, y: 3 }, CubePos { x: 4, y: 4 }, CubePos { x: 4, y: 5 },
            CubePos { x: 1, y: 6 }, CubePos { x: 2, y: 6 }, CubePos { x: 3, y: 6 }, CubePos { x: 2, y: 2 },
            CubePos { x: 3, y: 1 }, CubePos { x: 4, y: 0 },
        ],
        // 'S'
        51 => vec![
            CubePos { x: 0, y: 0 }, CubePos { x: 1, y: 0 }, CubePos { x: 2, y: 0 }, CubePos { x: 3, y: 0 },
            CubePos { x: 4, y: 1 }, CubePos { x: 4, y: 2 }, CubePos { x: 3, y: 3 }, CubePos { x: 2, y: 3 },
            CubePos { x: 1, y: 3 }, CubePos { x: 0, y: 4 }, CubePos { x: 0, y: 5 }, CubePos { x: 1, y: 6 },
            CubePos { x: 2, y: 6 }, CubePos { x: 3, y: 6 }, CubePos { x: 4, y: 6 },
        ],
        // 'T'
        52 => vec![
            CubePos { x: 0, y: 6 }, CubePos { x: 1, y: 6 }, CubePos { x: 2, y: 6 }, CubePos { x: 3, y: 6 },
            CubePos { x: 4, y: 6 }, CubePos { x: 2, y: 0 }, CubePos { x: 2, y: 1 }, CubePos { x: 2, y: 2 },
            CubePos { x: 2, y: 3 }, CubePos { x: 2, y: 4 }, CubePos { x: 2, y: 5 },
        ],
        // 'U'
        53 => vec![
            CubePos { x: 0, y: 1 }, CubePos { x: 0, y: 2 }, CubePos { x: 0, y: 3 }, CubePos { x: 0, y: 4 },
            CubePos { x: 0, y: 5 }, CubePos { x: 0, y: 6 }, CubePos { x: 4, y: 1 }, CubePos { x: 4, y: 2 },
            CubePos { x: 4, y: 3 }, CubePos { x: 4, y: 4 }, CubePos { x: 4, y: 5 }, CubePos { x: 4, y: 6 },
            CubePos { x: 1, y: 0 }, CubePos { x: 2, y: 0 }, CubePos { x: 3, y: 0 },
        ],
        // 'V'
        54 => vec![
            CubePos { x: 0, y: 4 }, CubePos { x: 0, y: 5 }, CubePos { x: 0, y: 6 }, CubePos { x: 1, y: 2 },
            CubePos { x: 1, y: 3 }, CubePos { x: 2, y: 0 }, CubePos { x: 2, y: 1 }, CubePos { x: 3, y: 2 },
            CubePos { x: 3, y: 3 }, CubePos { x: 4, y: 4 }, CubePos { x: 4, y: 5 }, CubePos { x: 4, y: 6 },
        ],
        // 'W'
        55 => vec![
            CubePos { x: 0, y: 2 }, CubePos { x: 0, y: 3 }, CubePos { x: 0, y: 4 }, CubePos { x: 0, y: 5 },
            CubePos { x: 0, y: 6 }, CubePos { x: 1, y: 0 }, CubePos { x: 1, y: 1 }, CubePos { x: 2, y: 2 },
            CubePos { x: 2, y: 3 }, CubePos { x: 3, y: 0 }, CubePos { x: 3, y: 1 }, CubePos { x: 4, y: 2 },
            CubePos { x: 4, y: 3 }, CubePos { x: 4, y: 4 }, CubePos { x: 4, y: 5 }, CubePos { x: 4, y: 6 },
        ],
        // 'X'
        56 => vec![
            CubePos { x: 0, y: 0 }, CubePos { x: 1, y: 1 }, CubePos { x: 2, y: 2 }, CubePos { x: 2, y: 3 },
            CubePos { x: 2, y: 4 }, CubePos { x: 3, y: 5 }, CubePos { x: 4, y: 6 }, CubePos { x: 4, y: 0 },
            CubePos { x: 3, y: 1 }, CubePos { x: 1, y: 5 }, CubePos { x: 0, y: 6 },
        ],
        // 'Y'
        57 => vec![
            CubePos { x: 0, y: 6 }, CubePos { x: 1, y: 5 }, CubePos { x: 2, y: 4 }, CubePos { x: 2, y: 3 },
            CubePos { x: 2, y: 2 }, CubePos { x: 2, y: 1 }, CubePos { x: 2, y: 0 }, CubePos { x: 3, y: 5 },
            CubePos { x: 4, y: 6 },
        ],
        // 'Z'
        58 => vec![
            CubePos { x: 0, y: 0 }, CubePos { x: 1, y: 0 }, CubePos { x: 2, y: 0 }, CubePos { x: 3, y: 0 },
            CubePos { x: 4, y: 0 }, CubePos { x: 4, y: 1 }, CubePos { x: 3, y: 2 }, CubePos { x: 2, y: 3 },
            CubePos { x: 1, y: 4 }, CubePos { x: 0, y: 5 }, CubePos { x: 0, y: 6 }, CubePos { x: 1, y: 6 },
            CubePos { x: 2, y: 6 }, CubePos { x: 3, y: 6 }, CubePos { x: 4, y: 6 },
        ],
        // '['
        59 => vec![
            CubePos { x: 1, y: 0 }, CubePos { x: 1, y: 1 }, CubePos { x: 1, y: 2 }, CubePos { x: 1, y: 3 },
            CubePos { x: 1, y: 4 }, CubePos { x: 1, y: 5 }, CubePos { x: 1, y: 6 }, CubePos { x: 2, y: 0 },
            CubePos { x: 3, y: 0 }, CubePos { x: 2, y: 6 }, CubePos { x: 3, y: 6 },
        ],
        // '\\'
        60 => vec![
            CubePos { x: 0, y: 7 }, CubePos { x: 1, y: 6 }, CubePos { x: 2, y: 5 }, CubePos { x: 3, y: 4 },
            CubePos { x: 4, y: 3 }, CubePos { x: 5, y: 2 }, CubePos { x: 6, y: 1 }, CubePos { x: 7, y: 0 },
        ],
        // ']'
        61 => vec![
            CubePos { x: 3, y: 0 }, CubePos { x: 3, y: 1 }, CubePos { x: 3, y: 2 }, CubePos { x: 3, y: 3 },
            CubePos { x: 3, y: 4 }, CubePos { x: 3, y: 5 }, CubePos { x: 3, y: 6 }, CubePos { x: 1, y: 0 },
            CubePos { x: 2, y: 0 }, CubePos { x: 1, y: 6 }, CubePos { x: 2, y: 6 },
        ],
        // '^'
        62 => vec![
            CubePos { x: 2, y: 7 }, CubePos { x: 1, y: 6 }, CubePos { x: 3, y: 6 }, CubePos { x: 0, y: 5 },
            CubePos { x: 4, y: 5 },
        ],
        // '_'
        63 => vec![
            CubePos { x: 0, y: 0 }, CubePos { x: 1, y: 0 }, CubePos { x: 2, y: 0 }, CubePos { x: 3, y: 0 },
            CubePos { x: 4, y: 0 },
        ],
        // '`'
        64 => vec![
            CubePos { x: 1, y: 7 }, CubePos { x: 2, y: 6 },
        ],
        // 'a'
        65 => vec![
            CubePos { x: 1, y: 0 }, CubePos { x: 2, y: 0 }, CubePos { x: 3, y: 0 }, CubePos { x: 4, y: 1 },
            CubePos { x: 4, y: 2 }, CubePos { x: 4, y: 3 }, CubePos { x: 4, y: 4 }, CubePos { x: 0, y: 2 },
            CubePos { x: 1, y: 2 }, CubePos { x: 2, y: 2 }, CubePos { x: 3, y: 2 }, CubePos { x: 0, y: 4 },
            CubePos { x: 1, y: 4 }, CubePos { x: 2, y: 4 }, CubePos { x: 3, y: 4 },
        ],
        // 'b'
        66 => vec![
            CubePos { x: 0, y: 0 }, CubePos { x: 0, y: 1 }, CubePos { x: 0, y: 2 }, CubePos { x: 0, y: 3 },
            CubePos { x: 0, y: 4 }, CubePos { x: 0, y: 5 }, CubePos { x: 0, y: 6 }, CubePos { x: 1, y: 0 },
            CubePos { x: 2, y: 0 }, CubePos { x: 3, y: 0 }, CubePos { x: 4, y: 1 }, CubePos { x: 4, y: 2 },
            CubePos { x: 4, y: 3 }, CubePos { x: 1, y: 4 }, CubePos { x: 2, y: 4 }, CubePos { x: 3, y: 4 },
        ],
        // 'c'
        67 => vec![
            CubePos { x: 1, y: 0 }, CubePos { x: 2, y: 0 }, CubePos { x: 3, y: 0 }, CubePos { x: 0, y: 1 },
            CubePos { x: 0, y: 2 }, CubePos { x: 0, y: 3 }, CubePos { x: 1, y: 4 }, CubePos { x: 2, y: 4 },
            CubePos { x: 3, y: 4 },
        ],
        // 'd'
        68 => vec![
            CubePos { x: 4, y: 0 }, CubePos { x: 4, y: 1 }, CubePos { x: 4, y: 2 }, CubePos { x: 4, y: 3 },
            CubePos { x: 4, y: 4 }, CubePos { x: 4, y: 5 }, CubePos { x: 4, y: 6 }, CubePos { x: 1, y: 0 },
            CubePos { x: 2, y: 0 }, CubePos { x: 3, y: 0 }, CubePos { x: 0, y: 1 }, CubePos { x: 0, y: 2 },
            CubePos { x: 0, y: 3 }, CubePos { x: 1, y: 4 }, CubePos { x: 2, y: 4 }, CubePos { x: 3, y: 4 },
        ],
        // 'e'
        69 => vec![
            CubePos { x: 1, y: 0 }, CubePos { x: 2, y: 0 }, CubePos { x: 3, y: 0 }, CubePos { x: 0, y: 1 },
            CubePos { x: 0, y: 2 }, CubePos { x: 1, y: 2 }, CubePos { x: 2, y: 2 }, CubePos { x: 3, y: 2 },
            CubePos { x: 4, y: 2 }, CubePos { x: 0, y: 3 }, CubePos { x: 1, y: 4 }, CubePos { x: 2, y: 4 },
            CubePos { x: 3, y: 4 },
        ],
        // 'f'
        70 => vec![
            CubePos { x: 1, y: 0 }, CubePos { x: 1, y: 1 }, CubePos { x: 1, y: 2 }, CubePos { x: 1, y: 3 },
            CubePos { x: 1, y: 4 }, CubePos { x: 1, y: 5 }, CubePos { x: 2, y: 6 }, CubePos { x: 3, y: 6 },
            CubePos { x: 0, y: 3 }, CubePos { x: 2, y: 3 },
        ],
        // 'g'
        71 => vec![
            CubePos { x: 1, y: 0 }, CubePos { x: 2, y: 0 }, CubePos { x: 3, y: 0 }, CubePos { x: 4, y: 1 },
            CubePos { x: 4, y: 2 }, CubePos { x: 4, y: 3 }, CubePos { x: 4, y: 4 }, CubePos { x: 0, y: 2 },
            CubePos { x: 1, y: 2 }, CubePos { x: 2, y: 2 }, CubePos { x: 3, y: 2 }, CubePos { x: 0, y: 4 },
            CubePos { x: 1, y: 4 }, CubePos { x: 2, y: 4 }, CubePos { x: 3, y: 4 }, CubePos { x: 0, y: -1 },
            CubePos { x: 1, y: -2 }, CubePos { x: 2, y: -2 }, CubePos { x: 3, y: -2 },
        ],
        // 'h'
        72 => vec![
            CubePos { x: 0, y: 0 }, CubePos { x: 0, y: 1 }, CubePos { x: 0, y: 2 }, CubePos { x: 0, y: 3 },
            CubePos { x: 0, y: 4 }, CubePos { x: 0, y: 5 }, CubePos { x: 0, y: 6 }, CubePos { x: 1, y: 2 },
            CubePos { x: 2, y: 2 }, CubePos { x: 3, y: 2 }, CubePos { x: 4, y: 1 }, CubePos { x: 4, y: 0 },
        ],
        // 'i'
        73 => vec![
            CubePos { x: 2, y: 0 }, CubePos { x: 2, y: 1 }, CubePos { x: 2, y: 2 }, CubePos { x: 2, y: 3 },
            CubePos { x: 2, y: 4 }, CubePos { x: 2, y: 6 },
        ],
        // 'j'
        74 => vec![
            CubePos { x: 3, y: 0 }, CubePos { x: 3, y: 1 }, CubePos { x: 3, y: 2 }, CubePos { x: 3, y: 3 },
            CubePos { x: 3, y: 4 }, CubePos { x: 3, y: 6 }, CubePos { x: 0, y: -1 }, CubePos { x: 1, y: -1 },
            CubePos { x: 2, y: -1 },
        ],
        // 'k'
        75 => vec![
            CubePos { x: 0, y: 0 }, CubePos { x: 0, y: 1 }, CubePos { x: 0, y: 2 }, CubePos { x: 0, y: 3 },
            CubePos { x: 0, y: 4 }, CubePos { x: 0, y: 5 }, CubePos { x: 0, y: 6 }, CubePos { x: 3, y: 0 },
            CubePos { x: 2, y: 1 }, CubePos { x: 1, y: 2 }, CubePos { x: 2, y: 3 }, CubePos { x: 3, y: 4 },
        ],
        // 'l'
        76 => vec![
            CubePos { x: 2, y: 0 }, CubePos { x: 2, y: 1 }, CubePos { x: 2, y: 2 }, CubePos { x: 2, y: 3 },
            CubePos { x: 2, y: 4 }, CubePos { x: 2, y: 5 }, CubePos { x: 2, y: 6 },
        ],
        // 'm'
        77 => vec![
            CubePos { x: 0, y: 0 }, CubePos { x: 0, y: 1 }, CubePos { x: 0, y: 2 }, CubePos { x: 0, y: 3 },
            CubePos { x: 0, y: 4 }, CubePos { x: 1, y: 2 }, CubePos { x: 2, y: 1 }, CubePos { x: 2, y: 0 },
            CubePos { x: 3, y: 2 }, CubePos { x: 4, y: 1 }, CubePos { x: 4, y: 0 }, CubePos { x: 6, y: 0 },
            CubePos { x: 6, y: 1 }, CubePos { x: 6, y: 2 }, CubePos { x: 6, y: 3 }, CubePos { x: 6, y: 4 },
        ],
        // 'n'
        78 => vec![
            CubePos { x: 0, y: 0 }, CubePos { x: 0, y: 1 }, CubePos { x: 0, y: 2 }, CubePos { x: 0, y: 3 },
            CubePos { x: 0, y: 4 }, CubePos { x: 1, y: 2 }, CubePos { x: 2, y: 2 }, CubePos { x: 3, y: 2 },
            CubePos { x: 4, y: 1 }, CubePos { x: 4, y: 0 },
        ],
        // 'o'
        79 => vec![
            CubePos { x: 1, y: 0 }, CubePos { x: 2, y: 0 }, CubePos { x: 3, y: 0 }, CubePos { x: 0, y: 1 },
            CubePos { x: 4, y: 1 }, CubePos { x: 0, y: 2 }, CubePos { x: 4, y: 2 }, CubePos { x: 0, y: 3 },
            CubePos { x: 4, y: 3 }, CubePos { x: 1, y: 4 }, CubePos { x: 2, y: 4 }, CubePos { x: 3, y: 4 },
        ],
        // 'p'
        80 => vec![
            CubePos { x: 0, y: -2 }, CubePos { x: 0, y: -1 }, CubePos { x: 0, y: 0 }, CubePos { x: 0, y: 1 },
            CubePos { x: 0, y: 2 }, CubePos { x: 0, y: 3 }, CubePos { x: 0, y: 4 }, CubePos { x: 1, y: 2 },
            CubePos { x: 2, y: 2 }, CubePos { x: 3, y: 2 }, CubePos { x: 4, y: 3 }, CubePos { x: 4, y: 4 },
            CubePos { x: 1, y: 4 }, CubePos { x: 2, y: 4 }, CubePos { x: 3, y: 4 },
        ],
        // 'q'
        81 => vec![
            CubePos { x: 4, y: -2 }, CubePos { x: 4, y: -1 }, CubePos { x: 4, y: 0 }, CubePos { x: 4, y: 1 },
            CubePos { x: 4, y: 2 }, CubePos { x: 4, y: 3 }, CubePos { x: 4, y: 4 }, CubePos { x: 1, y: 0 },
            CubePos { x: 2, y: 0 }, CubePos { x: 3, y: 0 }, CubePos { x: 0, y: 1 }, CubePos { x: 0, y: 2 },
            CubePos { x: 0, y: 3 }, CubePos { x: 1, y: 4 }, CubePos { x: 2, y: 4 }, CubePos { x: 3, y: 4 },
        ],
        // 'r'
        82 => vec![
            CubePos { x: 0, y: 0 }, CubePos { x: 0, y: 1 }, CubePos { x: 0, y: 2 }, CubePos { x: 0, y: 3 },
            CubePos { x: 0, y: 4 }, CubePos { x: 1, y: 2 }, CubePos { x: 2, y: 3 }, CubePos { x: 3, y: 4 },
        ],
        // 's'
        83 => vec![
            CubePos { x: 0, y: 0 }, CubePos { x: 1, y: 0 }, CubePos { x: 2, y: 0 }, CubePos { x: 3, y: 0 },
            CubePos { x: 4, y: 1 }, CubePos { x: 3, y: 2 }, CubePos { x: 2, y: 2 }, CubePos { x: 1, y: 2 },
            CubePos { x: 0, y: 3 }, CubePos { x: 1, y: 4 }, CubePos { x: 2, y: 4 }, CubePos { x: 3, y: 4 },
            CubePos { x: 4, y: 4 },
        ],
        // 't'
        84 => vec![
            CubePos { x: 1, y: 0 }, CubePos { x: 1, y: 1 }, CubePos { x: 1, y: 2 }, CubePos { x: 1, y: 3 },
            CubePos { x: 1, y: 4 }, CubePos { x: 1, y: 5 }, CubePos { x: 0, y: 3 }, CubePos { x: 2, y: 3 },
            CubePos { x: 2, y: 0 }, CubePos { x: 3, y: 0 },
        ],
        // 'u'
        85 => vec![
            CubePos { x: 0, y: 1 }, CubePos { x: 0, y: 2 }, CubePos { x: 0, y: 3 }, CubePos { x: 0, y: 4 },
            CubePos { x: 4, y: 0 }, CubePos { x: 4, y: 1 }, CubePos { x: 4, y: 2 }, CubePos { x: 4, y: 3 },
            CubePos { x: 4, y: 4 }, CubePos { x: 1, y: 0 }, CubePos { x: 2, y: 0 }, CubePos { x: 3, y: 0 },
        ],
        // 'v'
        86 => vec![
            CubePos { x: 0, y: 3 }, CubePos { x: 0, y: 4 }, CubePos { x: 1, y: 1 }, CubePos { x: 1, y: 2 },
            CubePos { x: 2, y: 0 }, CubePos { x: 3, y: 1 }, CubePos { x: 3, y: 2 }, CubePos { x: 4, y: 3 },
            CubePos { x: 4, y: 4 },
        ],
        // 'w'
        87 => vec![
            CubePos { x: 0, y: 2 }, CubePos { x: 0, y: 3 }, CubePos { x: 0, y: 4 }, CubePos { x: 1, y: 0 },
            CubePos { x: 2, y: 1 }, CubePos { x: 2, y: 2 }, CubePos { x: 3, y: 0 }, CubePos { x: 4, y: 2 },
            CubePos { x: 4, y: 3 }, CubePos { x: 4, y: 4 },
        ],
        // 'x'
        88 => vec![
            CubePos { x: 0, y: 0 }, CubePos { x: 1, y: 1 }, CubePos { x: 2, y: 2 }, CubePos { x: 3, y: 3 },
            CubePos { x: 4, y: 4 }, CubePos { x: 4, y: 0 }, CubePos { x: 3, y: 1 }, CubePos { x: 1, y: 3 },
            CubePos { x: 0, y: 4 },
        ],
        // 'y'
        89 => vec![
            CubePos { x: 0, y: 4 }, CubePos { x: 1, y: 3 }, CubePos { x: 2, y: 2 }, CubePos { x: 2, y: 1 },
            CubePos { x: 2, y: 0 }, CubePos { x: 3, y: 3 }, CubePos { x: 4, y: 4 }, CubePos { x: 1, y: -1 },
            CubePos { x: 0, y: -2 },
        ],
        // 'z'
        90 => vec![
            CubePos { x: 0, y: 0 }, CubePos { x: 1, y: 0 }, CubePos { x: 2, y: 0 }, CubePos { x: 3, y: 0 },
            CubePos { x: 4, y: 0 }, CubePos { x: 4, y: 1 }, CubePos { x: 3, y: 2 }, CubePos { x: 2, y: 2 },
            CubePos { x: 1, y: 3 }, CubePos { x: 0, y: 4 }, CubePos { x: 1, y: 4 }, CubePos { x: 2, y: 4 },
            CubePos { x: 3, y: 4 }, CubePos { x: 4, y: 4 },
        ],
        // '{'
        91 => vec![
            CubePos { x: 2, y: 0 }, CubePos { x: 2, y: 1 }, CubePos { x: 2, y: 2 }, CubePos { x: 1, y: 3 },
            CubePos { x: 2, y: 4 }, CubePos { x: 2, y: 5 }, CubePos { x: 2, y: 6 }, CubePos { x: 3, y: 0 },
            CubePos { x: 3, y: 6 },
        ],
        // '|'
        92 => vec![
            CubePos { x: 2, y: 0 }, CubePos { x: 2, y: 1 }, CubePos { x: 2, y: 2 }, CubePos { x: 2, y: 3 },
            CubePos { x: 2, y: 4 }, CubePos { x: 2, y: 5 }, CubePos { x: 2, y: 6 }, CubePos { x: 2, y: 7 },
        ],
        // '}'
        93 => vec![
            CubePos { x: 2, y: 0 }, CubePos { x: 2, y: 1 }, CubePos { x: 2, y: 2 }, CubePos { x: 3, y: 3 },
            CubePos { x: 2, y: 4 }, CubePos { x: 2, y: 5 }, CubePos { x: 2, y: 6 }, CubePos { x: 1, y: 0 },
            CubePos { x: 1, y: 6 },
        ],
        // '~'
        _ => vec![
            CubePos { x: 0, y: 3 }, CubePos { x: 1, y: 4 }, CubePos { x: 2, y: 4 }, CubePos { x: 3, y: 3 },
            CubePos { x: 4, y: 2 }, CubePos { x: 5, y: 2 }, CubePos { x: 6, y: 3 },
        ],
    }
}

} // verus!
