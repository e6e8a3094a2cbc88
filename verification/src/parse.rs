//! The move notation parser: two space-separated two-character tokens, each a
//! file letter A–H followed by a rank digit 1–8 (for example `A2 A4`). Any
//! other text yields no move.

use vstd::prelude::*;

verus! {

/// Whether `c` is a file letter.
pub open spec fn file_char_ok(c: char) -> bool {
    c == 'A' || c == 'B' || c == 'C' || c == 'D' || c == 'E' || c == 'F' || c == 'G' || c == 'H'
}

/// The file named by the letter `c`.
pub open spec fn file_of(c: char) -> int {
    if c == 'A' {
        0
    } else if c == 'B' {
        1
    } else if c == 'C' {
        2
    } else if c == 'D' {
        3
    } else if c == 'E' {
        4
    } else if c == 'F' {
        5
    } else if c == 'G' {
        6
    } else {
        7
    }
}

/// Whether `c` is a rank digit.
pub open spec fn rank_char_ok(c: char) -> bool {
    c == '1' || c == '2' || c == '3' || c == '4' || c == '5' || c == '6' || c == '7' || c == '8'
}

/// The rank named by the digit `c`.
pub open spec fn rank_of(c: char) -> int {
    if c == '1' {
        0
    } else if c == '2' {
        1
    } else if c == '3' {
        2
    } else if c == '4' {
        3
    } else if c == '5' {
        4
    } else if c == '6' {
        5
    } else if c == '7' {
        6
    } else {
        7
    }
}

/// Whether the text is a well-formed move: exactly two two-character square
/// tokens separated by one space.
pub open spec fn move_text_ok(s: Seq<char>) -> bool {
    &&& s.len() == 5
    &&& file_char_ok(s[0])
    &&& rank_char_ok(s[1])
    &&& s[2] == ' '
    &&& file_char_ok(s[3])
    &&& rank_char_ok(s[4])
}

/// The file index of a file letter.
fn file_index(c: char) -> (r: Option<usize>)
    ensures
        r is Some <==> file_char_ok(c),
        r matches Some(v) ==> v == file_of(c) && v < 8,
{
    match c {
        'A' => Some(0),
        'B' => Some(1),
        'C' => Some(2),
        'D' => Some(3),
        'E' => Some(4),
        'F' => Some(5),
        'G' => Some(6),
        'H' => Some(7),
        _ => None,
    }
}

/// The rank index of a rank digit.
fn rank_index(c: char) -> (r: Option<usize>)
    ensures
        r is Some <==> rank_char_ok(c),
        r matches Some(v) ==> v == rank_of(c) && v < 8,
{
    match c {
        '1' => Some(0),
        '2' => Some(1),
        '3' => Some(2),
        '4' => Some(3),
        '5' => Some(4),
        '6' => Some(5),
        '7' => Some(6),
        '8' => Some(7),
        _ => None,
    }
}

/// Parses a move request into an origin and a destination square. Returns a
/// pair of squares exactly for well-formed move text, and nothing otherwise.
pub fn parse_move(expr: &str) -> (r: Option<((usize, usize), (usize, usize))>)
    ensures
        r is Some <==> move_text_ok(expr@),
        r matches Some(m) ==> {
            &&& m.0.0 == file_of(expr@[0])
            &&& m.0.1 == rank_of(expr@[1])
            &&& m.1.0 == file_of(expr@[3])
            &&& m.1.1 == rank_of(expr@[4])
            &&& m.0.0 < 8 && m.0.1 < 8 && m.1.0 < 8 && m.1.1 < 8
        },
{
    if expr.unicode_len() != 5 {
        return None;
    }
    if expr.get_char(2) != ' ' {
        return None;
    }
    let f0 = match file_index(expr.get_char(0)) {
        Some(v) => v,
        None => {
            return None;
        },
    };
    let r0 = match rank_index(expr.get_char(1)) {
        Some(v) => v,
        None => {
            return None;
        },
    };
    let f1 = match file_index(expr.get_char(3)) {
        Some(v) => v,
        None => {
            return None;
        },
    };
    let r1 = match rank_index(expr.get_char(4)) {
        Some(v) => v,
        None => {
            return None;
        },
    };
    Some(((f0, r0), (f1, r1)))
}

} // verus!
