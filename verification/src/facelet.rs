use vstd::prelude::*;

verus! {

use crate::error::ParseError;

/// One sticker colour of the puzzle.
#[derive(Debug, Copy, Clone, Hash, Eq, PartialEq, Structural)]
pub enum Facelet {
    White,
    Orange,
    Green,
    Red,
    Yellow,
    Blue,
}

/// The canonical one-character text form of a facelet.
pub open spec fn facelet_char(f: Facelet) -> char {
    match f {
        Facelet::White => 'W',
        Facelet::Orange => 'O',
        Facelet::Green => 'G',
        Facelet::Red => 'R',
        Facelet::Yellow => 'Y',
        Facelet::Blue => 'B',
    }
}

/// The facelet a character denotes, if it denotes one.
pub open spec fn char_facelet(c: char) -> Option<Facelet> {
    if c == 'W' {
        Some(Facelet::White)
    } else if c == 'O' {
        Some(Facelet::Orange)
    } else if c == 'G' {
        Some(Facelet::Green)
    } else if c == 'R' {
        Some(Facelet::Red)
    } else if c == 'Y' {
        Some(Facelet::Yellow)
    } else if c == 'B' {
        Some(Facelet::Blue)
    } else {
        None
    }
}

impl Facelet {
    /// The canonical character for this facelet.
    pub fn to_char(self) -> (c: char)
        ensures
            c == facelet_char(self),
    {
        match self {
            Facelet::White => 'W',
            Facelet::Orange => 'O',
            Facelet::Green => 'G',
            Facelet::Red => 'R',
            Facelet::Yellow => 'Y',
            Facelet::Blue => 'B',
        }
    }

    /// The canonical one-character text form, borrowed.
    pub fn to_str(self) -> (r: &'static str)
        ensures
            r@ == seq![facelet_char(self)],
    {
        proof {
            reveal_strlit("W");
            reveal_strlit("O");
            reveal_strlit("G");
            reveal_strlit("R");
            reveal_strlit("Y");
            reveal_strlit("B");
        }
        match self {
            Facelet::White => "W",
            Facelet::Orange => "O",
            Facelet::Green => "G",
            Facelet::Red => "R",
            Facelet::Yellow => "Y",
            Facelet::Blue => "B",
        }
    }

    /// The canonical one-character text form.
    pub fn to_text(self) -> (r: String)
        ensures
            r@ == seq![facelet_char(self)],
    {
        String::from_str(self.to_str())
    }

    /// The facelet a single character denotes.
    pub fn from_char(c: char) -> (r: Result<Facelet, ParseError>)
        ensures
            match r {
                Ok(f) => char_facelet(c) == Some(f),
                Err(e) => char_facelet(c) is None && e == ParseError::InvalidFacelet,
            },
    {
        match c {
            'W' => Ok(Facelet::White),
            'O' => Ok(Facelet::Orange),
            'G' => Ok(Facelet::Green),
            'R' => Ok(Facelet::Red),
            'Y' => Ok(Facelet::Yellow),
            'B' => Ok(Facelet::Blue),
            _ => Err(ParseError::InvalidFacelet),
        }
    }

    /// The facelet a one-character string denotes; anything else is rejected.
    pub fn from_text(s: &str) -> (r: Result<Facelet, ParseError>)
        ensures
            match r {
                Ok(f) => s@.len() == 1 && char_facelet(s@[0]) == Some(f),
                Err(e) => {
                    &&& e == ParseError::InvalidFacelet
                    &&& !(s@.len() == 1 && char_facelet(s@[0]) is Some)
                },
            },
    {
        if s.unicode_len() == 1 {
            Facelet::from_char(s.get_char(0))
        } else {
            Err(ParseError::InvalidFacelet)
        }
    }
}

/// Alphabet closure for facelets: the canonical character of a facelet
/// decodes back to that facelet.
pub proof fn lemma_facelet_text_round_trip(f: Facelet)
    ensures
        char_facelet(facelet_char(f)) == Some(f),
{
}

} // verus!
