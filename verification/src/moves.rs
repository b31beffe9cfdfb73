use vstd::prelude::*;

verus! {

use crate::error::ParseError;

/// One of the nine legal moves: three axis families, each with a plain
/// quarter-turn, a prime (counter) quarter-turn and a half-turn.
#[derive(Debug, Copy, Clone, Hash, Eq, PartialEq, Structural)]
pub enum Move {
    Forward,
    ForwardPrime,
    ForwardHalf,
    Up,
    UpPrime,
    UpHalf,
    Right,
    RightPrime,
    RightHalf,
}

/// The canonical text token of a move.
pub open spec fn move_token(m: Move) -> Seq<char> {
    match m {
        Move::Forward => seq!['F'],
        Move::ForwardPrime => seq!['F', '\''],
        Move::ForwardHalf => seq!['F', '2'],
        Move::Up => seq!['U'],
        Move::UpPrime => seq!['U', '\''],
        Move::UpHalf => seq!['U', '2'],
        Move::Right => seq!['R'],
        Move::RightPrime => seq!['R', '\''],
        Move::RightHalf => seq!['R', '2'],
    }
}

/// The move a text token denotes, if it denotes one.
pub open spec fn token_move(t: Seq<char>) -> Option<Move> {
    if t.len() == 1 {
        if t[0] == 'F' {
            Some(Move::Forward)
        } else if t[0] == 'U' {
            Some(Move::Up)
        } else if t[0] == 'R' {
            Some(Move::Right)
        } else {
            None
        }
    } else if t.len() == 2 && t[1] == '\'' {
        if t[0] == 'F' {
            Some(Move::ForwardPrime)
        } else if t[0] == 'U' {
            Some(Move::UpPrime)
        } else if t[0] == 'R' {
            Some(Move::RightPrime)
        } else {
            None
        }
    } else if t.len() == 2 && t[1] == '2' {
        if t[0] == 'F' {
            Some(Move::ForwardHalf)
        } else if t[0] == 'U' {
            Some(Move::UpHalf)
        } else if t[0] == 'R' {
            Some(Move::RightHalf)
        } else {
            None
        }
    } else {
        None
    }
}

/// The inverse of a move: plain and prime quarter-turns of one family
/// undo each other, and a half-turn undoes itself.
pub open spec fn inverse_spec(m: Move) -> Move {
    match m {
        Move::Forward => Move::ForwardPrime,
        Move::ForwardPrime => Move::Forward,
        Move::Up => Move::UpPrime,
        Move::UpPrime => Move::Up,
        Move::Right => Move::RightPrime,
        Move::RightPrime => Move::Right,
        _ => m,
    }
}

/// The fixed enumeration order of the nine moves.
pub open spec fn all_moves() -> Seq<Move> {
    seq![
        Move::Forward,
        Move::ForwardPrime,
        Move::ForwardHalf,
        Move::Up,
        Move::UpPrime,
        Move::UpHalf,
        Move::Right,
        Move::RightPrime,
        Move::RightHalf,
    ]
}

impl Move {
    /// All nine moves, in the fixed enumeration order.
    pub fn available() -> (r: [Move; 9])
        ensures
            r@ == all_moves(),
    {
        let r: [Move; 9] = [
            Move::Forward,
            Move::ForwardPrime,
            Move::ForwardHalf,
            Move::Up,
            Move::UpPrime,
            Move::UpHalf,
            Move::Right,
            Move::RightPrime,
            Move::RightHalf,
        ];
        proof {
            assert(r@ =~= all_moves());
        }
        r
    }

    /// The inverse of this move.
    pub fn inverse(self) -> (r: Move)
        ensures
            r == inverse_spec(self),
    {
        match self {
            Move::Forward => Move::ForwardPrime,
            Move::ForwardPrime => Move::Forward,
            Move::Up => Move::UpPrime,
            Move::UpPrime => Move::Up,
            Move::Right => Move::RightPrime,
            Move::RightPrime => Move::Right,
            _ => self,
        }
    }

    /// The canonical text token, borrowed.
    pub fn to_str(self) -> (r: &'static str)
        ensures
            r@ == move_token(self),
    {
        proof {
            reveal_strlit("F");
            reveal_strlit("F'");
            reveal_strlit("F2");
            reveal_strlit("U");
            reveal_strlit("U'");
            reveal_strlit("U2");
            reveal_strlit("R");
            reveal_strlit("R'");
            reveal_strlit("R2");
        }
        match self {
            Move::Forward => "F",
            Move::ForwardPrime => "F'",
            Move::ForwardHalf => "F2",
            Move::Up => "U",
            Move::UpPrime => "U'",
            Move::UpHalf => "U2",
            Move::Right => "R",
            Move::RightPrime => "R'",
            Move::RightHalf => "R2",
        }
    }

    /// The canonical text token.
    pub fn to_text(self) -> (r: String)
        ensures
            r@ == move_token(self),
    {
        String::from_str(self.to_str())
    }

    /// The move a text token denotes; anything else is rejected.
    pub fn from_text(s: &str) -> (r: Result<Move, ParseError>)
        ensures
            match r {
                Ok(m) => token_move(s@) == Some(m),
                Err(e) => e == ParseError::InvalidMove && token_move(s@) is None,
            },
    {
        let n = s.unicode_len();
        if n == 1 {
            match s.get_char(0) {
                'F' => Ok(Move::Forward),
                'U' => Ok(Move::Up),
                'R' => Ok(Move::Right),
                _ => Err(ParseError::InvalidMove),
            }
        } else if n == 2 {
            let c0 = s.get_char(0);
            let c1 = s.get_char(1);
            if c1 == '\'' {
                match c0 {
                    'F' => Ok(Move::ForwardPrime),
                    'U' => Ok(Move::UpPrime),
                    'R' => Ok(Move::RightPrime),
                    _ => Err(ParseError::InvalidMove),
                }
            } else if c1 == '2' {
                match c0 {
                    'F' => Ok(Move::ForwardHalf),
                    'U' => Ok(Move::UpHalf),
                    'R' => Ok(Move::RightHalf),
                    _ => Err(ParseError::InvalidMove),
                }
            } else {
                Err(ParseError::InvalidMove)
            }
        } else {
            Err(ParseError::InvalidMove)
        }
    }
}

/// Alphabet closure for moves: the canonical token of a move decodes back
/// to that move.
pub proof fn lemma_move_text_round_trip(m: Move)
    ensures
        token_move(move_token(m)) == Some(m),
{
}

} // verus!
