use vstd::prelude::*;

verus! {

use crate::error::ParseError;
use crate::facelet::Facelet;
use crate::facelet::char_facelet;
use crate::facelet::facelet_char;
use crate::moves::Move;
use crate::moves::inverse_spec;
use rand::prelude::SliceRandom;
use vstd::string::StrSliceExecFns;
use vstd::string::StringExecFns;

/// The puzzle state: one facelet per visible sticker slot, indices 0 to 23,
/// four consecutive slots per face in the order White, Orange, Green, Red,
/// Yellow, Blue.
#[derive(Debug, Copy, Clone, Hash, Eq, PartialEq)]
pub struct Cube {
    state: [Facelet; 24],
}

impl View for Cube {
    type V = Seq<Facelet>;

    closed spec fn view(&self) -> Seq<Facelet> {
        self.state@
    }
}

/// The canonical solved state: each face uniformly its home colour.
pub open spec fn solved_spec() -> Seq<Facelet> {
    seq![
        Facelet::White, Facelet::White, Facelet::White, Facelet::White,
        Facelet::Orange, Facelet::Orange, Facelet::Orange, Facelet::Orange,
        Facelet::Green, Facelet::Green, Facelet::Green, Facelet::Green,
        Facelet::Red, Facelet::Red, Facelet::Red, Facelet::Red,
        Facelet::Yellow, Facelet::Yellow, Facelet::Yellow, Facelet::Yellow,
        Facelet::Blue, Facelet::Blue, Facelet::Blue, Facelet::Blue,
    ]
}

/// The text of a state: the canonical character of each slot, in slot order.
pub open spec fn text_of(s: Seq<Facelet>) -> Seq<char> {
    Seq::new(s.len(), |i: int| facelet_char(s[i]))
}

/// Whether every character of cube text denotes a facelet.
pub open spec fn valid_text(t: Seq<char>) -> bool {
    forall|i: int| 0 <= i < t.len() ==> char_facelet(t[i]) is Some
}

/// The state that valid cube text denotes, character by character.
pub open spec fn decode_text(t: Seq<char>) -> Seq<Facelet> {
    Seq::new(t.len(), |i: int| char_facelet(t[i]).unwrap())
}

/// The anchor invariant: the Orange-Yellow-Blue reference corner sits in its
/// home slots, fixing the cube's frame of reference.
pub open spec fn anchored(s: Seq<Facelet>) -> bool {
    &&& s[7] == Facelet::Orange
    &&& s[19] == Facelet::Yellow
    &&& s[22] == Facelet::Blue
}

/// What parsing cube text yields: the decoded state when the text has
/// exactly 24 characters, all of them facelets, and keeps the anchor; the
/// first applicable error otherwise.
pub open spec fn parse_spec(t: Seq<char>) -> Result<Seq<Facelet>, ParseError> {
    if t.len() != 24 {
        Err(ParseError::InvalidLength)
    } else if !valid_text(t) {
        Err(ParseError::InvalidFacelet)
    } else if !anchored(decode_text(t)) {
        Err(ParseError::InvalidAnchor)
    } else {
        Ok(decode_text(t))
    }
}

/// The state after pulling each slot `i` from slot `table[i]` of `s`.
pub open spec fn rotate_spec(s: Seq<Facelet>, table: Seq<int>) -> Seq<Facelet> {
    Seq::new(s.len(), |i: int| s[table[i]])
}

/// Index table of the Forward quarter-turn: slot `i` of the new state is
/// pulled from slot `forward_table()[i]` of the old one.
pub open spec fn forward_table() -> Seq<int> {
    seq![0, 1, 5, 6, 4, 16, 17, 7, 11, 8, 9, 10, 3, 13, 14, 2, 15, 12, 18, 19, 20, 21, 22, 23]
}

/// Index table of the Forward counter quarter-turn.
pub open spec fn forward_prime_table() -> Seq<int> {
    seq![0, 1, 15, 12, 4, 2, 3, 7, 9, 10, 11, 8, 17, 13, 14, 16, 5, 6, 18, 19, 20, 21, 22, 23]
}

/// Index table of the Up quarter-turn.
pub open spec fn up_table() -> Seq<int> {
    seq![3, 0, 1, 2, 8, 9, 6, 7, 12, 13, 10, 11, 20, 21, 14, 15, 16, 17, 18, 19, 4, 5, 22, 23]
}

/// Index table of the Up counter quarter-turn.
pub open spec fn up_prime_table() -> Seq<int> {
    seq![1, 2, 3, 0, 20, 21, 6, 7, 4, 5, 10, 11, 8, 9, 14, 15, 16, 17, 18, 19, 12, 13, 22, 23]
}

/// Index table of the Right quarter-turn.
pub open spec fn right_table() -> Seq<int> {
    seq![0, 9, 10, 3, 4, 5, 6, 7, 8, 17, 18, 11, 15, 12, 13, 14, 16, 23, 20, 19, 2, 21, 22, 1]
}

/// Index table of the Right counter quarter-turn.
pub open spec fn right_prime_table() -> Seq<int> {
    seq![0, 23, 20, 3, 4, 5, 6, 7, 8, 1, 2, 11, 13, 14, 15, 12, 16, 9, 10, 19, 18, 21, 22, 17]
}

/// What one move does to a state: each quarter-turn is its fixed index
/// table, and each half-turn is its plain quarter-turn applied twice.
pub open spec fn apply_move_spec(s: Seq<Facelet>, m: Move) -> Seq<Facelet> {
    match m {
        Move::Forward => rotate_spec(s, forward_table()),
        Move::ForwardPrime => rotate_spec(s, forward_prime_table()),
        Move::ForwardHalf => rotate_spec(rotate_spec(s, forward_table()), forward_table()),
        Move::Up => rotate_spec(s, up_table()),
        Move::UpPrime => rotate_spec(s, up_prime_table()),
        Move::UpHalf => rotate_spec(rotate_spec(s, up_table()), up_table()),
        Move::Right => rotate_spec(s, right_table()),
        Move::RightPrime => rotate_spec(s, right_prime_table()),
        Move::RightHalf => rotate_spec(rotate_spec(s, right_table()), right_table()),
    }
}

/// What a sequence of moves does to a state: the left-to-right fold of
/// `apply_move_spec`, the empty sequence being the identity.
pub open spec fn apply_moves_spec(s: Seq<Facelet>, ms: Seq<Move>) -> Seq<Facelet>
    decreases ms.len(),
{
    if ms.len() == 0 {
        s
    } else {
        apply_moves_spec(apply_move_spec(s, ms[0]), ms.drop_first())
    }
}

impl Cube {
    /// The canonical solved cube.
    pub fn solved() -> (r: Cube)
        ensures
            r@ == solved_spec(),
    {
        let r = Cube {
            state: [
                Facelet::White,
                Facelet::White,
                Facelet::White,
                Facelet::White,
                Facelet::Orange,
                Facelet::Orange,
                Facelet::Orange,
                Facelet::Orange,
                Facelet::Green,
                Facelet::Green,
                Facelet::Green,
                Facelet::Green,
                Facelet::Red,
                Facelet::Red,
                Facelet::Red,
                Facelet::Red,
                Facelet::Yellow,
                Facelet::Yellow,
                Facelet::Yellow,
                Facelet::Yellow,
                Facelet::Blue,
                Facelet::Blue,
                Facelet::Blue,
                Facelet::Blue,
            ],
        };
        proof {
            assert(r@ =~= solved_spec());
        }
        r
    }

    /// The new state in which slot `i` holds what slot `rotations[i]` held.
    pub fn rotate(self, rotations: [usize; 24]) -> (r: [Facelet; 24])
        requires
            forall|i: int| 0 <= i < 24 ==> rotations@[i] < 24,
        ensures
            forall|i: int| 0 <= i < 24 ==> r@[i] == self@[rotations@[i] as int],
    {
        let mut rotated: [Facelet; 24] = self.state;
        let mut idx: usize = 0;
        while idx < 24
            invariant
                idx <= 24,
                forall|i: int| 0 <= i < 24 ==> rotations@[i] < 24,
                forall|i: int| 0 <= i < idx ==> rotated@[i] == self@[rotations@[i] as int],
            decreases 24 - idx,
        {
            rotated[idx] = self.state[rotations[idx]];
            idx = idx + 1;
        }
        rotated
    }

    /// One Forward quarter-turn.
    fn forward(self) -> (r: Cube)
        ensures
            r@ == rotate_spec(self@, forward_table()),
    {
        let r = Cube {
            state: self.rotate(
                [
                    0, 1, 5, 6, 4, 16, 17, 7, 11, 8, 9, 10, 3, 13, 14, 2, 15, 12, 18, 19, 20, 21,
                    22, 23,
                ],
            ),
        };
        proof {
            assert(r@ =~= rotate_spec(self@, forward_table()));
        }
        r
    }

    /// One Forward counter quarter-turn.
    fn forward_prime(self) -> (r: Cube)
        ensures
            r@ == rotate_spec(self@, forward_prime_table()),
    {
        let r = Cube {
            state: self.rotate(
                [
                    0, 1, 15, 12, 4, 2, 3, 7, 9, 10, 11, 8, 17, 13, 14, 16, 5, 6, 18, 19, 20, 21,
                    22, 23,
                ],
            ),
        };
        proof {
            assert(r@ =~= rotate_spec(self@, forward_prime_table()));
        }
        r
    }

    /// One Up quarter-turn.
    fn up(self) -> (r: Cube)
        ensures
            r@ == rotate_spec(self@, up_table()),
    {
        let r = Cube {
            state: self.rotate(
                [
                    3, 0, 1, 2, 8, 9, 6, 7, 12, 13, 10, 11, 20, 21, 14, 15, 16, 17, 18, 19, 4, 5,
                    22, 23,
                ],
            ),
        };
        proof {
            assert(r@ =~= rotate_spec(self@, up_table()));
        }
        r
    }

    /// One Up counter quarter-turn.
    fn up_prime(self) -> (r: Cube)
        ensures
            r@ == rotate_spec(self@, up_prime_table()),
    {
        let r = Cube {
            state: self.rotate(
                [
                    1, 2, 3, 0, 20, 21, 6, 7, 4, 5, 10, 11, 8, 9, 14, 15, 16, 17, 18, 19, 12, 13,
                    22, 23,
                ],
            ),
        };
        proof {
            assert(r@ =~= rotate_spec(self@, up_prime_table()));
        }
        r
    }

    /// One Right quarter-turn.
    fn right(self) -> (r: Cube)
        ensures
            r@ == rotate_spec(self@, right_table()),
    {
        let r = Cube {
            state: self.rotate(
                [
                    0, 9, 10, 3, 4, 5, 6, 7, 8, 17, 18, 11, 15, 12, 13, 14, 16, 23, 20, 19, 2, 21,
                    22, 1,
                ],
            ),
        };
        proof {
            assert(r@ =~= rotate_spec(self@, right_table()));
        }
        r
    }

    /// One Right counter quarter-turn.
    fn right_prime(self) -> (r: Cube)
        ensures
            r@ == rotate_spec(self@, right_prime_table()),
    {
        let r = Cube {
            state: self.rotate(
                [
                    0, 23, 20, 3, 4, 5, 6, 7, 8, 1, 2, 11, 13, 14, 15, 12, 16, 9, 10, 19, 18, 21,
                    22, 17,
                ],
            ),
        };
        proof {
            assert(r@ =~= rotate_spec(self@, right_prime_table()));
        }
        r
    }

    /// The cube after one move: a fixed remap of the 24 slots, where a
    /// half-turn is its plain quarter-turn applied twice.
    pub fn apply_move(self, action: &Move) -> (r: Cube)
        ensures
            r@ == apply_move_spec(self@, *action),
    {
        match action {
            Move::Forward => self.forward(),
            Move::ForwardPrime => self.forward_prime(),
            Move::ForwardHalf => self.forward().forward(),
            Move::Up => self.up(),
            Move::UpPrime => self.up_prime(),
            Move::UpHalf => self.up().up(),
            Move::Right => self.right(),
            Move::RightPrime => self.right_prime(),
            Move::RightHalf => self.right().right(),
        }
    }

    /// The cube after a whole sequence of moves, applied left to right.
    pub fn apply_moves(self, actions: Vec<Move>) -> (r: Cube)
        ensures
            r@ == apply_moves_spec(self@, actions@),
    {
        let mut cube = self;
        let mut idx: usize = 0;
        while idx < actions.len()
            invariant
                idx <= actions.len(),
                cube@ == apply_moves_spec(self@, actions@.take(idx as int)),
            decreases actions.len() - idx,
        {
            proof {
                lemma_apply_moves_push(self@, actions@.take(idx as int), actions@[idx as int]);
                assert(actions@.take(idx as int).push(actions@[idx as int]) =~= actions@.take(
                    idx as int + 1,
                ));
            }
            cube = cube.apply_move(&actions[idx]);
            idx = idx + 1;
        }
        proof {
            assert(actions@.take(actions@.len() as int) =~= actions@);
        }
        cube
    }

    /// The nine successor states, one per move in the fixed enumeration
    /// order, each paired with the move that produced it.
    pub fn next_states(self) -> (r: [(Move, Cube); 9])
        ensures
            forall|i: int|
                0 <= i < 9 ==> r@[i].0 == crate::moves::all_moves()[i] && (r@[i].1)@
                    == apply_move_spec(self@, crate::moves::all_moves()[i]),
    {
        [
            (Move::Forward, self.apply_move(&Move::Forward)),
            (Move::ForwardPrime, self.apply_move(&Move::ForwardPrime)),
            (Move::ForwardHalf, self.apply_move(&Move::ForwardHalf)),
            (Move::Up, self.apply_move(&Move::Up)),
            (Move::UpPrime, self.apply_move(&Move::UpPrime)),
            (Move::UpHalf, self.apply_move(&Move::UpHalf)),
            (Move::Right, self.apply_move(&Move::Right)),
            (Move::RightPrime, self.apply_move(&Move::RightPrime)),
            (Move::RightHalf, self.apply_move(&Move::RightHalf)),
        ]
    }
}

impl Cube {
    /// The 24-character text of this cube, one character per slot in slot
    /// order.
    pub fn to_text(&self) -> (r: String)
        ensures
            r@ == text_of(self@),
    {
        let mut out = String::new();
        let mut idx: usize = 0;
        while idx < 24
            invariant
                idx <= 24,
                out@ == text_of(self@).take(idx as int),
            decreases 24 - idx,
        {
            out.append(self.state[idx].to_str());
            proof {
                assert(out@ =~= text_of(self@).take(idx as int + 1));
            }
            idx = idx + 1;
        }
        proof {
            assert(text_of(self@).take(24) =~= text_of(self@));
        }
        out
    }

    /// The cube that 24 characters of facelet text denote, provided the
    /// Orange-Yellow-Blue reference corner sits in its home slots.
    pub fn parse(text: &str) -> (r: Result<Cube, ParseError>)
        ensures
            match r {
                Ok(c) => parse_spec(text@) == Ok::<Seq<Facelet>, ParseError>(c@),
                Err(e) => parse_spec(text@) == Err::<Seq<Facelet>, ParseError>(e),
            },
    {
        if text.unicode_len() != 24 {
            return Err(ParseError::InvalidLength);
        }
        let mut state: [Facelet; 24] = [Facelet::White; 24];
        let mut idx: usize = 0;
        while idx < 24
            invariant
                idx <= 24,
                text@.len() == 24,
                forall|i: int| 0 <= i < idx ==> char_facelet(text@[i]) is Some,
                forall|i: int| 0 <= i < idx ==> char_facelet(text@[i]) == Some(state@[i]),
            decreases 24 - idx,
        {
            match Facelet::from_char(text.get_char(idx)) {
                Ok(f) => {
                    state[idx] = f;
                },
                Err(e) => {
                    proof {
                        assert(char_facelet(text@[idx as int]) is None);
                        assert(!valid_text(text@));
                    }
                    return Err(e);
                },
            }
            idx = idx + 1;
        }
        let cube = Cube { state };
        proof {
            assert(valid_text(text@));
            assert(cube@ =~= decode_text(text@));
        }
        if !matches!(cube.state[7], Facelet::Orange) || !matches!(cube.state[19], Facelet::Yellow)
            || !matches!(cube.state[22], Facelet::Blue) {
            return Err(ParseError::InvalidAnchor);
        }
        Ok(cube)
    }
}

/// Relies on rand's SliceRandom::choose with thread_rng: on a non-empty
/// slice it returns Some of one of the slice's elements; nothing more is
/// assumed of which one.
#[verifier::external_body]
fn choose_move(moves: &[Move; 9]) -> (m: Move)
    ensures
        moves@.contains(m),
{
    let mut rng = rand::thread_rng();
    *moves.choose(&mut rng).unwrap()
}

impl Cube {
    /// A cube scrambled by the given number of moves, each drawn from the
    /// nine-move alphabet by a non-deterministic source; the result is
    /// always reachable from the solved cube by that many moves.
    pub fn random(total_moves: u8) -> (r: Cube)
        ensures
            exists|ms: Seq<Move>|
                ms.len() == total_moves as int && r@ == apply_moves_spec(solved_spec(), ms),
    {
        let moves = Move::available();
        let mut cube = Cube::solved();
        let ghost mut chosen: Seq<Move> = Seq::empty();
        let mut idx: u8 = 0;
        while idx < total_moves
            invariant
                idx <= total_moves,
                chosen.len() == idx as int,
                cube@ == apply_moves_spec(solved_spec(), chosen),
            decreases total_moves - idx,
        {
            let m = choose_move(&moves);
            proof {
                lemma_apply_moves_push(solved_spec(), chosen, m);
            }
            cube = cube.apply_move(&m);
            proof {
                chosen = chosen.push(m);
            }
            idx = idx + 1;
        }
        cube
    }
}

/// Folding one more move onto a sequence applies that move to the fold of
/// the sequence.
pub proof fn lemma_apply_moves_push(s: Seq<Facelet>, ms: Seq<Move>, m: Move)
    ensures
        apply_moves_spec(s, ms.push(m)) == apply_move_spec(apply_moves_spec(s, ms), m),
    decreases ms.len(),
{
    if ms.len() == 0 {
        assert(ms.push(m)[0] == m);
        assert(ms.push(m).drop_first() =~= Seq::<Move>::empty());
        assert(apply_moves_spec(apply_move_spec(s, m), Seq::<Move>::empty()) == apply_move_spec(
            s,
            m,
        ));
        assert(apply_moves_spec(s, ms.push(m)) == apply_moves_spec(
            apply_move_spec(s, m),
            ms.push(m).drop_first(),
        ));
        assert(apply_moves_spec(s, ms) == s);
    } else {
        assert(ms.push(m)[0] == ms[0]);
        assert(ms.push(m).drop_first() =~= ms.drop_first().push(m));
        assert(apply_moves_spec(s, ms.push(m)) == apply_moves_spec(
            apply_move_spec(s, ms[0]),
            ms.drop_first().push(m),
        ));
        lemma_apply_moves_push(apply_move_spec(s, ms[0]), ms.drop_first(), m);
        assert(apply_moves_spec(s, ms) == apply_moves_spec(
            apply_move_spec(s, ms[0]),
            ms.drop_first(),
        ));
    }
}

/// Every move keeps the 24-slot shape and the anchor: each index table
/// leaves slots 7, 19 and 22 in place, so the Orange-Yellow-Blue reference
/// corner never moves.
pub proof fn lemma_move_preserves_anchor(s: Seq<Facelet>, m: Move)
    requires
        s.len() == 24,
        anchored(s),
    ensures
        apply_move_spec(s, m).len() == 24,
        anchored(apply_move_spec(s, m)),
{
}

/// Every sequence of moves keeps the 24-slot shape and the anchor.
pub proof fn lemma_moves_preserve_anchor(s: Seq<Facelet>, ms: Seq<Move>)
    requires
        s.len() == 24,
        anchored(s),
    ensures
        apply_moves_spec(s, ms).len() == 24,
        anchored(apply_moves_spec(s, ms)),
    decreases ms.len(),
{
    if ms.len() > 0 {
        lemma_move_preserves_anchor(s, ms[0]);
        lemma_moves_preserve_anchor(apply_move_spec(s, ms[0]), ms.drop_first());
    }
}

/// Round trip: the text of any cube reachable from the solved cube by a
/// sequence of moves parses back to exactly that cube.
pub proof fn lemma_parse_to_text_round_trip(ms: Seq<Move>)
    ensures
        ({
            let c = apply_moves_spec(solved_spec(), ms);
            parse_spec(text_of(c)) == Ok::<Seq<Facelet>, ParseError>(c)
        }),
{
    let c = apply_moves_spec(solved_spec(), ms);
    assert(anchored(solved_spec()));
    lemma_moves_preserve_anchor(solved_spec(), ms);
    let t = text_of(c);
    assert forall|i: int| 0 <= i < t.len() implies char_facelet(t[i]) is Some by {
        crate::facelet::lemma_facelet_text_round_trip(c[i]);
    }
    assert forall|i: int| 0 <= i < t.len() implies char_facelet(t[i]) == Some(c[i]) by {
        crate::facelet::lemma_facelet_text_round_trip(c[i]);
    }
    assert(decode_text(t) =~= c);
}

/// The half-turn variant of a plain axis quarter-turn.
pub open spec fn half_of(m: Move) -> Move {
    match m {
        Move::Forward => Move::ForwardHalf,
        Move::Up => Move::UpHalf,
        Move::Right => Move::RightHalf,
        _ => m,
    }
}

/// Self-inverse half-turns: turning an axis twice one way, twice the other
/// way, or once by its half-turn all give the same state.
pub proof fn lemma_half_turn(s: Seq<Facelet>, m: Move)
    requires
        s.len() == 24,
        m is Forward || m is Up || m is Right,
    ensures
        apply_moves_spec(s, seq![m, m]) == apply_moves_spec(
            s,
            seq![inverse_spec(m), inverse_spec(m)],
        ),
        apply_moves_spec(s, seq![m, m]) == apply_move_spec(s, half_of(m)),
{
    lemma_two_moves(s, m, m);
    lemma_two_moves(s, inverse_spec(m), inverse_spec(m));
    assert(apply_move_spec(apply_move_spec(s, m), m) =~= apply_move_spec(s, half_of(m)));
    assert(apply_move_spec(apply_move_spec(s, inverse_spec(m)), inverse_spec(m))
        =~= apply_move_spec(s, half_of(m)));
}

/// Inverse cancellation: any move followed by its inverse restores the
/// starting cube.
pub proof fn lemma_inverse_cancellation(s: Seq<Facelet>, m: Move)
    requires
        s.len() == 24,
    ensures
        apply_moves_spec(s, seq![m, inverse_spec(m)]) == s,
{
    lemma_two_moves(s, m, inverse_spec(m));
    assert(apply_move_spec(apply_move_spec(s, m), inverse_spec(m)) =~= s);
}

/// A two-move sequence is one move applied after the other.
proof fn lemma_two_moves(s: Seq<Facelet>, m0: Move, m1: Move)
    ensures
        apply_moves_spec(s, seq![m0, m1]) == apply_move_spec(apply_move_spec(s, m0), m1),
{
    let ms = seq![m0, m1];
    assert(ms[0] == m0);
    assert(ms.drop_first() =~= seq![m1]);
    assert(apply_moves_spec(s, ms) == apply_moves_spec(apply_move_spec(s, m0), seq![m1]));
    let s1 = apply_move_spec(s, m0);
    assert(seq![m1].drop_first() =~= Seq::<Move>::empty());
    assert(apply_moves_spec(s1, seq![m1]) == apply_moves_spec(
        apply_move_spec(s1, m1),
        Seq::<Move>::empty(),
    ));
}

} // verus!
