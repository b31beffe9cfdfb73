use pocket_cube::cube::Cube;
use pocket_cube::error::ParseError;
use pocket_cube::facelet::Facelet;
use pocket_cube::moves::Move;

#[test]
fn move_forward() {
    assert_eq!(
        "WWOOOYYOGGGGWRRWRRYYBBBB",
        Cube::solved().apply_move(&Move::Forward).to_text()
    );
}

#[test]
fn move_forward_prime() {
    assert_eq!(
        "WWRROWWOGGGGYRRYOOYYBBBB",
        Cube::solved().apply_move(&Move::ForwardPrime).to_text()
    );
}

#[test]
fn double_move_same_in_both_directions() {
    assert_eq!(
        Cube::solved()
            .apply_moves(vec![Move::Forward, Move::Forward])
            .to_text(),
        Cube::solved()
            .apply_moves(vec![Move::ForwardPrime, Move::ForwardPrime])
            .to_text()
    );

    assert_eq!(
        Cube::solved().apply_moves(vec![Move::Up, Move::Up]).to_text(),
        Cube::solved()
            .apply_moves(vec![Move::UpPrime, Move::UpPrime])
            .to_text()
    );

    assert_eq!(
        Cube::solved()
            .apply_moves(vec![Move::Right, Move::Right])
            .to_text(),
        Cube::solved()
            .apply_moves(vec![Move::RightPrime, Move::RightPrime])
            .to_text()
    );
}

#[test]
fn double_move_same_as_half_turn() {
    let pairs = [
        (Move::Forward, Move::ForwardHalf),
        (Move::Up, Move::UpHalf),
        (Move::Right, Move::RightHalf),
    ];
    for (plain, half) in pairs {
        let start = Cube::solved().apply_move(&Move::Right).apply_move(&Move::Up);
        assert_eq!(
            start.apply_moves(vec![plain, plain]),
            start.apply_move(&half)
        );
        assert_eq!(
            start.apply_moves(vec![plain.inverse(), plain.inverse()]),
            start.apply_move(&half)
        );
    }
}

#[test]
fn move_and_inverse_cancel() {
    for m in Move::available() {
        let start = Cube::solved().apply_move(&Move::Forward).apply_move(&Move::Up);
        assert_eq!(start.apply_moves(vec![m, m.inverse()]), start);
    }
}

#[test]
fn solved_text() {
    assert_eq!("WWWWOOOOGGGGRRRRYYYYBBBB", Cube::solved().to_text());
}

#[test]
fn parse_round_trip_of_reachable_cubes() {
    let scrambles: Vec<Vec<Move>> = vec![
        vec![],
        vec![Move::Forward],
        vec![Move::Up, Move::RightHalf, Move::ForwardPrime],
        vec![
            Move::Right,
            Move::Right,
            Move::UpPrime,
            Move::ForwardHalf,
            Move::UpHalf,
            Move::RightPrime,
        ],
    ];
    for moves in scrambles {
        let cube = Cube::solved().apply_moves(moves);
        let text = cube.to_text();
        assert_eq!(Cube::parse(&text), Ok(cube));
    }
}

#[test]
fn parse_rejects_wrong_length() {
    assert_eq!(
        Cube::parse("WWWWOOOOGGGGRRRRYYYYBBB"),
        Err(ParseError::InvalidLength)
    );
    assert_eq!(
        Cube::parse("WWWWOOOOGGGGRRRRYYYYBBBBB"),
        Err(ParseError::InvalidLength)
    );
    assert_eq!(Cube::parse(""), Err(ParseError::InvalidLength));
}

#[test]
fn parse_rejects_unknown_facelet() {
    assert_eq!(
        Cube::parse("WWWWOOOOGGGGRRRRYYYYBBBX"),
        Err(ParseError::InvalidFacelet)
    );
    assert_eq!(
        Cube::parse("wWWWOOOOGGGGRRRRYYYYBBBB"),
        Err(ParseError::InvalidFacelet)
    );
}

#[test]
fn parse_rejects_displaced_anchor() {
    // Slot 7 must be Orange; every other facelet there is rejected.
    for other in ["W", "G", "R", "Y", "B"] {
        let text = format!("WWWWOOO{}GGGGRRRRYYYYBBBB", other);
        assert_eq!(Cube::parse(&text), Err(ParseError::InvalidAnchor));
    }
    // Slot 19 must be Yellow and slot 22 must be Blue.
    assert_eq!(
        Cube::parse("WWWWOOOOGGGGRRRRYYYWBBBB"),
        Err(ParseError::InvalidAnchor)
    );
    assert_eq!(
        Cube::parse("WWWWOOOOGGGGRRRRYYYYBBGB"),
        Err(ParseError::InvalidAnchor)
    );
}

#[test]
fn next_states_in_enumeration_order() {
    let solved = Cube::solved();
    let successors = solved.next_states();
    assert_eq!(successors.len(), 9);
    let moves = Move::available();
    for i in 0..9 {
        assert_eq!(successors[i].0, moves[i]);
        assert_eq!(successors[i].1, solved.apply_move(&moves[i]));
    }
}

#[test]
fn facelet_text_round_trip() {
    let all = [
        Facelet::White,
        Facelet::Orange,
        Facelet::Green,
        Facelet::Red,
        Facelet::Yellow,
        Facelet::Blue,
    ];
    for f in all {
        assert_eq!(Facelet::from_text(&f.to_text()), Ok(f));
    }
    assert_eq!(Facelet::from_text("Q"), Err(ParseError::InvalidFacelet));
    assert_eq!(Facelet::from_text("WW"), Err(ParseError::InvalidFacelet));
    assert_eq!(Facelet::from_text(""), Err(ParseError::InvalidFacelet));
}

#[test]
fn move_text_round_trip() {
    let expected = ["F", "F'", "F2", "U", "U'", "U2", "R", "R'", "R2"];
    let moves = Move::available();
    for i in 0..9 {
        assert_eq!(moves[i].to_text(), expected[i]);
        assert_eq!(Move::from_text(&moves[i].to_text()), Ok(moves[i]));
    }
    assert_eq!(Move::from_text("F3"), Err(ParseError::InvalidMove));
    assert_eq!(Move::from_text("f"), Err(ParseError::InvalidMove));
    assert_eq!(Move::from_text("R2'"), Err(ParseError::InvalidMove));
    assert_eq!(Move::from_text(""), Err(ParseError::InvalidMove));
}

#[test]
fn inverse_pairs() {
    assert_eq!(Move::Forward.inverse(), Move::ForwardPrime);
    assert_eq!(Move::ForwardPrime.inverse(), Move::Forward);
    assert_eq!(Move::Up.inverse(), Move::UpPrime);
    assert_eq!(Move::UpPrime.inverse(), Move::Up);
    assert_eq!(Move::Right.inverse(), Move::RightPrime);
    assert_eq!(Move::RightPrime.inverse(), Move::Right);
    assert_eq!(Move::ForwardHalf.inverse(), Move::ForwardHalf);
    assert_eq!(Move::UpHalf.inverse(), Move::UpHalf);
    assert_eq!(Move::RightHalf.inverse(), Move::RightHalf);
}

#[test]
fn random_zero_moves_is_solved() {
    assert_eq!(Cube::random(0), Cube::solved());
}

#[test]
fn random_single_move_is_a_successor_of_solved() {
    for _ in 0..20 {
        let cube = Cube::random(1);
        let reachable = Cube::solved()
            .next_states()
            .iter()
            .any(|(_, c)| *c == cube);
        assert!(reachable, "a one-move scramble must be a successor of solved");
    }
}

#[test]
fn random_keeps_valid_text() {
    let cube = Cube::random(30);
    let text = cube.to_text();
    assert_eq!(text.len(), 24);
    assert_eq!(Cube::parse(&text), Ok(cube));
}
