use puissance::add;
use puissance::coord::{Coord, Letter, LetterCoord, NumberCoord};
use puissance::error::P4Error;
use puissance::input::Input;
use puissance::logic::{Key, Notice, Outcome, Placement, RBot, Signal, Thinker};
use puissance::pilier::Pillar;
use puissance::plate::{all_elements_identical, Plate, PreviewAction, PreviewSquare, TypeOfDisplay};
use puissance::player::PlayerID;
use puissance::{Agent, Game};

fn drop_at(plate: &mut Plate, index: u8, mark: PlayerID) {
    plate
        .add_player(NumberCoord::new(index), mark)
        .expect("the pillar has room");
}

#[test]
fn it_works() {
    let result = add(2, 2);
    assert_eq!(result, 4);
}

#[test]
fn coordinate_round_trip_over_all_cells() {
    for i in 0..16u8 {
        let ln = NumberCoord::new(i).to_ln_coord();
        assert_eq!(NumberCoord::from_ln(ln).to_num(), i);
        assert_eq!(LetterCoord::from_ln(ln).to_num(), i);
        assert_eq!(Input::from_ln(ln).to_num(), i);
    }
}

#[test]
fn coordinate_views_agree() {
    let c = NumberCoord::new(6);
    assert_eq!(c.to_xy_coord(), (2, 1));
    assert_eq!(c.to_ln_coord(), (Letter::C, 1));
    let lc = c.as_letter_coord();
    assert_eq!(lc.letter(), Letter::C);
    assert_eq!(lc.number(), 1);
    assert_eq!(LetterCoord::from_ln((Letter::D, 3)).to_num(), 15);
    assert_eq!(Input::from_index(13).split(), (Some(Letter::B), Some(3)));
    assert_eq!(lc.as_number_coord().to_num(), 6);
}

#[test]
fn letters_read_and_written() {
    assert_eq!(Letter::parse("B"), Ok(Letter::B));
    assert_eq!("D".parse::<Letter>(), Ok(Letter::D));
    assert_eq!(Letter::parse("E"), Err(()));
    assert_eq!(Letter::parse("AB"), Err(()));
    assert_eq!(Letter::parse(""), Err(()));
    assert_eq!(Letter::C.to_char(), 'C');
    assert_eq!(Letter::from_ordinal(3), Letter::D);
    assert_eq!(Letter::B.to_ordinal(), 1);
}

#[test]
fn pillar_has_no_gap_after_each_drop() {
    let mut p = Pillar::default();
    let marks = [PlayerID::P1, PlayerID::P2, PlayerID::P2, PlayerID::P1];
    for (n, m) in marks.iter().enumerate() {
        p.add_player(*m).unwrap();
        let h = p.get_height() as usize;
        assert_eq!(h, n + 1);
        for slot in 0..4 {
            if slot < h {
                assert_eq!(p.get_player(slot), marks[slot]);
            } else {
                assert_eq!(p.get_player(slot), PlayerID::Empty);
            }
        }
    }
}

#[test]
fn pillar_takes_exactly_four_marks() {
    let mut p = Pillar::default();
    for _ in 0..4 {
        assert!(!p.is_full());
        assert!(p.add_player(PlayerID::P2).is_ok());
    }
    assert!(p.is_full());
    let fifth = p.add_player(PlayerID::P1);
    assert!(matches!(fifth, Err(P4Error::OverFilledPillar(None))));
    assert_eq!(p.get_height(), 4);
    assert_eq!(p.get_player(3), PlayerID::P2);
}

#[test]
fn no_win_on_empty_or_nearly_empty_board() {
    let mut plate = Plate::default();
    assert!(!plate.check_win());
    drop_at(&mut plate, 0, PlayerID::P1);
    drop_at(&mut plate, 1, PlayerID::P1);
    drop_at(&mut plate, 2, PlayerID::P1);
    assert!(!plate.check_win());
    drop_at(&mut plate, 0, PlayerID::P1);
    drop_at(&mut plate, 0, PlayerID::P1);
    assert!(!plate.check_win());
}

#[test]
fn row_at_ground_level_wins() {
    let mut plate = Plate::default();
    for i in 0..4u8 {
        drop_at(&mut plate, i, PlayerID::P1);
    }
    assert!(plate.check_win());
}

#[test]
fn stack_of_four_wins() {
    let mut plate = Plate::default();
    for _ in 0..4 {
        assert!(!plate.check_win());
        plate
            .add_player(LetterCoord::from_ln((Letter::A, 0)), PlayerID::P1)
            .unwrap();
    }
    assert!(plate.check_win());
}

#[test]
fn main_diagonal_flat_wins() {
    let mut plate = Plate::default();
    for i in [0u8, 5, 10, 15] {
        drop_at(&mut plate, i, PlayerID::P2);
    }
    assert!(plate.check_win());
}

#[test]
fn mixed_line_does_not_win() {
    let mut plate = Plate::default();
    drop_at(&mut plate, 0, PlayerID::P1);
    drop_at(&mut plate, 1, PlayerID::P2);
    drop_at(&mut plate, 2, PlayerID::P1);
    drop_at(&mut plate, 3, PlayerID::P2);
    assert!(!plate.check_win());
}

#[test]
fn column_line_wins() {
    let mut plate = Plate::default();
    for i in [2u8, 6, 10, 14] {
        drop_at(&mut plate, i, PlayerID::P2);
    }
    assert!(plate.check_win());
}

#[test]
fn rising_diagonal_along_a_row_wins() {
    let mut plate = Plate::default();
    // Pillar 4 + k gets k filler marks, then a P1 mark at height k.
    for k in 0..4u8 {
        for _ in 0..k {
            drop_at(&mut plate, 4 + k, PlayerID::P2);
        }
    }
    assert!(!plate.check_win());
    for k in 0..4u8 {
        drop_at(&mut plate, 4 + k, PlayerID::P1);
    }
    assert!(plate.check_win());
}

#[test]
fn falling_space_diagonal_wins() {
    let mut plate = Plate::default();
    // Pillars 3, 6, 9, 12 read at heights 3, 2, 1, 0.
    let pillars = [3u8, 6, 9, 12];
    for (k, p) in pillars.iter().enumerate() {
        for _ in 0..(3 - k) {
            drop_at(&mut plate, *p, PlayerID::P1);
        }
    }
    assert!(!plate.check_win());
    for p in pillars {
        drop_at(&mut plate, p, PlayerID::P2);
    }
    assert!(plate.check_win());
}

#[test]
fn flat_line_at_height_two_wins() {
    let mut plate = Plate::default();
    for i in [1u8, 5, 9, 13] {
        drop_at(&mut plate, i, PlayerID::P1);
        drop_at(&mut plate, i, PlayerID::P2);
        drop_at(&mut plate, i, PlayerID::P1);
    }
    // Heights 0 and 2 hold P1 on the whole column of pillars.
    assert!(plate.check_win());
}

#[test]
fn identical_marks_need_no_empty() {
    let p1 = PlayerID::P1;
    assert!(all_elements_identical(&vec![p1, p1, p1, p1]));
    assert!(!all_elements_identical(&vec![p1, p1, PlayerID::P2, p1]));
    assert!(!all_elements_identical(&vec![PlayerID::Empty; 4]));
    assert!(!all_elements_identical(&vec![p1, p1, p1, PlayerID::Empty]));
}

#[test]
fn full_pillar_is_reported_with_its_name() {
    let mut plate = Plate::default();
    for _ in 0..4 {
        drop_at(&mut plate, 9, PlayerID::P1);
    }
    assert!(!plate.playable(NumberCoord::new(9)));
    assert!(plate.playable(NumberCoord::new(8)));
    let r = plate.add_player(NumberCoord::new(9), PlayerID::P2);
    match r {
        Err(P4Error::OverFilledPillar(Some(c))) => {
            assert_eq!(c, LetterCoord::from_ln((Letter::B, 2)));
        }
        _ => panic!("expected an overfilled pillar"),
    }
}

#[test]
fn plane_reads_one_height() {
    let mut plate = Plate::default();
    drop_at(&mut plate, 7, PlayerID::P1);
    drop_at(&mut plate, 7, PlayerID::P2);
    drop_at(&mut plate, 0, PlayerID::P2);
    let ground = plate.get_plane(0);
    assert_eq!(ground.data[7], PlayerID::P1);
    assert_eq!(ground.data[0], PlayerID::P2);
    assert_eq!(ground.data[1], PlayerID::Empty);
    let first = plate.get_plane(1);
    assert_eq!(first.data[7], PlayerID::P2);
    assert_eq!(first.data[0], PlayerID::Empty);
}

#[test]
fn preview_positions() {
    let mut plate = Plate::default();
    drop_at(&mut plate, 6, PlayerID::P1);
    // Cell 6 is column 2, row 1, next free height 1; the grid starts in level mode.
    let r = plate.preview(NumberCoord::new(6), PreviewAction::Add).unwrap();
    assert_eq!(r, PreviewSquare { x: 6, y: 14, paint: None });
    plate.switch_view();
    assert_eq!(plate.type_of_display, TypeOfDisplay::Arthur);
    let r = plate.preview(NumberCoord::new(6), PreviewAction::Remove).unwrap();
    assert_eq!(r, PreviewSquare { x: 6, y: 9, paint: Some(PlayerID::Empty) });
    for _ in 0..3 {
        drop_at(&mut plate, 6, PlayerID::P2);
    }
    let r = plate.preview(NumberCoord::new(6), PreviewAction::Add);
    assert!(matches!(r, Err(P4Error::OverFilledPillar(Some(_)))));
}

#[test]
fn random_agent_finds_the_only_open_pillar() {
    for k in [0u8, 7, 15] {
        let mut plate = Plate::default();
        for i in 0..16u8 {
            if i != k {
                for _ in 0..4 {
                    drop_at(&mut plate, i, PlayerID::P2);
                }
            }
        }
        assert!(plate.has_playable_pillar());
        let choice = RBot.think(&plate).unwrap();
        assert_eq!(choice.to_num(), k);
    }
}

#[test]
fn random_agent_pick_checks_the_pillar() {
    let mut plate = Plate::default();
    for _ in 0..4 {
        drop_at(&mut plate, 3, PlayerID::P1);
    }
    assert!(RBot::pick(&plate, 3).is_none());
    assert_eq!(RBot::pick(&plate, 4).map(|i| i.to_num()), Some(4));
}

#[test]
fn typing_a0_then_confirm_gives_a0() {
    let plate = Plate::default();
    let mut placement = Placement::new();
    let r = placement.handle_key(&plate, Key::Letter(Letter::A));
    assert_eq!(r.outcome, Outcome::Continue);
    let mut a = Input::default();
    a.set_letter(Letter::A);
    assert_eq!(r.signals, vec![Signal::ShowInput(a)]);
    let r = placement.handle_key(&plate, Key::Digit(0));
    let a0 = Input::from_ln((Letter::A, 0));
    assert_eq!(r.signals, vec![Signal::ShowInput(a0), Signal::AddPreview(a0)]);
    let r = placement.handle_key(&plate, Key::Confirm);
    assert_eq!(r.outcome, Outcome::Chosen(a0));
    assert!(r.signals.is_empty());
}

#[test]
fn confirm_without_input_reports() {
    let plate = Plate::default();
    let mut placement = Placement::new();
    let r = placement.handle_key(&plate, Key::Confirm);
    assert_eq!(r.outcome, Outcome::Continue);
    assert_eq!(r.signals, vec![Signal::ShowNotice(Notice::IncompleteInput)]);
}

#[test]
fn preview_moves_and_notices_clear() {
    let mut plate = Plate::default();
    for _ in 0..4 {
        drop_at(&mut plate, 1, PlayerID::P1);
    }
    let mut placement = Placement::new();
    placement.handle_key(&plate, Key::Letter(Letter::B));
    placement.handle_key(&plate, Key::Digit(0));
    // B0 is pillar 1, which is full.
    let r = placement.handle_key(&plate, Key::Confirm);
    assert_eq!(r.signals, vec![Signal::ShowNotice(Notice::FullPillar)]);
    assert_eq!(r.outcome, Outcome::Continue);
    let r = placement.handle_key(&plate, Key::Letter(Letter::C));
    let c0 = Input::from_ln((Letter::C, 0));
    assert_eq!(
        r.signals,
        vec![
            Signal::ShowInput(c0),
            Signal::AddPreview(c0),
            Signal::ClearNotice(Notice::FullPillar)
        ]
    );
    let r = placement.handle_key(&plate, Key::Digit(2));
    let c2 = Input::from_ln((Letter::C, 2));
    assert_eq!(
        r.signals,
        vec![
            Signal::ShowInput(c2),
            Signal::RemovePreview(c0),
            Signal::AddPreview(c2)
        ]
    );
    let r = placement.handle_key(&plate, Key::SwitchView);
    assert_eq!(
        r.signals,
        vec![Signal::SwitchView, Signal::ShowInput(c2), Signal::AddPreview(c2)]
    );
    let r = placement.handle_key(&plate, Key::Other);
    assert!(r.signals.is_empty());
    assert_eq!(r.outcome, Outcome::Continue);
    let r = placement.handle_key(&plate, Key::Cancel);
    assert_eq!(r.outcome, Outcome::Quit);
    assert_eq!(placement.pending(), c2);
}

#[test]
fn turns_alternate() {
    let mut p = PlayerID::P1;
    p.joue();
    assert_eq!(p, PlayerID::P2);
    p.joue();
    assert_eq!(p, PlayerID::P1);
    assert_eq!(PlayerID::default(), PlayerID::Empty);
}

#[test]
fn game_plays_and_ends() {
    let mut game = Game::new(Agent::Random(RBot), Agent::Random(RBot));
    assert_eq!(game.next_player(), PlayerID::P1);
    assert!(matches!(game.get_player(), Agent::Random(_)));
    let a0 = Input::from_ln((Letter::A, 0));
    let b0 = Input::from_ln((Letter::B, 0));
    for _ in 0..3 {
        game.play_input(&a0);
        game.play_input(&b0);
    }
    assert!(!game.win());
    game.play_input(&a0);
    assert!(game.win());
    assert_eq!(game.next_player(), PlayerID::P2);
    assert_eq!(game.end(), (PlayerID::P2, PlayerID::P1));
    assert_eq!(game.plate().get_plane(3).data[0], PlayerID::P1);
}

#[test]
fn input_fills_in() {
    let mut i = Input::default();
    assert!(!i.is_valid());
    i.set_number(3);
    assert!(!i.is_valid());
    i.set_letter(Letter::D);
    assert!(i.is_valid());
    assert_eq!(i.to_num(), 15);
    assert_eq!(i.to_xy_coord(), (3, 3));
}

#[test]
fn io_failure_becomes_output_error() {
    let e = std::io::Error::new(std::io::ErrorKind::Other, "terminal gone");
    assert!(matches!(P4Error::from(e), P4Error::OutputInterfaceError(_)));
}

#[test]
fn win_persists_after_another_drop() {
    let mut plate = Plate::default();
    for i in 0..4u8 {
        drop_at(&mut plate, i, PlayerID::P1);
    }
    assert!(plate.check_win());
    drop_at(&mut plate, 2, PlayerID::P2);
    assert!(plate.check_win());
    drop_at(&mut plate, 9, PlayerID::P2);
    assert!(plate.check_win());
}
