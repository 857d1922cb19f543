use ascii::AsciiChar;
use curses_game_wrapper::game::BUFSIZE;
use curses_game_wrapper::{
    ActionResult, Fatal, GameEnv, GameSetting, Handle, Note, Reactor, Received,
};
use std::time::Duration;

/// A player that notes what it is shown and always answers `q`.
struct Scribe {
    seen: Vec<(String, usize)>,
}

impl Scribe {
    fn new() -> Scribe {
        Scribe { seen: Vec::new() }
    }
}

fn describe(shown: &ActionResult) -> String {
    match shown {
        ActionResult::Changed(cells) => {
            let rows: Vec<String> =
                cells.iter().map(|row| row.iter().map(|b| *b as char).collect()).collect();
            format!("changed:{}", rows.join("/"))
        }
        ActionResult::NotChanged => "not changed".to_string(),
        ActionResult::GameEnded => "ended".to_string(),
    }
}

impl Reactor for Scribe {
    fn action(&mut self, action_result: ActionResult, turn: usize) -> Option<Vec<u8>> {
        self.seen.push((describe(&action_result), turn));
        Some(vec![b'q'])
    }
}

fn game(lines: usize, columns: usize, max_loop: usize) -> GameEnv {
    GameSetting::new("game").lines(lines).columns(columns).max_loop(max_loop).build()
}

fn chunk(bytes: &[u8]) -> Received {
    Received::Message(Handle::Valid(bytes.to_vec()))
}

#[test]
fn it_works() {
    struct EmptyAI {
        loopnum: usize,
    }
    impl Reactor for EmptyAI {
        fn action(&mut self, _screen: ActionResult, turn: usize) -> Option<Vec<u8>> {
            let mut res = Vec::new();
            match turn {
                val if val == self.loopnum - 1 => res.push(AsciiChar::CarriageReturn.as_byte()),
                val if val == self.loopnum - 2 => res.push(b'y'),
                val if val == self.loopnum - 3 => res.push(b'Q'),
                _ => {
                    let c = match (turn % 4) as u8 {
                        0u8 => b'h',
                        1u8 => b'j',
                        2u8 => b'k',
                        _ => b'l',
                    };
                    res.push(c);
                }
            };
            Some(res)
        }
    }
    let loopnum = 50;
    let gs = GameSetting::new("rogue")
        .env("ROGUEUSER", "EmptyAI")
        .lines(24)
        .columns(80)
        .debug_file("debug.txt")
        .max_loop(loopnum + 1)
        .draw_on(Duration::from_millis(100));
    let mut game = gs.build();
    let mut ai = EmptyAI { loopnum: loopnum };
    let mut sent = Vec::new();
    while game.is_running() {
        let received = if game.turn() % 2 == 0 {
            chunk(b"\x1b[H\x1b[2J@ Hp: 12(12)\r\n")
        } else {
            Received::Timeout
        };
        if let Some(bytes) = game.step(&mut ai, &received).unwrap() {
            sent.extend(bytes);
        }
    }
    assert_eq!(game.turn(), loopnum + 1);
    assert!(game.must_kill());
    assert!(game.finish(&mut ai));
    assert_eq!(sent.len(), 25);
    assert_eq!(&sent[..4], b"jljl");
    assert_eq!(&sent[22..], &[b'j', b'Q', 13]);
}

#[test]
fn a_game_that_prints_and_closes() {
    let mut game = game(4, 10, 3);
    let mut ai = Scribe::new();
    assert!(game.is_running());
    assert_eq!(game.step(&mut ai, &chunk(b"a")), Ok(None));
    assert!(ai.seen.is_empty());
    assert_eq!(game.term_data().ret_screen()[0][0], b'a');
    assert!(game.is_running());
    assert_eq!(game.step(&mut ai, &Received::Message(Handle::Zero)), Ok(Some(vec![b'q'])));
    assert_eq!(ai.seen, vec![("ended".to_string(), 1)]);
    assert!(!game.is_running());
    assert_eq!(game.turn(), 2);
    assert!(!game.must_kill());
    assert!(!game.finish(&mut ai));
    assert_eq!(ai.seen.len(), 1);
}

#[test]
fn a_burst_is_shown_once_when_the_screen_is_at_rest() {
    let mut game = game(2, 4, 100);
    let mut ai = Scribe::new();
    assert_eq!(game.step(&mut ai, &Received::Timeout), Ok(Some(vec![b'q'])));
    assert_eq!(game.step(&mut ai, &chunk(b"ab")), Ok(None));
    assert_eq!(game.step(&mut ai, &chunk(b"\r\n")), Ok(None));
    assert_eq!(game.step(&mut ai, &chunk(b"cd")), Ok(None));
    assert_eq!(game.step(&mut ai, &Received::Timeout), Ok(Some(vec![b'q'])));
    assert_eq!(game.step(&mut ai, &Received::Timeout), Ok(Some(vec![b'q'])));
    assert_eq!(
        ai.seen,
        vec![
            ("not changed".to_string(), 0),
            ("changed:ab  /cd  ".to_string(), 4),
            ("not changed".to_string(), 5),
        ]
    );
    assert_eq!(game.turn(), 6);
}

#[test]
fn a_screen_kept_back_is_not_shown_when_the_game_ends() {
    let mut game = game(2, 4, 100);
    let mut ai = Scribe::new();
    game.step(&mut ai, &chunk(b"ab")).unwrap();
    game.step(&mut ai, &Received::Message(Handle::Zero)).unwrap();
    assert_eq!(ai.seen, vec![("ended".to_string(), 1)]);
}

#[test]
fn the_loop_ends_after_its_turns() {
    let mut game = game(2, 4, 3);
    let mut ai = Scribe::new();
    let mut turns = 0;
    while game.is_running() {
        game.step(&mut ai, &Received::Timeout).unwrap();
        turns += 1;
    }
    assert_eq!(turns, 3);
    assert_eq!(game.max_loop(), 3);
    assert!(game.must_kill());
    assert!(game.finish(&mut ai));
    assert_eq!(ai.seen.last(), Some(&("ended".to_string(), 3)));
    assert_eq!(ai.seen.len(), 4);
}

#[test]
fn a_game_with_no_turns_never_runs() {
    let game = game(2, 4, 0);
    assert!(!game.is_running());
    assert!(game.must_kill());
}

#[test]
fn a_failed_reader_ends_the_loop() {
    let mut game = game(2, 4, 5);
    let mut ai = Scribe::new();
    game.step(&mut ai, &chunk(b"ab")).unwrap();
    assert_eq!(
        game.step(&mut ai, &Received::Message(Handle::Panicked)),
        Err(Fatal::ReaderPanicked)
    );
    assert_eq!(game.step(&mut ai, &Received::Disconnected), Err(Fatal::Disconnected));
    assert_eq!(game.turn(), 1);
    assert!(game.is_running());
    assert!(ai.seen.is_empty());
    assert_eq!(game.step(&mut ai, &Received::Timeout), Ok(Some(vec![b'q'])));
    assert_eq!(ai.seen, vec![("changed:ab  /    ".to_string(), 1)]);
}

#[test]
fn observe_makes_the_event_of_a_turn() {
    let mut game = game(2, 4, 5);
    assert!(matches!(game.observe(&Received::Timeout), Ok(ActionResult::NotChanged)));
    match game.observe(&chunk(b"xy")) {
        Ok(ActionResult::Changed(cells)) => assert_eq!(cells, vec![b"xy  ".to_vec(), b"    ".to_vec()]),
        other => panic!("{:?}", other),
    }
    assert!(matches!(game.observe(&Received::Disconnected), Err(Fatal::Disconnected)));
    assert!(matches!(
        game.observe(&Received::Message(Handle::Panicked)),
        Err(Fatal::ReaderPanicked)
    ));
    assert!(game.must_kill());
    assert!(matches!(
        game.observe(&Received::Message(Handle::Zero)),
        Ok(ActionResult::GameEnded)
    ));
    assert!(!game.must_kill());
    assert!(!game.is_running());
    assert_eq!(game.turn(), 0);
}

#[test]
fn present_keeps_a_changed_screen_back() {
    let mut game = game(2, 4, 5);
    let first = vec![b"1111".to_vec()];
    let second = vec![b"2222".to_vec()];
    assert!(matches!(game.present(ActionResult::NotChanged), Some(ActionResult::NotChanged)));
    assert!(game.present(ActionResult::Changed(first)).is_none());
    assert!(game.present(ActionResult::Changed(second.clone())).is_none());
    assert!(matches!(game.present(ActionResult::GameEnded), Some(ActionResult::GameEnded)));
    match game.present(ActionResult::NotChanged) {
        Some(ActionResult::Changed(cells)) => assert_eq!(cells, second),
        other => panic!("{:?}", other),
    }
    assert!(matches!(game.present(ActionResult::NotChanged), Some(ActionResult::NotChanged)));
}

#[test]
fn an_escape_sequence_may_span_two_turns() {
    let mut game = game(3, 4, 9);
    let mut ai = Scribe::new();
    game.step(&mut ai, &chunk(b"\x1b[2")).unwrap();
    game.step(&mut ai, &chunk(b";3Hz")).unwrap();
    game.step(&mut ai, &Received::Timeout).unwrap();
    assert_eq!(ai.seen, vec![("changed:    /  z /    ".to_string(), 2)]);
    assert_eq!(game.term_data().cursor().x, 3);
}

#[test]
fn a_game_is_built_from_its_setting() {
    let game = GameSetting::new("game")
        .lines(3)
        .columns(7)
        .max_loop(9)
        .timeout(Duration::from_millis(250))
        .build();
    assert_eq!(game.term_data().lines(), 3);
    assert_eq!(game.term_data().columns(), 7);
    assert_eq!(game.max_loop(), 9);
    assert_eq!(game.turn(), 0);
    assert_eq!(game.timeout(), Duration::from_millis(250));
    assert!(matches!(game.draw_type(), curses_game_wrapper::DrawType::Null));
    assert!(game.is_running());
    let drawn = GameSetting::new("game").draw_on(Duration::from_millis(20)).build();
    assert!(matches!(
        drawn.draw_type(),
        curses_game_wrapper::DrawType::Terminal(d) if d == Duration::from_millis(20)
    ));
    assert_eq!(drawn.timeout(), Duration::from_millis(100));
}

#[test]
fn the_reader_publishes_what_it_read() {
    let mut buf = vec![0u8; BUFSIZE];
    buf[..5].copy_from_slice(b"hello");
    match Handle::from_read(&buf, Some(5)) {
        Handle::Valid(bytes) => assert_eq!(bytes, b"hello"),
        other => panic!("{:?}", other),
    }
    match Handle::from_read(&buf, Some(BUFSIZE - 1)) {
        Handle::Valid(bytes) => assert_eq!(bytes, &buf[..BUFSIZE - 1]),
        other => panic!("{:?}", other),
    }
    assert!(matches!(Handle::from_read(&buf, Some(0)), Handle::Zero));
    assert!(matches!(Handle::from_read(&buf, Some(BUFSIZE)), Handle::Panicked));
    assert!(matches!(Handle::from_read(&buf, None), Handle::Panicked));
    assert_eq!(BUFSIZE, 4096);
}

#[test]
fn the_reader_reads_on_after_bytes_only() {
    assert!(Handle::Valid(vec![1]).reads_on());
    assert!(!Handle::Zero.reads_on());
    assert!(!Handle::Panicked.reads_on());
}

#[test]
fn a_result_is_described_as_text() {
    let changed = ActionResult::Changed(vec![b"ab  ".to_vec(), b"cd  ".to_vec()]);
    assert_eq!(
        changed.to_text(),
        b"ActionResult::Changed\n--------------------\nab  \ncd  \n--------------------".to_vec()
    );
    assert_eq!(
        ActionResult::Changed(Vec::new()).to_text(),
        b"ActionResult::Changed\n--------------------\n--------------------".to_vec()
    );
    assert_eq!(ActionResult::NotChanged.to_text(), b"ActionResult::NotChanged".to_vec());
    assert_eq!(ActionResult::GameEnded.to_text(), b"ActionResult::GameEnded".to_vec());
    assert_eq!(ActionResult::Changed(vec![vec![0xff, b'a']]).to_text()[43..], [0xff, b'a', b'\n', b'-', b'-', b'-', b'-', b'-', b'-', b'-', b'-', b'-', b'-', b'-', b'-', b'-', b'-', b'-', b'-', b'-', b'-', b'-', b'-']);
}

#[test]
fn what_is_due_comes_with_its_turn() {
    let mut game = game(2, 4, 9);
    assert!(matches!(game.due(&Received::Timeout), Ok(Some((ActionResult::NotChanged, 0)))));
    assert!(matches!(game.due(&chunk(b"ab")), Ok(None)));
    assert!(matches!(game.due(&chunk(b"cd")), Ok(None)));
    assert!(matches!(game.due(&Received::Disconnected), Err(Fatal::Disconnected)));
    assert!(matches!(
        game.due(&Received::Message(Handle::Panicked)),
        Err(Fatal::ReaderPanicked)
    ));
    match game.due(&Received::Timeout) {
        Ok(Some((ActionResult::Changed(cells), 3))) => {
            assert_eq!(cells, vec![b"abcd".to_vec(), b"    ".to_vec()])
        }
        other => panic!("{:?}", other),
    }
    assert!(matches!(
        game.due(&Received::Message(Handle::Zero)),
        Ok(Some((ActionResult::GameEnded, 4)))
    ));
    assert_eq!(game.turn(), 5);
    assert!(!game.is_running());
}

#[test]
fn the_last_words_are_due_to_a_game_that_never_closed() {
    let mut game = game(2, 4, 7);
    assert!(matches!(game.last_words(), Some((ActionResult::GameEnded, 7))));
    game.due(&Received::Timeout).unwrap();
    assert!(matches!(game.last_words(), Some((ActionResult::GameEnded, 7))));
    let mut ai = Scribe::new();
    assert!(game.finish(&mut ai));
    assert_eq!(ai.seen, vec![("ended".to_string(), 7)]);
    game.due(&Received::Message(Handle::Zero)).unwrap();
    assert!(game.last_words().is_none());
    assert!(!game.finish(&mut ai));
    assert_eq!(ai.seen.len(), 1);
}

#[test]
fn the_player_is_asked_at_the_turn_that_is_due() {
    let mut game = game(2, 4, 9);
    let mut ai = Scribe::new();
    game.step(&mut ai, &chunk(b"x")).unwrap();
    game.step(&mut ai, &chunk(b"y")).unwrap();
    game.step(&mut ai, &Received::Timeout).unwrap();
    game.step(&mut ai, &Received::Timeout).unwrap();
    game.step(&mut ai, &Received::Message(Handle::Zero)).unwrap();
    assert_eq!(
        ai.seen,
        vec![
            ("changed:xy  /    ".to_string(), 2),
            ("not changed".to_string(), 3),
            ("ended".to_string(), 4),
        ]
    );
}

#[test]
fn the_result_of_a_turn_is_read_after_it() {
    let mut game = game(2, 4, 9);
    let mut ai = Scribe::new();
    let received = chunk(b"ab");
    game.step(&mut ai, &received).unwrap();
    match game.result_of(&received) {
        Some(ActionResult::Changed(cells)) => {
            assert_eq!(cells, vec![b"ab  ".to_vec(), b"    ".to_vec()])
        }
        other => panic!("{:?}", other),
    }
    assert!(matches!(game.result_of(&Received::Timeout), Some(ActionResult::NotChanged)));
    assert!(matches!(
        game.result_of(&Received::Message(Handle::Zero)),
        Some(ActionResult::GameEnded)
    ));
    assert!(game.result_of(&Received::Disconnected).is_none());
    assert!(game.result_of(&Received::Message(Handle::Panicked)).is_none());
}

#[test]
fn the_notes_of_the_terminal_are_taken_from_the_game() {
    let mut game = game(2, 4, 9);
    let mut ai = Scribe::new();
    game.step(&mut ai, &chunk(b"a\x07\x1b[5m")).unwrap();
    game.step(&mut ai, &chunk(b"\x1bc")).unwrap();
    assert_eq!(game.take_notes(), vec![Note::Execute(7), Note::Csi('m'), Note::Esc(b'c')]);
    assert!(game.take_notes().is_empty());
    assert_eq!(game.term_data().ret_screen()[0], b"a   ".to_vec());
}

#[test]
fn a_turn_leaves_the_pace_and_the_drawing_alone() {
    let mut game = GameSetting::new("game")
        .timeout(Duration::from_millis(30))
        .draw_on(Duration::from_millis(7))
        .build();
    let mut ai = Scribe::new();
    game.step(&mut ai, &chunk(b"ab")).unwrap();
    game.step(&mut ai, &Received::Timeout).unwrap();
    game.step(&mut ai, &Received::Message(Handle::Zero)).unwrap();
    game.take_notes();
    assert_eq!(game.timeout(), Duration::from_millis(30));
    assert!(matches!(
        game.draw_type(),
        curses_game_wrapper::DrawType::Terminal(d) if d == Duration::from_millis(7)
    ));
}
