use wordle::keyboard::Keyboard;
use wordle::letters::{Letter, Position};
use wordle::scoring::{is_win, score_guess, Word};
use wordle::turns::{after_guess, Turn, TOTAL_GUESSES};
use wordle::valid_words::{is_word_text, Dictionary};
use wordle::{Game, GuessError};

fn strings(words: &[&str]) -> Vec<String> {
    words.iter().map(|w| w.to_string()).collect()
}

fn dictionary() -> Dictionary {
    Dictionary::new(
        strings(&["BLEEP", "DADDY", "DYSON", "EERIE", "LEVEL", "SASSY", "WORDY"]),
        strings(&["DYSON", "LEVEL"]),
    )
    .expect("the lists should make a dictionary")
}

fn positions(word: &Word) -> Vec<Position> {
    word.iter().map(|l| l.position).collect()
}

fn text(word: &Word) -> String {
    word.iter().map(|l| l.letter).collect()
}

const N: Position = Position::NotInWord;
const W: Position = Position::WrongPosition;
const C: Position = Position::Correct;

#[test]
fn letter_new_uppercases_the_character() {
    let l = Letter::new('w', Position::WrongPosition);
    assert_eq!(l.letter, 'W');
    assert_eq!(l.position, Position::WrongPosition);
    assert_eq!(Letter::new('Q', Position::Correct).letter, 'Q');
    assert_eq!(Letter::new('7', Position::NotInWord).letter, '7');
    assert_eq!(Letter::new('é', Position::NotInWord).letter, 'é');
}

#[test]
fn simple_check_is_correct_when_the_characters_agree() {
    assert_eq!(
        Letter::simple_check_letter_pair(&'D', &'D', "DYSON"),
        Some(Letter { letter: 'D', position: Position::Correct })
    );
}

#[test]
fn simple_check_is_not_in_word_when_the_word_lacks_the_letter() {
    assert_eq!(
        Letter::simple_check_letter_pair(&'A', &'Y', "DYSON"),
        Some(Letter { letter: 'A', position: Position::NotInWord })
    );
}

#[test]
fn simple_check_is_undecided_when_the_letter_is_elsewhere() {
    assert_eq!(Letter::simple_check_letter_pair(&'Y', &'N', "DYSON"), None);
}

#[test]
fn simple_check_is_case_sensitive() {
    assert_eq!(
        Letter::simple_check_letter_pair(&'d', &'D', "DYSON"),
        Some(Letter { letter: 'd', position: Position::NotInWord })
    );
}

#[test]
fn score_wordy_against_dyson() {
    let word = score_guess("DYSON", "WORDY");
    assert_eq!(positions(&word), vec![N, W, N, W, W]);
    assert_eq!(text(&word), "WORDY");
}

#[test]
fn score_daddy_against_dyson() {
    assert_eq!(positions(&score_guess("DYSON", "DADDY")), vec![C, N, N, N, W]);
}

#[test]
fn score_dyson_against_dyson() {
    assert_eq!(positions(&score_guess("DYSON", "DYSON")), vec![C, C, C, C, C]);
}

#[test]
fn score_eerie_against_bleep() {
    assert_eq!(positions(&score_guess("BLEEP", "EERIE")), vec![W, W, N, N, N]);
}

#[test]
fn score_bleep_against_eerie() {
    assert_eq!(positions(&score_guess("EERIE", "BLEEP")), vec![N, N, W, W, N]);
}

#[test]
fn score_gives_spare_copies_to_the_leftmost_places() {
    // One 'L' of LEVEL is matched in place, the other is spare: the first
    // misplaced 'L' of the guess gets it, the second gets nothing.
    assert_eq!(positions(&score_guess("LEVEL", "LLLAA")), vec![C, W, N, N, N]);
    // Neither 'L' is matched in place: both are spare, and the third
    // misplaced 'L' gets nothing.
    assert_eq!(positions(&score_guess("LEVEL", "ALLLA")), vec![N, W, W, N, N]);
    assert_eq!(positions(&score_guess("LEVEL", "AAALL")), vec![N, N, N, W, C]);
}

#[test]
fn score_counts_correct_letters_as_matching_places() {
    let pairs = [("DYSON", "DADDY"), ("BLEEP", "EERIE"), ("LEVEL", "LEVER"), ("SASSY", "SASSY")];
    for (secret, guess) in pairs {
        let word = score_guess(secret, guess);
        let correct = word.iter().filter(|l| l.position == Position::Correct).count();
        let matching = secret.chars().zip(guess.chars()).filter(|(s, g)| s == g).count();
        assert_eq!(correct, matching);
    }
}

#[test]
fn score_never_credits_a_letter_more_often_than_the_secret_holds_it() {
    let pairs = [("DYSON", "DADDY"), ("BLEEP", "EERIE"), ("EERIE", "BLEEP"), ("LEVEL", "LLLLL")];
    for (secret, guess) in pairs {
        let word = score_guess(secret, guess);
        for c in 'A'..='Z' {
            let credited = word
                .iter()
                .filter(|l| l.letter == c && l.position != Position::NotInWord)
                .count();
            let held = secret.chars().filter(|s| *s == c).count();
            assert!(credited <= held);
        }
    }
}

#[test]
fn score_is_the_same_when_asked_twice() {
    assert_eq!(score_guess("BLEEP", "EERIE"), score_guess("BLEEP", "EERIE"));
}

#[test]
fn is_win_only_when_all_letters_are_correct() {
    assert!(is_win(&score_guess("DYSON", "DYSON")));
    assert!(!is_win(&score_guess("DYSON", "HYSON")));
}

#[test]
fn validation_reports_non_ascii_before_length() {
    let words = dictionary();
    assert_eq!(Game::is_valid_guess("Öster", &words), Err(GuessError::IncludesNonAscii));
    assert_eq!(Game::is_valid_guess("Schrödinger", &words), Err(GuessError::IncludesNonAscii));
    assert_eq!(Game::is_valid_guess("ö", &words), Err(GuessError::IncludesNonAscii));
}

#[test]
fn validation_reports_length_before_membership() {
    let words = dictionary();
    assert_eq!(Game::is_valid_guess("hi", &words), Err(GuessError::WrongWordLength));
    assert_eq!(Game::is_valid_guess("", &words), Err(GuessError::WrongWordLength));
    assert_eq!(Game::is_valid_guess("dysons", &words), Err(GuessError::WrongWordLength));
}

#[test]
fn validation_reports_unlisted_words() {
    let words = dictionary();
    assert_eq!(Game::is_valid_guess("olleh", &words), Err(GuessError::InvalidWord));
    assert_eq!(Game::is_valid_guess("12345", &words), Err(GuessError::InvalidWord));
}

#[test]
fn validation_accepts_listed_words_in_any_case() {
    let words = dictionary();
    for guess in ["DYSON", "dyson", "DySoN", "bleep", "Eerie"] {
        assert_eq!(Game::is_valid_guess(guess, &words), Ok(()));
    }
}

#[test]
fn dictionary_needs_five_letter_upper_case_words() {
    assert!(Dictionary::new(strings(&["DYSON", "hello"]), strings(&["DYSON"])).is_none());
    assert!(Dictionary::new(strings(&["DYSON", "TOOLONG"]), strings(&["DYSON"])).is_none());
    assert!(Dictionary::new(strings(&["DYSON", "AB-CD"]), strings(&["DYSON"])).is_none());
}

#[test]
fn dictionary_needs_a_word_to_choose() {
    assert!(Dictionary::new(strings(&["DYSON"]), strings(&[])).is_none());
}

#[test]
fn dictionary_needs_secrets_among_the_guesses() {
    assert!(Dictionary::new(strings(&["DYSON"]), strings(&["LEVEL"])).is_none());
    assert!(Dictionary::new(strings(&["DYSON", "LEVEL"]), strings(&["LEVEL"])).is_some());
}

#[test]
fn dictionary_contains_compares_exactly() {
    let words = dictionary();
    assert!(words.contains(&"DYSON".to_string()));
    assert!(!words.contains(&"dyson".to_string()));
    assert!(!words.contains(&"OLLEH".to_string()));
}

#[test]
fn is_word_text_wants_five_upper_case_letters() {
    assert!(is_word_text("DYSON"));
    assert!(!is_word_text("dyson"));
    assert!(!is_word_text("DYSO"));
    assert!(!is_word_text("DYSONS"));
    assert!(!is_word_text("DYS0N"));
    assert!(!is_word_text("ÖSTER"));
}

#[test]
fn new_game_picks_a_secret_from_the_good_words() {
    let words = dictionary();
    for _ in 0..20 {
        let game = Game::new(&words);
        assert!(game.word == "DYSON" || game.word == "LEVEL");
        assert_eq!(game.keyboard, Keyboard::new());
        assert_eq!(Game::is_valid_guess(&game.word, &words), Ok(()));
    }
}

#[test]
fn with_word_reads_the_secret_in_upper_case() {
    let game = Game::with_word("dySon").expect("`dySon` should make a game");
    assert_eq!(game.word, "DYSON");
    assert_eq!(game.keyboard, Game::new_keyboard_map());
}

#[test]
fn with_word_wants_a_five_letter_word() {
    assert!(Game::with_word("").is_none());
    assert!(Game::with_word("DYSONS").is_none());
    assert!(Game::with_word("DYS0N").is_none());
    assert!(Game::with_word("Öster").is_none());
}

#[test]
fn new_keyboard_map_knows_nothing() {
    let keyboard = Game::new_keyboard_map();
    for c in 'A'..='Z' {
        assert_eq!(keyboard.get(c), Some(None));
    }
    assert_eq!(keyboard.get('a'), None);
    assert_eq!(keyboard.get('@'), None);
    assert_eq!(keyboard.get('['), None);
    assert_eq!(keyboard.get('É'), None);
}

#[test]
fn keyboard_record_only_improves() {
    let mut keyboard = Keyboard::new();
    keyboard.record('E', Position::WrongPosition);
    assert_eq!(keyboard.get('E'), Some(Some(Position::WrongPosition)));
    keyboard.record('E', Position::NotInWord);
    assert_eq!(keyboard.get('E'), Some(Some(Position::WrongPosition)));
    keyboard.record('E', Position::Correct);
    assert_eq!(keyboard.get('E'), Some(Some(Position::Correct)));
    keyboard.record('E', Position::WrongPosition);
    assert_eq!(keyboard.get('E'), Some(Some(Position::Correct)));
    assert_eq!(keyboard.get('D'), Some(None));
    assert_eq!(keyboard.get('F'), Some(None));
}

#[test]
fn make_guess_folds_the_result_into_the_keyboard() {
    let words = dictionary();
    let mut game = Game::with_word("DYSON").expect("`DYSON` should make a game");

    game.make_guess("daddy", &words).expect("`daddy` should be a valid guess");
    assert_eq!(game.keyboard.get('D'), Some(Some(Position::Correct)));
    assert_eq!(game.keyboard.get('A'), Some(Some(Position::NotInWord)));
    assert_eq!(game.keyboard.get('Y'), Some(Some(Position::WrongPosition)));
    assert_eq!(game.keyboard.get('S'), Some(None));

    game.make_guess("sassy", &words).expect("`sassy` should be a valid guess");
    assert_eq!(game.keyboard.get('S'), Some(Some(Position::Correct)));
    assert_eq!(game.keyboard.get('Y'), Some(Some(Position::WrongPosition)));
    assert_eq!(game.keyboard.get('D'), Some(Some(Position::Correct)));
    assert_eq!(game.word, "DYSON");
}

#[test]
fn make_guess_leaves_the_game_alone_on_an_error() {
    let words = dictionary();
    let mut game = Game::with_word("DYSON").expect("`DYSON` should make a game");
    game.make_guess("wordy", &words).expect("`wordy` should be a valid guess");
    let before = game.clone();
    for guess in ["olleh", "hi", "Öster"] {
        assert!(game.make_guess(guess, &words).is_err());
        assert_eq!(game, before);
    }
}

#[test]
fn keyboard_never_regresses_over_a_session() {
    fn rank(slot: Option<Position>) -> u8 {
        match slot {
            None => 0,
            Some(Position::NotInWord) => 1,
            Some(Position::WrongPosition) => 2,
            Some(Position::Correct) => 3,
        }
    }
    let words = dictionary();
    let mut game = Game::with_word("BLEEP").expect("`BLEEP` should make a game");
    for guess in ["eerie", "level", "olleh", "daddy", "bleep", "eerie"] {
        let before = game.keyboard.clone();
        let _ = game.make_guess(guess, &words);
        for c in 'A'..='Z' {
            let old = before.get(c).expect("every letter has a slot");
            let new = game.keyboard.get(c).expect("every letter has a slot");
            assert!(rank(old) <= rank(new));
        }
    }
}

#[test]
fn update_keyboard_takes_the_best_verdict_of_a_letter() {
    let mut game = Game::with_word("BLEEP").expect("`BLEEP` should make a game");
    let word = score_guess("BLEEP", "EERIE");
    game.update_keyboard(&word);
    assert_eq!(game.keyboard.get('E'), Some(Some(Position::WrongPosition)));
    assert_eq!(game.keyboard.get('R'), Some(Some(Position::NotInWord)));
    assert_eq!(game.keyboard.get('I'), Some(Some(Position::NotInWord)));
    assert_eq!(game.keyboard.get('B'), Some(None));
}

#[test]
fn after_guess_counts_down_to_the_end() {
    let miss = score_guess("DYSON", "DADDY");
    let hit = score_guess("DYSON", "DYSON");
    assert_eq!(TOTAL_GUESSES, 6);
    assert_eq!(after_guess(6, &miss), Turn::Remaining(5));
    assert_eq!(after_guess(2, &miss), Turn::Remaining(1));
    assert_eq!(after_guess(1, &miss), Turn::OutOfGuesses);
    assert_eq!(after_guess(0, &miss), Turn::OutOfGuesses);
    assert_eq!(after_guess(1, &hit), Turn::Won);
    assert_eq!(after_guess(6, &hit), Turn::Won);
}
