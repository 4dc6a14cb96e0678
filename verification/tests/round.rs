use wordle::letters::{Letter, Position};
use wordle::valid_words::Dictionary;
use wordle::wordle::{Game, WordleError};

fn dictionary() -> Dictionary {
    let valid = [
        "BLEEP", "DADDY", "DUSTY", "DYSON", "EERIE", "HELLO", "HYSON", "SASSY", "WORDY", "WORLD",
    ];
    let good = ["DYSON", "HELLO", "WORLD"];
    Dictionary::new(
        valid.iter().map(|w| w.to_string()).collect(),
        good.iter().map(|w| w.to_string()).collect(),
    )
    .expect("the lists should make a dictionary")
}

#[test]
fn wordle_make_guess_invalid_inputs() {
    let words = dictionary();
    let game = Game::new(&words);

    assert_eq!(game.make_guess("spurg", &words), Err(WordleError::InvalidWord));
    assert_eq!(game.make_guess("HYiiA", &words), Err(WordleError::InvalidWord));
    assert_eq!(game.make_guess("olleh", &words), Err(WordleError::InvalidWord));

    assert_eq!(game.make_guess("Öster", &words), Err(WordleError::IncludesNonAscii));
    assert_eq!(game.make_guess("Złoty", &words), Err(WordleError::IncludesNonAscii));
    assert_eq!(
        game.make_guess("Schrödinger", &words),
        Err(WordleError::IncludesNonAscii)
    );

    assert_eq!(game.make_guess("", &words), Err(WordleError::WrongWordLength));
    assert_eq!(game.make_guess("hi", &words), Err(WordleError::WrongWordLength));
    assert_eq!(
        game.make_guess("this should fail", &words),
        Err(WordleError::WrongWordLength)
    );
}

#[test]
fn wordle_make_guess_correct_output() {
    let words = dictionary();
    let game = Game::with_word("DYSON").expect("`DYSON` should be a five-letter word");

    assert_eq!(
        game.make_guess("WORDY", &words)
            .expect("input `WORDY` should be a valid guess"),
        [
            Letter::new('w', Position::NotInWord),
            Letter::new('o', Position::WrongPosition),
            Letter::new('r', Position::NotInWord),
            Letter::new('d', Position::WrongPosition),
            Letter::new('y', Position::WrongPosition),
        ]
    );
    assert_eq!(
        game.make_guess("DADDY", &words)
            .expect("input `DADDY` should be a valid guess"),
        [
            Letter::new('d', Position::Correct),
            Letter::new('a', Position::NotInWord),
            // Only one 'D' is in the word and the first one has claimed it.
            Letter::new('d', Position::NotInWord),
            Letter::new('d', Position::NotInWord),
            Letter::new('y', Position::WrongPosition),
        ]
    );
    assert_eq!(
        game.make_guess("dySOn", &words)
            .expect("input `dySOn` should be a valid guess"),
        [
            Letter::new('D', Position::Correct),
            Letter::new('Y', Position::Correct),
            Letter::new('s', Position::Correct),
            Letter::new('o', Position::Correct),
            Letter::new('N', Position::Correct),
        ]
    );
    assert_eq!(
        game.make_guess("HySoN", &words)
            .expect("input `HySoN` should be a valid guess"),
        [
            Letter::new('h', Position::NotInWord),
            Letter::new('Y', Position::Correct),
            Letter::new('s', Position::Correct),
            Letter::new('O', Position::Correct),
            Letter::new('n', Position::Correct),
        ]
    );
    assert_eq!(
        game.make_guess("sassy", &words)
            .expect("input `sassy` should be a valid guess"),
        [
            // The 'S' in the middle is Correct and the word has no other.
            Letter::new('s', Position::NotInWord),
            Letter::new('a', Position::NotInWord),
            Letter::new('s', Position::Correct),
            Letter::new('s', Position::NotInWord),
            Letter::new('y', Position::WrongPosition),
        ]
    );
    assert_eq!(
        game.make_guess("dusty", &words)
            .expect("input `dusty` should be a valid guess"),
        [
            Letter::new('d', Position::Correct),
            Letter::new('u', Position::NotInWord),
            Letter::new('s', Position::Correct),
            Letter::new('t', Position::NotInWord),
            Letter::new('y', Position::WrongPosition),
        ]
    );
}

#[test]
fn round_scores_repeated_letters_from_the_left() {
    let words = dictionary();
    let game = Game::with_word("bleep").expect("`bleep` should be a five-letter word");
    assert_eq!(
        game.make_guess("eerie", &words),
        Ok([
            Letter { letter: 'E', position: Position::WrongPosition },
            Letter { letter: 'E', position: Position::WrongPosition },
            Letter { letter: 'R', position: Position::NotInWord },
            Letter { letter: 'I', position: Position::NotInWord },
            Letter { letter: 'E', position: Position::NotInWord },
        ])
    );
}

#[test]
fn round_wants_a_five_letter_secret() {
    assert!(Game::with_word("DYSO").is_none());
    assert!(Game::with_word("dys0n").is_none());
}
