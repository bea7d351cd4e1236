use launcher::game::{can_shoot, step_phase, GamePhase, PhaseStep, TextSize, FIRE_RATE};
use launcher::score::{parse_decimal_u64, HighScore};

#[test]
fn space_starts_game_from_menu() {
    let step = step_phase(GamePhase::MainMenu, true, false);
    assert_eq!(
        step,
        PhaseStep {
            advance_clock: true,
            reset: true,
            take_input: false,
            next: GamePhase::Playing,
            simulate: true
        }
    );
    assert_eq!(step_phase(GamePhase::MainMenu, false, true).next, GamePhase::MainMenu);
}

#[test]
fn escape_pauses_and_space_resumes() {
    let pause = step_phase(GamePhase::Playing, false, true);
    assert!(pause.take_input);
    assert_eq!(pause.next, GamePhase::Paused);
    assert!(!pause.simulate);
    let waiting = step_phase(GamePhase::Paused, false, true);
    assert!(!waiting.advance_clock);
    assert_eq!(waiting.next, GamePhase::Paused);
    let resume = step_phase(GamePhase::Paused, true, false);
    assert_eq!(resume.next, GamePhase::Playing);
    assert!(!resume.advance_clock);
    assert!(resume.simulate);
}

#[test]
fn space_after_game_over_starts_over() {
    let step = step_phase(GamePhase::GameOver, true, false);
    assert!(step.reset);
    assert_eq!(step.next, GamePhase::MainMenu);
    assert!(!step_phase(GamePhase::GameOver, false, false).reset);
}

#[test]
fn fire_rate_limits_shots() {
    assert_eq!(FIRE_RATE, 30);
    assert!(!can_shoot(0, 30));
    assert!(can_shoot(0, 31));
    assert!(!can_shoot(100, 100));
}

#[test]
fn text_sizes() {
    assert_eq!(u16::from(TextSize::Large), 50);
    let title: u16 = TextSize::Title.into();
    assert_eq!(title, 40);
    assert_eq!(u16::from(TextSize::Standard), 20);
}

#[test]
fn score_raises_high_score() {
    let mut score = HighScore::load(Some(b"15"));
    assert_eq!(score.current_score(), 0);
    assert_eq!(score.high_score(), 15);
    score.add(10);
    assert_eq!(score.high_score(), 15);
    score.add(7);
    assert_eq!(score.current_score(), 17);
    assert_eq!(score.high_score(), 17);
    score.set_high_score(3);
    assert_eq!(score.high_score(), 3);
    assert_eq!(score.current_score(), 17);
}

#[test]
fn missing_or_bad_saved_score_is_zero() {
    assert_eq!(HighScore::load(None).high_score(), 0);
    assert_eq!(HighScore::load(Some(b"12\n")).high_score(), 0);
    assert_eq!(HighScore::load(Some(b"")).high_score(), 0);
    assert_eq!(HighScore::load(Some(b"-4")).high_score(), 0);
}

#[test]
fn decimal_parsing_matches_std() {
    for text in ["0", "+7", "42", "18446744073709551615", "18446744073709551616", "+", "", "1a", " 1", "007"] {
        assert_eq!(parse_decimal_u64(text.as_bytes()), text.parse::<u64>().ok(), "{text}");
    }
}

#[test]
fn saved_high_score_reads_back() {
    for best in [0u64, 7, 10, 305, u64::MAX] {
        let mut score = HighScore::load(None);
        score.set_high_score(best);
        let text = score.save();
        assert_eq!(text, best.to_string().into_bytes());
        assert_eq!(HighScore::load(Some(&text)).high_score(), best);
    }
}
