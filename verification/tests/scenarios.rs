use fractype::{Choice, Fraction, Ftype, Message, Mode, State, TransitionError};

fn session_of(rounds: u32, errors: u32) -> State {
    let proper = Fraction::new(3, 7, Ftype::Proper);
    let mut s = State::new();
    assert_eq!(s.start_with(proper), Ok(()));
    for round in 0..rounds {
        let answer = if round < errors { Choice::Improper } else { Choice::Proper };
        assert_eq!(s.read_input(answer), Ok(()));
        assert_eq!(s.evaluate(), Ok(()));
        if round + 1 < rounds {
            assert_eq!(s.next_with(proper), Ok(()));
        }
    }
    s
}

#[test]
fn scenario_right_answer_to_three_sevenths() {
    let mut s = State::new();
    assert_eq!(s.start_with(Fraction::new(3, 7, Ftype::Proper)), Ok(()));
    assert_eq!((s.num(), s.den(), s.frac_type()), (3, 7, Ftype::Proper));
    assert_eq!(s.read_input(Choice::Proper), Ok(()));
    assert_eq!(s.evaluate(), Ok(()));
    assert_eq!(s.mode(), Mode::Result);
    assert!(!s.error_made());
    assert_eq!(s.exercise_count(), 1);
    assert_eq!(s.errors_count(), 0);
}

#[test]
fn scenario_wrong_answer_to_three_sevenths() {
    let mut s = State::new();
    assert_eq!(s.start_with(Fraction::new(3, 7, Ftype::Proper)), Ok(()));
    assert_eq!(s.read_input(Choice::Apparent), Ok(()));
    assert_eq!(s.evaluate(), Ok(()));
    assert_eq!(s.mode(), Mode::Result);
    assert!(s.error_made());
    assert_eq!(s.exercise_count(), 1);
    assert_eq!(s.errors_count(), 1);
}

#[test]
fn scenario_right_answer_to_whatever_the_generator_gives() {
    for _ in 0..100 {
        let mut s = State::new();
        assert_eq!(s.start(), Ok(()));
        let answer = match s.frac_type() {
            Ftype::Proper => Choice::Proper,
            Ftype::Improper => Choice::Improper,
            Ftype::Apparent => Choice::Apparent,
        };
        assert_eq!(s.read_input(answer), Ok(()));
        assert_eq!(s.evaluate(), Ok(()));
        assert_eq!(s.mode(), Mode::Result);
        assert!(!s.error_made());
        assert_eq!(s.exercise_count(), 1);
        assert_eq!(s.errors_count(), 0);
    }
}

#[test]
fn scenario_twenty_exercises_with_three_errors() {
    let mut s = session_of(20, 3);
    assert!(s.session_complete());
    assert_eq!(s.finish(), Ok(()));
    assert_eq!(s.mode(), Mode::FinalEvaluation);
    assert_eq!(s.correct_count(), 17);
    assert_eq!(s.errors_count(), 3);
    assert_eq!(s.exercise_count(), 20);
    assert_eq!(s.accuracy_percent(), Some(85));
    let accuracy = s.correct_count() as f32 / s.exercise_count() as f32 * 100.0;
    assert_eq!(accuracy, 85.0);
    assert_eq!(format!("{:.1}%", accuracy), "85.0%");
}

#[test]
fn scenario_nineteen_exercises_are_not_yet_a_session() {
    let s = session_of(19, 3);
    assert!(!s.session_complete());
    assert_eq!(s.accuracy_percent(), Some(84));
}

#[test]
fn scenario_finish_is_taken_before_the_session_is_complete() {
    let mut s = session_of(2, 1);
    assert!(!s.session_complete());
    assert_eq!(s.update(Message::Finish).map(|_| s.mode()), Ok(Mode::FinalEvaluation));
}

#[test]
fn scenario_next_is_taken_after_the_session_is_complete() {
    let mut s = session_of(20, 0);
    assert!(s.session_complete());
    assert_eq!(s.next_with(Fraction::new(9, 3, Ftype::Apparent)), Ok(()));
    assert_eq!(s.mode(), Mode::Exercising);
    assert_eq!(s.exercise_count(), 20);
}

#[test]
fn scenario_a_second_session_after_the_first() {
    let mut s = session_of(20, 3);
    assert_eq!(s.finish(), Ok(()));
    assert_eq!(s.restart_with(Fraction::new(7, 3, Ftype::Improper)), Ok(()));
    assert_eq!(s.mode(), Mode::Exercising);
    assert_eq!((s.exercise_count(), s.errors_count()), (0, 0));
    assert_eq!(s.accuracy_percent(), None);
    assert_eq!(s.read_input(Choice::Improper), Ok(()));
    assert_eq!(s.evaluate(), Ok(()));
    assert_eq!((s.exercise_count(), s.errors_count()), (1, 0));
    assert_eq!(s.finish(), Ok(()));
    assert_eq!(s.finish(), Err(TransitionError::WrongPhase));
}
