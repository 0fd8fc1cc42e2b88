use fractype::{Choice, Ftype, Message, Mode};

#[test]
fn from_index_maps_the_three_places() {
    assert_eq!(Ftype::from_index(0), Ftype::Proper);
    assert_eq!(Ftype::from_index(1), Ftype::Improper);
    assert_eq!(Ftype::from_index(2), Ftype::Apparent);
}

#[test]
fn from_index_takes_every_other_place_as_apparent() {
    assert_eq!(Ftype::from_index(3), Ftype::Apparent);
    assert_eq!(Ftype::from_index(u32::MAX), Ftype::Apparent);
}

#[test]
fn defaults_are_the_untouched_values() {
    assert_eq!(Ftype::default(), Ftype::Proper);
    assert_eq!(Choice::default(), Choice::Unselected);
    assert_eq!(Mode::default(), Mode::Start);
    assert_eq!(Message::default(), Message::Start);
}

#[test]
fn kind_labels() {
    assert_eq!(Ftype::Proper.label(), "Proper");
    assert_eq!(Ftype::Improper.label(), "Improper");
    assert_eq!(Ftype::Apparent.label(), "Apparent");
}

#[test]
fn choice_labels() {
    assert_eq!(Choice::Proper.label(), "Proper");
    assert_eq!(Choice::Improper.label(), "Improper");
    assert_eq!(Choice::Apparent.label(), "Apparent");
    assert_eq!(Choice::Unselected.label(), "Unselected");
}

#[test]
fn mode_labels() {
    assert_eq!(Mode::Start.label(), "Start");
    assert_eq!(Mode::Exercising.label(), "Exercising");
    assert_eq!(Mode::Result.label(), "Result");
    assert_eq!(Mode::FinalEvaluation.label(), "FinalEvaluation");
}

#[test]
fn message_labels() {
    assert_eq!(Message::Start.label(), "Start");
    assert_eq!(Message::ReadInput(Choice::Improper).label(), "Improper");
    assert_eq!(Message::ReadInput(Choice::Unselected).label(), "Unselected");
    assert_eq!(Message::Check.label(), "Check");
    assert_eq!(Message::Next.label(), "Next");
    assert_eq!(Message::Finish.label(), "Finish");
    assert_eq!(Message::Restart.label(), "Restart");
    assert_eq!(Message::Quit.label(), "Quit");
}

#[test]
fn a_choice_names_its_own_kind_only() {
    let kinds = [Ftype::Proper, Ftype::Improper, Ftype::Apparent];
    let choices = [Choice::Proper, Choice::Improper, Choice::Apparent];
    for (i, choice) in choices.iter().enumerate() {
        for (j, kind) in kinds.iter().enumerate() {
            assert_eq!(choice.names(*kind), i == j);
        }
    }
    for kind in kinds {
        assert!(!Choice::Unselected.names(kind));
    }
}

#[test]
fn choices_are_ordered_as_declared() {
    assert!(Choice::Proper < Choice::Improper);
    assert!(Choice::Improper < Choice::Apparent);
    assert!(Choice::Apparent < Choice::Unselected);
}
