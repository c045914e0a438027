use tictactoe::dialogue::{Answer, Choice};

#[test]
fn yes_is_read_in_five_spellings() {
    for line in ["Yes", "YES", "yes", "Y", "y"] {
        assert_eq!(Answer::read(line), Some(Answer::Yes));
    }
}

#[test]
fn no_is_read_in_five_spellings() {
    for line in ["No", "NO", "no", "N", "n"] {
        assert_eq!(Answer::read(line), Some(Answer::No));
    }
}

#[test]
fn other_replies_are_no_answer() {
    for line in ["", "yEs", "nO", "yes ", " no", "yess", "ye", "maybe", "1", "é"] {
        assert_eq!(Answer::read(line), None);
    }
}

#[test]
fn choices_are_read_from_their_letters() {
    assert_eq!(Choice::read("E"), Some(Choice::Exit));
    assert_eq!(Choice::read("e"), Some(Choice::Exit));
    assert_eq!(Choice::read("S"), Some(Choice::Save));
    assert_eq!(Choice::read("s"), Some(Choice::Save));
    assert_eq!(Choice::read("M"), Some(Choice::Motion));
    assert_eq!(Choice::read("m"), Some(Choice::Motion));
}

#[test]
fn other_lines_are_no_choice() {
    for line in ["", "exit", "x", "em", " m", "m ", "É"] {
        assert_eq!(Choice::read(line), None);
    }
}
