use tictactoe::error::ErrorKind;
use tictactoe::mark::TicTacCharacter;
use tictactoe::table::Table;

#[test]
fn blank_table_shows_the_cell_numbers() {
    let expected = concat_lines(&[
        "     |     |     ",
        " 001 | 002 | 003 ",
        "_____|_____|_____",
        "     |     |     ",
        " 004 | 005 | 006 ",
        "_____|_____|_____",
        "     |     |     ",
        " 007 | 008 | 009 ",
        "     |     |     ",
    ]);
    assert_eq!(Table::create_with(3).view(), expected);
}

#[test]
fn marked_cells_show_their_marks() {
    let mut table = Table::create_with(3);
    assert_eq!(table.insert(0, TicTacCharacter::Tic), Ok(()));
    assert_eq!(table.insert(4, TicTacCharacter::Tac), Ok(()));
    assert_eq!(table.insert(8, TicTacCharacter::Tic), Ok(()));
    assert_eq!(table.insert(5, TicTacCharacter::Tac), Ok(()));
    let expected = concat_lines(&[
        "     |     |     ",
        "  X  | 002 | 003 ",
        "_____|_____|_____",
        "     |     |     ",
        " 004 |  O  |  O  ",
        "_____|_____|_____",
        "     |     |     ",
        " 007 | 008 |  X  ",
        "     |     |     ",
    ]);
    assert_eq!(table.view(), expected);
}

#[test]
fn largest_table_numbers_its_cells_up_to_one_hundred() {
    let mut table = Table::create_with(10);
    assert_eq!(table.insert(98, TicTacCharacter::Tac), Ok(()));
    let text = table.view();
    let lines: Vec<&str> = text.split('\n').collect();
    assert_eq!(lines.len(), 31);
    assert_eq!(lines[30], "");
    let blank = "     |     |     |     |     |     |     |     |     |     ";
    let ruled = "_____|_____|_____|_____|_____|_____|_____|_____|_____|_____";
    for row in 0..10 {
        assert_eq!(lines[3 * row], blank);
        assert_eq!(lines[3 * row + 2], if row == 9 { blank } else { ruled });
    }
    assert_eq!(lines[1], " 001 | 002 | 003 | 004 | 005 | 006 | 007 | 008 | 009 | 010 ");
    assert_eq!(lines[4], " 011 | 012 | 013 | 014 | 015 | 016 | 017 | 018 | 019 | 020 ");
    assert_eq!(lines[28], " 091 | 092 | 093 | 094 | 095 | 096 | 097 | 098 |  O  | 100 ");
}

#[test]
fn every_error_has_its_own_message() {
    assert_eq!(
        ErrorKind::OutOfRange.message(),
        "A place which you want insert your character is located out the table.\n"
    );
    assert_eq!(
        ErrorKind::CellOccupied.message(),
        "In a place which you want insert your character yet inserted a character.\n"
    );
    assert_eq!(
        ErrorKind::CorruptRecord.message(),
        "A saved game is damaged and can not be loaded.\n"
    );
    assert_eq!(
        ErrorKind::InvalidSize.message(),
        "A size of your game table must be great then 2 and less then 11.\n"
    );
}

fn concat_lines(lines: &[&str]) -> String {
    let mut text = String::new();
    for line in lines {
        text.push_str(line);
        text.push('\n');
    }
    text
}
