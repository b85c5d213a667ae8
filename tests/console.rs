use libuefi::console::{set_max_text_mode, TextOutput};
use libuefi::modes::select_largest;
use libuefi::simulated::SimulatedConsole;
use libuefi::status::{Completion, Status};

#[test]
fn line_feed_gets_carriage_return() {
    let mut out = TextOutput { table: SimulatedConsole::new(vec![(80, 25)]) };
    assert_eq!(out.output_string("a\nb"), Ok(Completion::Success(())));
    assert_eq!(out.table.sent, vec![vec![97u16], vec![10], vec![13], vec![98]]);
}

#[test]
fn empty_string_sends_nothing() {
    let mut out = TextOutput { table: SimulatedConsole::new(vec![]) };
    assert_eq!(out.output_string(""), Ok(Completion::Success(())));
    assert!(out.table.sent.is_empty());
}

#[test]
fn wide_characters_are_cut_to_sixteen_bits() {
    let mut out = TextOutput { table: SimulatedConsole::new(vec![]) };
    let _ = out.output_string("é\n");
    assert_eq!(out.table.sent, vec![vec![0xe9u16], vec![10], vec![13]]);
}

#[test]
fn text_mode_query_and_selection() {
    let mut out = TextOutput { table: SimulatedConsole::new(vec![(80, 25), (100, 31)]) };
    assert_eq!(out.query_mode(1), Ok(Completion::Success((100, 31))));
    assert_eq!(out.query_mode(2), Err(Status::Unsupported));
    assert_eq!(out.set_mode(5), Err(Status::Unsupported));
    assert_eq!(out.mode().max_mode, 2);
}

#[test]
fn largest_text_mode_is_selected() {
    let mut out = TextOutput { table: SimulatedConsole::new(vec![(80, 25), (80, 50), (100, 31), (128, 50)]) };
    set_max_text_mode(&mut out);
    assert_eq!(out.table.selected, vec![3]);
}

#[test]
fn no_modes_selects_nothing() {
    let mut out = TextOutput { table: SimulatedConsole::new(vec![]) };
    set_max_text_mode(&mut out);
    assert!(out.table.selected.is_empty());
}

#[test]
fn selection_keeps_last_of_equal_sizes() {
    let sizes = vec![Some((80, 25)), None, Some((80, 25)), Some((60, 60))];
    assert_eq!(select_largest(&sizes), Some(2));
    assert_eq!(select_largest(&vec![None, None]), None);
    assert_eq!(select_largest(&vec![Some((0, 0))]), Some(0));
}

#[test]
fn failed_character_is_returned_and_printing_goes_on() {
    let mut console = SimulatedConsole::new(vec![]);
    console.rejected = Some(98);
    let mut out = TextOutput { table: console };
    assert_eq!(out.output_string("abc"), Err(Status::DeviceError));
    assert_eq!(out.table.sent, vec![vec![97u16], vec![98], vec![99]]);
    assert_eq!(out.table.statuses, vec![Status::Success, Status::DeviceError, Status::Success]);
}

#[test]
fn failed_carriage_return_is_returned() {
    let mut console = SimulatedConsole::new(vec![]);
    console.rejected = Some(13);
    let mut out = TextOutput { table: console };
    assert_eq!(out.output_string("a\nb"), Err(Status::DeviceError));
    assert_eq!(out.table.sent, vec![vec![97u16], vec![10], vec![13], vec![98]]);
}
