use alarm_panel::buffer::CodeBuffer;
use alarm_panel::keypad::interpret_scan;
use alarm_panel::keypad::key_of;
use alarm_panel::machine::AlarmMode;
use alarm_panel::machine::StatusMessage;
use alarm_panel::monitor::alert_line;
use alarm_panel::monitor::indicator_lines;
use alarm_panel::monitor::AlertLevel;
use alarm_panel::monitor::IntrusionMonitor;
use alarm_panel::presenter::DisplayPresenter;
use alarm_panel::symbol::Symbol;

fn one_key(row: usize, col: usize) -> [[bool; 4]; 4] {
    let mut samples = [[false; 4]; 4];
    samples[row][col] = true;
    samples
}

#[test]
fn every_key_is_decoded() {
    let expected = [
        [Symbol::Digit1, Symbol::Digit2, Symbol::Digit3, Symbol::KeyA],
        [Symbol::Digit4, Symbol::Digit5, Symbol::Digit6, Symbol::KeyB],
        [Symbol::Digit7, Symbol::Digit8, Symbol::Digit9, Symbol::KeyC],
        [Symbol::Star, Symbol::Digit0, Symbol::Hash, Symbol::KeyD],
    ];
    for row in 0..4 {
        for col in 0..4 {
            assert_eq!(interpret_scan(&one_key(row, col)), expected[row][col]);
            assert_eq!(key_of(row, col), expected[row][col]);
        }
    }
}

#[test]
fn quiet_matrix_reports_no_key() {
    assert_eq!(interpret_scan(&[[false; 4]; 4]), Symbol::NoKey);
}

#[test]
fn later_column_wins_within_a_row() {
    let mut samples = [[false; 4]; 4];
    samples[0][1] = true;
    samples[0][3] = true;
    assert_eq!(interpret_scan(&samples), Symbol::KeyA);

    let mut bottom = [[false; 4]; 4];
    bottom[3][1] = true;
    bottom[3][3] = true;
    assert_eq!(interpret_scan(&bottom), Symbol::KeyD);
}

#[test]
fn later_row_wins_across_rows() {
    let mut samples = [[false; 4]; 4];
    samples[0][0] = true;
    samples[2][2] = true;
    assert_eq!(interpret_scan(&samples), Symbol::Digit9);
}

#[test]
fn alert_only_while_armed_and_triggered() {
    assert_eq!(IntrusionMonitor::evaluate(AlarmMode::Disarmed, true), AlertLevel::Inactive);
    assert_eq!(IntrusionMonitor::evaluate(AlarmMode::Disarmed, false), AlertLevel::Inactive);
    assert_eq!(IntrusionMonitor::evaluate(AlarmMode::Armed, true), AlertLevel::Active);
    assert_eq!(IntrusionMonitor::evaluate(AlarmMode::Armed, false), AlertLevel::Inactive);
}

#[test]
fn output_lines_follow_level_and_mode() {
    assert!(alert_line(AlertLevel::Active));
    assert!(!alert_line(AlertLevel::Inactive));
    assert_eq!(indicator_lines(AlarmMode::Armed), (true, false));
    assert_eq!(indicator_lines(AlarmMode::Disarmed), (false, true));
}

#[test]
fn presenter_formats_code_and_message() {
    let presenter = DisplayPresenter::new(8);
    let mut entry = CodeBuffer::new();
    entry.append(Symbol::Digit1);
    entry.append(Symbol::Digit2);
    let content = presenter.present(&entry, StatusMessage::KeepEntering);
    assert_eq!(content.code_line, "12");
    assert_eq!(content.status_line, "keep entering code, press * to fix");
    assert!(content.hint_line.is_none());
}

#[test]
fn presenter_adds_hint_past_threshold() {
    let presenter = DisplayPresenter::new(3);
    let mut entry = CodeBuffer::new();
    for _ in 0..4 {
        entry.append(Symbol::Digit8);
    }
    let content = presenter.present(&entry, StatusMessage::SufficientLength);
    assert_eq!(content.code_line, "8888");
    assert_eq!(content.hint_line.as_deref(), Some("confirm with #, fix with *"));

    let mut short = CodeBuffer::new();
    short.append(Symbol::Digit8);
    let content = presenter.present(&short, StatusMessage::KeepEntering);
    assert!(content.hint_line.is_none());
}
