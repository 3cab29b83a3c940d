use rust_deej::display::{DisplayCommand, FRAME_COMMANDS};
use rust_deej::geometry::{Point, Rectangle, Size};
use rust_deej::scheduler::{PassOutcome, Scheduler};

fn panel() -> Rectangle {
    Rectangle { top_left: Point { x: 0, y: 0 }, size: Size { width: 128, height: 64 } }
}

fn text(content: &str) -> heapless::String<32> {
    heapless::String::try_from(content).unwrap()
}

#[test]
fn init_starts_at_rest() {
    let scheduler = Scheduler::init(panel());
    assert_eq!(scheduler.raw_input_values(), [0, 0, 0, 0]);
    assert_eq!(scheduler.display().volumes(), [0, 0, 0, 0]);
    assert_eq!(scheduler.display().title(), Some("Volumes"));
    assert!(scheduler.display().is_ready());
    assert_eq!(scheduler.display().title_position(), Point { x: 63, y: 8 });
    assert_eq!(scheduler.display_on_time(), 10);
    assert!(!scheduler.is_refresh_pending());
    assert!(!scheduler.is_auto_off_armed());
}

#[test]
fn store_reading_writes_one_channel() {
    let mut scheduler = Scheduler::init(panel());
    scheduler.store_reading(2, 385);
    assert_eq!(scheduler.raw_input_values(), [0, 0, 385, 0]);
    scheduler.store_reading(0, 770);
    scheduler.store_reading(2, 100);
    assert_eq!(scheduler.raw_input_values(), [770, 0, 100, 0]);
    assert_eq!(scheduler.display().volumes(), [0, 0, 0, 0]);
    assert!(!scheduler.is_refresh_pending());
}

#[test]
fn a_pass_with_a_moved_volume_asks_for_a_refresh() {
    let mut scheduler = Scheduler::init(panel());
    scheduler.store_reading(1, 770);
    scheduler.store_reading(3, 385);
    assert_eq!(scheduler.finish_pass(), PassOutcome { refresh: true, pause: 50 });
    assert_eq!(scheduler.display().volumes(), [0, 100, 0, 50]);
    assert!(scheduler.is_refresh_pending());
}

#[test]
fn a_pass_without_a_moved_volume_asks_for_nothing() {
    let mut scheduler = Scheduler::init(panel());
    assert_eq!(scheduler.finish_pass(), PassOutcome { refresh: false, pause: 50 });
    scheduler.store_reading(0, 8);
    assert_eq!(scheduler.finish_pass(), PassOutcome { refresh: false, pause: 50 });
    assert_eq!(scheduler.display().volumes(), [0, 0, 0, 0]);
    assert!(!scheduler.is_refresh_pending());
}

#[test]
fn requests_for_a_refresh_coalesce_until_it_runs() {
    let mut scheduler = Scheduler::init(panel());
    scheduler.store_reading(0, 385);
    assert!(scheduler.finish_pass().refresh);
    scheduler.store_reading(0, 770);
    assert!(!scheduler.finish_pass().refresh);
    assert_eq!(scheduler.display().volumes(), [100, 0, 0, 0]);
    assert!(scheduler.is_refresh_pending());
    scheduler.update_display();
    assert!(!scheduler.is_refresh_pending());
    scheduler.store_reading(0, 0);
    assert!(scheduler.finish_pass().refresh);
}

#[test]
fn update_display_draws_the_frame_and_arms_the_timer() {
    let mut scheduler = Scheduler::init(panel());
    scheduler.store_reading(1, 385);
    scheduler.finish_pass();
    let refresh = scheduler.update_display();
    assert_eq!(refresh.auto_off_after, 10);
    assert_eq!(refresh.commands.len(), FRAME_COMMANDS);
    assert_eq!(refresh.commands[0], DisplayCommand::Power(true));
    assert_eq!(refresh.commands[1], DisplayCommand::Clear);
    assert_eq!(
        refresh.commands[2],
        DisplayCommand::Title { text: Some("Volumes"), position: Point { x: 63, y: 8 } }
    );
    assert_eq!(
        refresh.commands[6],
        DisplayCommand::Label { text: text("1: 50"), position: Point { x: 2, y: 34 } }
    );
    assert_eq!(
        refresh.commands[8],
        DisplayCommand::BarFill(Rectangle {
            top_left: Point { x: 45, y: 27 },
            size: Size { width: 40, height: 7 },
        })
    );
    assert_eq!(refresh.commands[15], DisplayCommand::Flush);
    assert!(scheduler.is_auto_off_armed());
    assert!(!scheduler.is_refresh_pending());
}

#[test]
fn the_panel_is_blanked_once_for_each_refresh() {
    let mut scheduler = Scheduler::init(panel());
    scheduler.update_display();
    assert_eq!(scheduler.turn_display_off(), Some(DisplayCommand::Power(false)));
    assert!(!scheduler.is_auto_off_armed());
    assert_eq!(scheduler.turn_display_off(), None);
    assert_eq!(scheduler.turn_display_off(), None);
    scheduler.update_display();
    assert_eq!(scheduler.turn_display_off(), Some(DisplayCommand::Power(false)));
    assert_eq!(scheduler.turn_display_off(), None);
}

#[test]
fn refreshes_in_a_row_share_one_blanking() {
    let mut scheduler = Scheduler::init(panel());
    scheduler.update_display();
    scheduler.update_display();
    scheduler.update_display();
    assert!(scheduler.is_auto_off_armed());
    assert_eq!(scheduler.turn_display_off(), Some(DisplayCommand::Power(false)));
    assert_eq!(scheduler.turn_display_off(), None);
}

#[test]
fn an_expiry_before_any_refresh_blanks_nothing() {
    let mut scheduler = Scheduler::init(panel());
    assert_eq!(scheduler.turn_display_off(), None);
    assert!(!scheduler.is_auto_off_armed());
}

#[test]
fn sampling_and_telemetry_leave_the_timer_alone() {
    let mut scheduler = Scheduler::init(panel());
    scheduler.update_display();
    scheduler.store_reading(0, 770);
    scheduler.finish_pass();
    scheduler.send_to_serial();
    assert!(scheduler.is_auto_off_armed());
    assert_eq!(scheduler.turn_display_off(), Some(DisplayCommand::Power(false)));
    assert!(scheduler.is_refresh_pending());
}

#[test]
fn send_to_serial_reports_the_latest_readings() {
    let mut scheduler = Scheduler::init(panel());
    let report = scheduler.send_to_serial();
    assert_eq!(report.line.as_str(), "0|0|0|0\r\n");
    assert_eq!(report.next_after, 500);
    scheduler.store_reading(1, 385);
    scheduler.store_reading(2, 770);
    scheduler.store_reading(3, 700);
    let report = scheduler.send_to_serial();
    assert_eq!(report.line.as_str(), "0|511|1023|930\r\n");
    assert_eq!(report.next_after, 500);
}

#[test]
fn telemetry_sees_a_pass_that_is_half_done() {
    let mut scheduler = Scheduler::init(panel());
    scheduler.store_reading(0, 770);
    scheduler.store_reading(1, 770);
    assert_eq!(scheduler.send_to_serial().line.as_str(), "1023|1023|0|0\r\n");
    assert_eq!(scheduler.display().volumes(), [0, 0, 0, 0]);
}
