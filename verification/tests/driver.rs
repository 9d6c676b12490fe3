use st7735_core::action::BusAction;
use st7735_core::bitmap::Bitmap;
use st7735_core::config::{Config, DriverError, Orientation};
use st7735_core::driver::Driver;

fn panel_128x160() -> Config {
    Config::new(128, 160, true, false)
}

fn ready_driver(cfg: Config) -> Driver {
    let mut d = Driver::new(cfg);
    let _ = d.initialize();
    d
}

fn cmd(opcode: u8, args: &[u8]) -> Vec<BusAction> {
    let mut v = vec![BusAction::CommandMode, BusAction::WriteByte(opcode)];
    if !args.is_empty() {
        v.push(BusAction::DataMode);
        for &b in args {
            v.push(BusAction::WriteByte(b));
        }
    }
    v
}

fn window(cx0: u16, cy0: u16, cx1: u16, cy1: u16) -> Vec<BusAction> {
    let mut v = cmd(
        0x2A,
        &[
            (cx0 >> 8) as u8,
            cx0 as u8,
            (cx1 >> 8) as u8,
            cx1 as u8,
        ],
    );
    v.extend(cmd(
        0x2B,
        &[
            (cy0 >> 8) as u8,
            cy0 as u8,
            (cy1 >> 8) as u8,
            cy1 as u8,
        ],
    ));
    v.extend(cmd(0x2C, &[]));
    v
}

fn pixel_stream(bytes: &[u8]) -> Vec<BusAction> {
    let mut v = vec![BusAction::DataMode];
    for &b in bytes {
        v.push(BusAction::WriteByte(b));
    }
    v
}

fn reset_pulse() -> Vec<BusAction> {
    vec![
        BusAction::ResetLow,
        BusAction::DelayMs(10),
        BusAction::ResetHigh,
        BusAction::DelayMs(120),
    ]
}

#[test]
fn window_addresses_follow_offset() {
    let mut d = ready_driver(panel_128x160());
    d.set_offset(10, 20);
    let plan = d.set_window(0, 0, 49, 39).expect("window fits the panel");
    assert_eq!(plan, window(10, 20, 59, 59));
}

#[test]
fn window_address_bytes_are_big_endian() {
    let mut d = ready_driver(Config::new(1000, 800, true, false));
    d.set_offset(300, 700);
    let plan = d.set_window(0, 0, 0, 0).expect("window fits the panel");
    // 300 = 0x012C, 700 = 0x02BC
    assert_eq!(plan, window(300, 700, 300, 700));
    assert_eq!(plan[3], BusAction::WriteByte(0x01));
    assert_eq!(plan[4], BusAction::WriteByte(0x2C));
    assert_eq!(plan[10], BusAction::WriteByte(0x02));
    assert_eq!(plan[11], BusAction::WriteByte(0xBC));
}

#[test]
fn initialize_twice_same_sequence() {
    let mut d = Driver::new(panel_128x160());
    let first = d.initialize();
    let second = d.initialize();
    assert!(!first.is_empty());
    assert_eq!(first, second);
}

#[test]
fn initialize_exact_sequence() {
    let mut d = Driver::new(panel_128x160());
    let plan = d.initialize();
    let mut expected = reset_pulse();
    expected.extend(cmd(0x01, &[]));
    expected.push(BusAction::DelayMs(200));
    expected.extend(cmd(0x11, &[]));
    expected.push(BusAction::DelayMs(200));
    expected.extend(cmd(0x36, &[0x00]));
    expected.extend(cmd(0x3A, &[0x05]));
    expected.extend(cmd(0x29, &[]));
    assert_eq!(plan, expected);
}

#[test]
fn initialize_bgr_inverted_sequence() {
    let mut d = Driver::new(Config::new(128, 160, false, true));
    let plan = d.initialize();
    let mut expected = reset_pulse();
    expected.extend(cmd(0x01, &[]));
    expected.push(BusAction::DelayMs(200));
    expected.extend(cmd(0x11, &[]));
    expected.push(BusAction::DelayMs(200));
    expected.extend(cmd(0x36, &[0x08]));
    expected.extend(cmd(0x3A, &[0x05]));
    expected.extend(cmd(0x21, &[]));
    expected.extend(cmd(0x29, &[]));
    assert_eq!(plan, expected);
}

#[test]
fn operations_before_initialize_are_refused() {
    let mut d = Driver::new(panel_128x160());
    assert_eq!(d.set_window(0, 0, 1, 1), Err(DriverError::SequenceError));
    assert_eq!(d.clear(0x0000), Err(DriverError::SequenceError));
    let bitmap = Bitmap::new(vec![0u8; 8], 2);
    assert_eq!(d.draw(&bitmap, 0, 0), Err(DriverError::SequenceError));
    assert_eq!(
        d.set_orientation(Orientation::Landscape),
        Err(DriverError::SequenceError)
    );
}

#[test]
fn operations_after_reset_alone_are_refused() {
    let mut d = Driver::new(panel_128x160());
    let pulse = d.reset();
    assert_eq!(pulse, reset_pulse());
    assert_eq!(d.set_window(0, 0, 1, 1), Err(DriverError::SequenceError));
    let bitmap = Bitmap::new(vec![0u8; 8], 2);
    assert_eq!(d.draw(&bitmap, 0, 0), Err(DriverError::SequenceError));
}

#[test]
fn draw_out_of_bounds_is_refused() {
    let d = ready_driver(panel_128x160());
    let bitmap = Bitmap::new(vec![0u8; 8], 2);
    assert_eq!(d.draw(&bitmap, 127, 0), Err(DriverError::BoundsError));
    assert_eq!(d.draw(&bitmap, 0, 159), Err(DriverError::BoundsError));
}

#[test]
fn draw_out_of_bounds_through_offset_is_refused() {
    let mut d = ready_driver(panel_128x160());
    d.set_offset(0, 159);
    let bitmap = Bitmap::new(vec![0u8; 8], 2);
    assert_eq!(d.draw(&bitmap, 0, 0), Err(DriverError::BoundsError));
}

#[test]
fn draw_at_far_corner_fits() {
    let d = ready_driver(panel_128x160());
    let bitmap = Bitmap::new(vec![0u8; 8], 2);
    let plan = d.draw(&bitmap, 126, 158).expect("corner placement fits");
    let mut expected = window(126, 158, 127, 159);
    expected.extend(pixel_stream(&[0u8; 8]));
    assert_eq!(plan, expected);
}

#[test]
fn bitmap_with_ragged_rows_is_refused() {
    let d = ready_driver(panel_128x160());
    // Six bytes are three pixels: not whole rows of width two.
    let bitmap = Bitmap::new(vec![0u8; 6], 2);
    assert_eq!(d.draw(&bitmap, 0, 0), Err(DriverError::MalformedInput));
}

#[test]
fn bitmap_with_odd_byte_count_is_refused() {
    let d = ready_driver(panel_128x160());
    let bitmap = Bitmap::new(vec![0u8; 5], 2);
    assert_eq!(d.draw(&bitmap, 0, 0), Err(DriverError::MalformedInput));
}

#[test]
fn bitmap_with_zero_width_is_refused() {
    let d = ready_driver(panel_128x160());
    let bitmap = Bitmap::new(vec![0u8; 4], 0);
    assert_eq!(d.draw(&bitmap, 0, 0), Err(DriverError::MalformedInput));
}

#[test]
fn bitmap_with_no_pixels_is_refused() {
    let d = ready_driver(panel_128x160());
    let bitmap = Bitmap::new(Vec::new(), 2);
    assert_eq!(d.draw(&bitmap, 0, 0), Err(DriverError::MalformedInput));
}

#[test]
fn sequence_error_takes_precedence_over_malformed_input() {
    let mut d = Driver::new(panel_128x160());
    let bitmap = Bitmap::new(vec![0u8; 6], 2);
    assert_eq!(d.draw(&bitmap, 0, 0), Err(DriverError::SequenceError));
    let _ = d.initialize();
    assert_eq!(d.draw(&bitmap, 200, 0), Err(DriverError::MalformedInput));
}

#[test]
fn draw_streams_pixels_in_raster_order() {
    // Two-by-two bitmap of RED, GREEN, BLUE, WHITE in 16-bit big-endian
    // encoding, drawn at the origin of a 128x160 panel with zero offset and
    // normal orientation.
    let d = ready_driver(panel_128x160());
    let bytes = vec![0xF8, 0x00, 0x07, 0xE0, 0x00, 0x1F, 0xFF, 0xFF];
    let bitmap = Bitmap::new(bytes.clone(), 2);
    let plan = d.draw(&bitmap, 0, 0).expect("bitmap fits the panel");
    let mut expected = window(0, 0, 1, 1);
    expected.extend(pixel_stream(&bytes));
    assert_eq!(plan, expected);
}

#[test]
fn reset_pulses_line_low_then_high() {
    let mut d = Driver::new(panel_128x160());
    assert_eq!(d.reset(), reset_pulse());
    // The pulse is the same whatever came before.
    let _ = d.initialize();
    assert_eq!(d.reset(), reset_pulse());
}

#[test]
fn initialize_begins_with_reset_pulse() {
    let mut d = Driver::new(panel_128x160());
    let plan = d.initialize();
    assert_eq!(&plan[..4], &reset_pulse()[..]);
}

#[test]
fn set_orientation_issues_madctl() {
    let mut d = ready_driver(panel_128x160());
    let plan = d
        .set_orientation(Orientation::Landscape)
        .expect("initialized");
    assert_eq!(plan, cmd(0x36, &[0x60]));
    let plan = d
        .set_orientation(Orientation::PortraitSwapped)
        .expect("initialized");
    assert_eq!(plan, cmd(0x36, &[0xC0]));
}

#[test]
fn set_orientation_keeps_bgr_order() {
    let mut d = ready_driver(Config::new(128, 160, false, false));
    let plan = d
        .set_orientation(Orientation::LandscapeSwapped)
        .expect("initialized");
    assert_eq!(plan, cmd(0x36, &[0xA8]));
}

#[test]
fn clear_fills_full_panel() {
    let d = ready_driver(Config::new(2, 3, true, false));
    let plan = d.clear(0x1234).expect("zero offset");
    let mut expected = window(0, 0, 1, 2);
    let mut bytes = Vec::new();
    for _ in 0..6 {
        bytes.push(0x12);
        bytes.push(0x34);
    }
    expected.extend(pixel_stream(&bytes));
    assert_eq!(plan, expected);
}

#[test]
fn clear_with_offset_out_of_bounds_is_refused() {
    let mut d = ready_driver(Config::new(4, 4, true, false));
    d.set_offset(1, 0);
    assert_eq!(d.clear(0x0000), Err(DriverError::BoundsError));
}

#[test]
fn set_offset_works_in_any_state_without_traffic() {
    let mut d = Driver::new(panel_128x160());
    d.set_offset(5, 6);
    let _ = d.initialize();
    let plan = d.set_window(1, 2, 3, 4).expect("window fits");
    assert_eq!(plan, window(6, 8, 8, 10));
}

#[test]
fn set_window_out_of_bounds_is_refused() {
    let d = ready_driver(panel_128x160());
    assert_eq!(d.set_window(0, 0, 128, 10), Err(DriverError::BoundsError));
    assert_eq!(d.set_window(0, 0, 10, 160), Err(DriverError::BoundsError));
    assert!(d.set_window(0, 0, 127, 159).is_ok());
}
