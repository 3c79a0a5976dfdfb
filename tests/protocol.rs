use launchpad::discovery::{find_port, guess_ports, name_contains, MINI_NAME, MK2_NAME};
use launchpad::events::{decode_message, EventQueue, MidiEvent, MidiMessage};
use launchpad::frames::{parse_short, parse_sysex, sysex_frame};
use launchpad::mk1::double_buffer_flags;
use launchpad::mk2::{SCROLL_FASTER, SCROLL_SLOWER};
use launchpad::{
    assert_color, assert_column, assert_position, assert_row, valid_color, valid_column,
    valid_led_position, valid_row, Brightness, ColorColumn, ColorLed, ColorRow, GridMappingMode,
    Launchpad, LaunchpadError, LaunchpadMk2,
};

fn in_documented_bands(p: u8) -> bool {
    (11..=89).contains(&p) && p % 10 != 0 || (104..=111).contains(&p)
}

#[test]
fn led_positions_match_documented_bands() {
    for p in 0..=255u8 {
        assert_eq!(valid_led_position(p), in_documented_bands(p), "position {}", p);
    }
    for p in [11u8, 19, 21, 29, 55, 81, 89, 104, 111] {
        assert!(valid_led_position(p));
        assert_eq!(assert_position(p), Ok(()));
    }
    for p in [0u8, 1, 5, 10, 20, 30, 90, 100, 103, 112, 200, 255] {
        assert!(!valid_led_position(p));
        assert_eq!(assert_position(p), Err(LaunchpadError::BadPosition));
    }
}

#[test]
fn colors_up_to_127_are_valid() {
    for c in 0..=255u8 {
        assert_eq!(valid_color(c), c <= 127);
    }
    assert_eq!(assert_color(127), Ok(()));
    assert_eq!(assert_color(128), Err(LaunchpadError::BadColor));
}

#[test]
fn rows_and_columns_up_to_8_are_valid() {
    assert!(valid_column(0) && valid_column(8) && !valid_column(9));
    assert!(valid_row(0) && valid_row(8) && !valid_row(9));
    assert_eq!(assert_column(8), Ok(()));
    assert_eq!(assert_column(9), Err(LaunchpadError::BadColumn));
    assert_eq!(assert_row(8), Ok(()));
    assert_eq!(assert_row(9), Err(LaunchpadError::BadRow));
}

#[test]
fn light_leds_with_81_entries_sends_nothing() {
    let mut lp = LaunchpadMk2::new();
    let led = ColorLed { position: 11, color: 1 };
    let leds: Vec<&ColorLed> = vec![&led; 81];
    assert_eq!(lp.light_leds(&leds), Err(LaunchpadError::BadLength));
    assert!(lp.light_leds(&leds).unwrap_err().is_invalid_argument());
    assert_eq!(lp.session.pending_frames(), 0);
}

#[test]
fn light_leds_with_80_entries_sends_80_frames() {
    let mut lp = LaunchpadMk2::new();
    let led = ColorLed { position: 11, color: 1 };
    let leds: Vec<&ColorLed> = vec![&led; 80];
    assert_eq!(lp.light_leds(&leds), Ok(()));
    assert_eq!(lp.session.pending_frames(), 80);
}

#[test]
fn one_bad_led_aborts_the_whole_batch() {
    let mut lp = LaunchpadMk2::new();
    let a = ColorLed { position: 11, color: 41 };
    let b = ColorLed { position: 20, color: 41 };
    let c = ColorLed { position: 22, color: 200 };
    assert_eq!(lp.light_leds(&[&a, &b, &c]), Err(LaunchpadError::BadPosition));
    assert_eq!(lp.light_leds(&[&a, &c, &b]), Err(LaunchpadError::BadColor));
    assert_eq!(lp.session.pending_frames(), 0);
}

#[test]
fn light_leds_frames_in_order() {
    let mut lp = LaunchpadMk2::new();
    let a = ColorLed { position: 11, color: 41 };
    let b = ColorLed { position: 104, color: 4 };
    assert_eq!(lp.light_leds(&[&a, &b]), Ok(()));
    let frames = lp.session.take_frames();
    assert_eq!(
        frames,
        vec![
            vec![0xF0, 0x00, 0x20, 0x29, 0x02, 0x18, 0x0A, 11, 41, 0xF7],
            vec![0xF0, 0x00, 0x20, 0x29, 0x02, 0x18, 0x0A, 104, 4, 0xF7],
        ]
    );
    assert_eq!(lp.session.pending_frames(), 0);
}

#[test]
fn light_led_single_frame() {
    let mut lp = LaunchpadMk2::new();
    assert_eq!(lp.light_led(&ColorLed { position: 55, color: 88 }), Ok(()));
    assert_eq!(lp.light_led(&ColorLed { position: 50, color: 88 }), Err(LaunchpadError::BadPosition));
    assert_eq!(
        lp.session.take_frames(),
        vec![vec![0xF0, 0x00, 0x20, 0x29, 0x02, 0x18, 0x0A, 55, 88, 0xF7]]
    );
}

#[test]
fn columns_and_rows() {
    let mut lp = LaunchpadMk2::new();
    assert_eq!(lp.light_column(&ColorColumn { column: 8, color: 5 }), Ok(()));
    assert_eq!(lp.light_row(&ColorRow { row: 0, color: 0 }), Ok(()));
    assert_eq!(lp.light_column(&ColorColumn { column: 9, color: 5 }), Err(LaunchpadError::BadColumn));
    assert_eq!(lp.light_row(&ColorRow { row: 9, color: 0 }), Err(LaunchpadError::BadRow));
    assert_eq!(lp.light_row(&ColorRow { row: 1, color: 128 }), Err(LaunchpadError::BadColor));
    let col = ColorColumn { column: 1, color: 1 };
    let cols: Vec<&ColorColumn> = vec![&col; 10];
    assert_eq!(lp.light_columns(&cols), Err(LaunchpadError::BadLength));
    let row = ColorRow { row: 1, color: 1 };
    let rows: Vec<&ColorRow> = vec![&row; 10];
    assert_eq!(lp.light_rows(&rows), Err(LaunchpadError::BadLength));
    assert_eq!(lp.light_rows(&rows[..9]), Ok(()));
    let frames = lp.session.take_frames();
    assert_eq!(frames.len(), 11);
    assert_eq!(frames[0], vec![0xF0, 0x00, 0x20, 0x29, 0x02, 0x18, 0x0C, 8, 5, 0xF7]);
    assert_eq!(frames[1], vec![0xF0, 0x00, 0x20, 0x29, 0x02, 0x18, 0x0D, 0, 0, 0xF7]);
    assert_eq!(frames[2], vec![0xF0, 0x00, 0x20, 0x29, 0x02, 0x18, 0x0D, 1, 1, 0xF7]);
}

#[test]
fn scroll_text_frame() {
    let mut lp = LaunchpadMk2::new();
    assert_eq!(lp.scroll_text(5, false, "AB"), Ok(()));
    assert_eq!(
        lp.session.take_frames(),
        vec![vec![0xF0, 0x00, 0x20, 0x29, 0x02, 0x18, 0x14, 0x05, 0x00, 0x41, 0x42, 0xF7]]
    );
}

#[test]
fn scroll_text_passes_speed_markers_and_loop_flag() {
    let mut lp = LaunchpadMk2::new();
    let text = format!("{}A{}B", SCROLL_SLOWER, SCROLL_FASTER);
    assert_eq!(lp.scroll_text(27, true, &text), Ok(()));
    assert_eq!(lp.scroll_text(128, false, ""), Err(LaunchpadError::BadColor));
    assert_eq!(lp.scroll_text(27, false, ""), Ok(()));
    assert_eq!(
        lp.session.take_frames(),
        vec![
            vec![0xF0, 0x00, 0x20, 0x29, 0x02, 0x18, 0x14, 27, 0x01, 0x02, 0x41, 0x06, 0x42, 0xF7],
            vec![0xF0, 0x00, 0x20, 0x29, 0x02, 0x18, 0x14, 27, 0x00, 0xF7],
        ]
    );
}

#[test]
fn mk2_light_all_frame() {
    let mut lp = LaunchpadMk2::new();
    assert_eq!(lp.light_all(0), Ok(()));
    assert_eq!(lp.light_all(128), Err(LaunchpadError::BadColor));
    assert_eq!(lp.session.take_frames(), vec![vec![0xF0, 0x00, 0x20, 0x29, 0x02, 0x18, 0x0E, 0x00, 0xF7]]);
}

#[test]
fn flash_and_pulse_frames() {
    let mut lp = LaunchpadMk2::new();
    let led = ColorLed { position: 33, color: 7 };
    assert_eq!(lp.flash_single(&led), Ok(()));
    assert_eq!(lp.pulse_single(&led), Ok(()));
    assert_eq!(lp.pulse_single(&ColorLed { position: 0, color: 7 }), Err(LaunchpadError::BadPosition));
    assert_eq!(lp.flash_single(&ColorLed { position: 33, color: 255 }), Err(LaunchpadError::BadColor));
    assert_eq!(lp.session.take_frames(), vec![vec![0x91, 33, 7], vec![0x92, 33, 7]]);
}

#[test]
fn grid_mapping_mode_frame() {
    let mut lp = Launchpad::new();
    lp.set_grid_mapping_mode(GridMappingMode::DrumRackLayout);
    lp.set_grid_mapping_mode(GridMappingMode::XYLayout);
    assert_eq!(lp.session.take_frames(), vec![vec![0xB0, 0x00, 0x02], vec![0xB0, 0x00, 0x01]]);
}

#[test]
fn mk1_reset_and_brightness_frames() {
    let mut lp = Launchpad::new();
    lp.reset();
    lp.light_all(Brightness::Low);
    lp.light_all(Brightness::Medium);
    lp.light_all(Brightness::High);
    assert_eq!(
        lp.session.take_frames(),
        vec![vec![0xB0, 0, 0], vec![0xB0, 0, 125], vec![0xB0, 0, 126], vec![0xB0, 0, 127]]
    );
}

#[test]
fn double_buffer_flag_bits() {
    assert_eq!(double_buffer_flags(false, false, false, false), 0x20);
    assert_eq!(double_buffer_flags(true, false, false, false), 0x21);
    assert_eq!(double_buffer_flags(false, true, false, false), 0x24);
    assert_eq!(double_buffer_flags(false, false, true, false), 0x28);
    assert_eq!(double_buffer_flags(false, false, false, true), 0x30);
    assert_eq!(double_buffer_flags(true, true, true, true), 0x3D);
    let mut lp = Launchpad::new();
    lp.ctrl_double_buffer_display_update_flash_copy(true, false, true, false);
    assert_eq!(lp.session.take_frames(), vec![vec![0xB0, 0x00, 0x29]]);
}

#[test]
fn light_top_bounds() {
    let mut lp = Launchpad::new();
    assert_eq!(lp.light_top(7, 127), Ok(()));
    assert_eq!(lp.light_top(8, 0), Err(LaunchpadError::BadColumn));
    assert_eq!(lp.light_top(0, 128), Err(LaunchpadError::BadColor));
    assert_eq!(lp.session.take_frames(), vec![vec![0xB0, 0x6F, 127]]);
}

#[test]
fn light_grid_with_63_cells_sends_nothing() {
    let mut lp = Launchpad::new();
    let grid = vec![0u8; 63];
    let edge = [0u8; 8];
    assert_eq!(lp.light_grid(&grid, &edge, &edge), Err(LaunchpadError::BadLength));
    assert_eq!(lp.light_grid(&[0u8; 64], &edge, &[0u8; 7]), Err(LaunchpadError::BadLength));
    assert_eq!(lp.session.pending_frames(), 0);
}

#[test]
fn light_grid_frames_in_order() {
    let mut lp = Launchpad::new();
    let grid: Vec<u8> = (0..64).collect();
    let top: Vec<u8> = (64..72).collect();
    let right: Vec<u8> = (72..80).collect();
    assert_eq!(lp.light_grid(&grid, &top, &right), Ok(()));
    let frames = lp.session.take_frames();
    assert_eq!(frames.len(), 41);
    assert_eq!(frames[0], vec![0xB0, 0x70, 0]);
    for i in 0..40u8 {
        assert_eq!(frames[1 + i as usize], vec![0x92, 2 * i, 2 * i + 1]);
    }
}

#[test]
fn events_come_out_in_arrival_order() {
    let mut lp = LaunchpadMk2::new();
    lp.session.receive(10, &[0x90, 11, 127]);
    lp.session.receive(20, &[0x90, 12, 0]);
    lp.session.receive(30, &[0xB0, 104, 127]);
    let events = lp.poll().unwrap();
    assert_eq!(
        events,
        vec![
            MidiEvent { timestamp: 10, message: MidiMessage { status: 0x90, data1: 11, data2: 127 } },
            MidiEvent { timestamp: 20, message: MidiMessage { status: 0x90, data1: 12, data2: 0 } },
            MidiEvent { timestamp: 30, message: MidiMessage { status: 0xB0, data1: 104, data2: 127 } },
        ]
    );
    assert!(lp.poll().is_none());
}

#[test]
fn short_messages_are_dropped() {
    let mut q = EventQueue::new();
    q.receive(5, &[0x90, 11]);
    q.receive(6, &[]);
    q.receive(7, &[0xF0, 1, 2, 3]);
    assert_eq!(q.len(), 0);
    assert!(q.poll().is_none());
    q.receive(8, &[0x90, 11, 1]);
    q.receive(9, &[0x90, 11]);
    let events = q.poll().unwrap();
    assert_eq!(events.len(), 1);
    assert_eq!(events[0].timestamp, 8);
}

#[test]
fn timestamps_keep_low_32_bits() {
    let mut q = EventQueue::new();
    q.receive(0x1_0000_0005, &[1, 2, 3]);
    assert_eq!(q.poll().unwrap()[0].timestamp, 5);
}

#[test]
fn message_round_trip() {
    let m = MidiMessage { status: 0x90, data1: 45, data2: 127 };
    assert_eq!(m.to_bytes(), vec![0x90, 45, 127]);
    assert_eq!(decode_message(&m.to_bytes()), Some(m));
    assert_eq!(parse_short(&[0x91, 33, 7]), Some(MidiMessage { status: 0x91, data1: 33, data2: 7 }));
    assert_eq!(decode_message(&[1, 2]), None);
}

#[test]
fn sysex_round_trip() {
    let frame = sysex_frame(0x0A, &[55, 88]);
    assert_eq!(frame, vec![0xF0, 0x00, 0x20, 0x29, 0x02, 0x18, 0x0A, 55, 88, 0xF7]);
    assert_eq!(parse_sysex(&frame), Some((0x0A, vec![55, 88])));
    assert_eq!(parse_sysex(&sysex_frame(0x14, &[])), Some((0x14, vec![])));
    assert_eq!(parse_sysex(&[0xF0, 0x00, 0x20, 0x29, 0x02, 0x19, 0x0A, 0xF7]), None);
    assert_eq!(parse_sysex(&[0xF0, 0x00, 0x20, 0x29, 0x02, 0x18, 0x0A]), None);
}

#[test]
fn port_names_match_by_substring() {
    assert!(name_contains("Launchpad MK2 MIDI 1", MK2_NAME));
    assert!(!name_contains("launchpad mk2", MK2_NAME));
    assert!(name_contains("anything", ""));
    assert!(!name_contains("", "x"));
    let names = vec!["Midi Through".to_string(), "Launchpad Mini 1".to_string(), "Launchpad Mini 2".to_string()];
    assert_eq!(find_port(&names, MINI_NAME), Some(1));
    assert_eq!(find_port(&names, MK2_NAME), None);
}

#[test]
fn guess_ports_reports_missing_side() {
    let inputs = vec!["Launchpad MK2".to_string()];
    let outputs = vec!["Other".to_string(), "Launchpad MK2 out".to_string()];
    assert_eq!(guess_ports(&inputs, &outputs, MK2_NAME), Ok((0, 1)));
    assert_eq!(guess_ports(&inputs, &vec![], MK2_NAME), Err(LaunchpadError::OutputNotFound));
    assert_eq!(guess_ports(&vec![], &outputs, MK2_NAME), Err(LaunchpadError::InputNotFound));
    assert!(!LaunchpadError::InputNotFound.is_invalid_argument());
}
