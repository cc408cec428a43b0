use mythic_os::interrupts::{
    acknowledge, handle_key, init_idt, keyboard_interrupt, timer_interrupt, EoiTarget,
    HandlerKind, InterruptIndex, Key, KeyboardDecoder,
};
use mythic_os::vga_buffer::{Writer, BUFFER_WIDTH};
use mythic_os::command::start_command;

fn cell_char(w: &Writer, row: usize, col: usize) -> u8 {
    w.buffer[row * BUFFER_WIDTH + col].ascii_char
}

fn row_text(w: &Writer, row: usize, len: usize) -> Vec<u8> {
    let mut out = Vec::new();
    for col in 0..len {
        out.push(cell_char(w, row, col));
    }
    out
}

#[test]
fn interrupt_indices_are_remapped_above_exceptions() {
    assert_eq!(InterruptIndex::Timer.as_u8(), 32);
    assert_eq!(InterruptIndex::Keyboard.as_u8(), 33);
    assert_eq!(InterruptIndex::Timer.as_usize(), 32);
    assert_eq!(InterruptIndex::Keyboard.as_usize(), 33);
}

#[test]
fn dispatch_table_populates_exactly_five_vectors() {
    let idt = init_idt(0);
    assert_eq!(idt.entries.len(), 256);
    for (i, entry) in idt.entries.iter().enumerate() {
        match i {
            3 => {
                let e = entry.unwrap();
                assert_eq!(e.handler, HandlerKind::Breakpoint);
                assert_eq!(e.stack_index, None);
            }
            8 => {
                let e = entry.unwrap();
                assert_eq!(e.handler, HandlerKind::DoubleFault);
                assert_eq!(e.stack_index, Some(0));
            }
            14 => {
                let e = entry.unwrap();
                assert_eq!(e.handler, HandlerKind::PageFault);
                assert_eq!(e.stack_index, None);
            }
            32 => assert_eq!(entry.unwrap().handler, HandlerKind::Timer),
            33 => assert_eq!(entry.unwrap().handler, HandlerKind::Keyboard),
            _ => assert!(entry.is_none(), "vector {} unexpectedly populated", i),
        }
    }
}

#[test]
fn acknowledgment_targets_follow_the_chain() {
    assert_eq!(acknowledge(3), EoiTarget::NotOwned);
    assert_eq!(acknowledge(31), EoiTarget::NotOwned);
    assert_eq!(acknowledge(32), EoiTarget::Primary);
    assert_eq!(acknowledge(33), EoiTarget::Primary);
    assert_eq!(acknowledge(39), EoiTarget::Primary);
    assert_eq!(acknowledge(40), EoiTarget::Both);
    assert_eq!(acknowledge(47), EoiTarget::Both);
    assert_eq!(acknowledge(48), EoiTarget::NotOwned);
}

#[test]
fn timer_interrupt_ticks_blink_clock_and_names_its_vector() {
    let mut w = Writer::new();
    let ack = timer_interrupt(&mut w);
    assert_eq!(ack, 32);
    assert_eq!(w.line_interval, 1);
}

#[test]
fn typed_hello_line_runs_greeting_end_to_end() {
    let mut w = Writer::new();
    w.write_string(b"Hello World\n");
    start_command(&mut w);
    for c in ['h', 'e', 'l', 'l', 'o'] {
        let shutdown = handle_key(&mut w, Key::Unicode(c));
        assert!(!shutdown);
    }
    assert_eq!(row_text(&w, 24, 7), b"> hello".to_vec());
    let shutdown = handle_key(&mut w, Key::Unicode('\n'));
    assert!(!shutdown);
    assert_eq!(row_text(&w, 22, 7), b"> hello".to_vec());
    assert_eq!(row_text(&w, 23, 19), b"Hello, how are you?".to_vec());
    assert_eq!(row_text(&w, 24, 2), b"> ".to_vec());
}

#[test]
fn typed_unknown_line_reports_error_end_to_end() {
    let mut w = Writer::new();
    start_command(&mut w);
    for c in ['z', 'z'] {
        handle_key(&mut w, Key::Unicode(c));
    }
    handle_key(&mut w, Key::Unicode('\n'));
    let expected = b"ERROR: dont exist the command with name 'zz'".to_vec();
    assert_eq!(row_text(&w, 23, expected.len()), expected);
    assert_eq!(row_text(&w, 24, 2), b"> ".to_vec());
}

#[test]
fn typed_exit_line_signals_shutdown() {
    let mut w = Writer::new();
    start_command(&mut w);
    for c in ['e', 'x', 'i', 't'] {
        assert!(!handle_key(&mut w, Key::Unicode(c)));
    }
    assert!(handle_key(&mut w, Key::Unicode('\n')));
}

#[test]
fn backspace_key_erases_one_character() {
    let mut w = Writer::new();
    start_command(&mut w);
    handle_key(&mut w, Key::Unicode('a'));
    assert_eq!(w.column_position, 3);
    handle_key(&mut w, Key::Unicode('\u{8}'));
    assert_eq!(w.column_position, 2);
}

#[test]
fn raw_keys_are_ignored() {
    let mut w = Writer::new();
    start_command(&mut w);
    let before = row_text(&w, 24, 80);
    assert!(!handle_key(&mut w, Key::Raw));
    assert_eq!(w.column_position, 2);
    assert_eq!(row_text(&w, 24, 80), before);
}

#[test]
fn scancodes_drive_the_console_through_the_decoder() {
    let mut w = Writer::new();
    let mut decoder = KeyboardDecoder::new();
    start_command(&mut w);
    // Set-1 make codes for h, e, l, l, o, Enter.
    for code in [0x23u8, 0x12, 0x26, 0x26, 0x18] {
        let (shutdown, ack) = keyboard_interrupt(&mut w, &mut decoder, code);
        assert!(!shutdown);
        assert_eq!(ack, 33);
    }
    assert_eq!(row_text(&w, 24, 7), b"> hello".to_vec());
    let (shutdown, ack) = keyboard_interrupt(&mut w, &mut decoder, 0x1c);
    assert!(!shutdown);
    assert_eq!(ack, 33);
    assert_eq!(row_text(&w, 23, 19), b"Hello, how are you?".to_vec());
    assert_eq!(row_text(&w, 24, 2), b"> ".to_vec());
}

#[test]
fn partial_scancode_sequences_leave_console_untouched() {
    let mut w = Writer::new();
    let mut decoder = KeyboardDecoder::new();
    start_command(&mut w);
    let before = row_text(&w, 24, 80);
    // 0xe0 opens an extended sequence and completes no key by itself.
    let (shutdown, ack) = keyboard_interrupt(&mut w, &mut decoder, 0xe0);
    assert!(!shutdown);
    assert_eq!(ack, 33);
    assert_eq!(row_text(&w, 24, 80), before);
}
