//! The interrupt side of the console: the model of the interrupt dispatch
//! table, the chained-controller acknowledgment rule, and the work the two
//! hardware IRQ handlers perform against the console writer.
//!
//! Loading the table into the CPU, reading the keyboard data port and
//! signalling the controllers are privileged operations left to the
//! surrounding program; here each handler's work is a verified transition
//! that also names the vector the caller must acknowledge exactly once.

use vstd::prelude::*;

use crate::command::{check_command, spec_check_command};
use crate::vga_buffer::{
    spec_delete_last_char, spec_update_line, spec_write_byte, Writer, WriterView,
};

verus! {

/// Vector base of the first controller: the two hardware IRQ lines are
/// remapped above the 32 reserved CPU-exception vectors.
pub const PIC_1_OFFSET: u8 = 32;

/// Vector base of the second, chained controller.
pub const PIC_2_OFFSET: u8 = PIC_1_OFFSET + 8;

/// CPU exception vector of the breakpoint trap.
pub const BREAKPOINT_VECTOR: u8 = 3;

/// CPU exception vector of the double fault.
pub const DOUBLE_FAULT_VECTOR: u8 = 8;

/// CPU exception vector of the page fault.
pub const PAGE_FAULT_VECTOR: u8 = 14;

/// The two hardware IRQ vectors this subsystem populates.
#[derive(Clone, Copy, Debug, PartialEq, Eq, Structural)]
pub enum InterruptIndex {
    Timer,
    Keyboard,
}

impl InterruptIndex {
    /// The vector number of this IRQ.
    pub open spec fn spec_u8(self) -> u8 {
        match self {
            InterruptIndex::Timer => PIC_1_OFFSET,
            InterruptIndex::Keyboard => (PIC_1_OFFSET + 1) as u8,
        }
    }

    pub fn as_u8(self) -> (n: u8)
        ensures
            n == self.spec_u8(),
    {
        match self {
            InterruptIndex::Timer => PIC_1_OFFSET,
            InterruptIndex::Keyboard => PIC_1_OFFSET + 1,
        }
    }

    pub fn as_usize(self) -> (n: usize)
        ensures
            n == self.spec_u8() as usize,
    {
        self.as_u8() as usize
    }
}

/// The handlers this subsystem registers.
#[derive(Clone, Copy, Debug, PartialEq, Eq, Structural)]
pub enum HandlerKind {
    /// Diagnostic print, resumes.
    Breakpoint,
    /// Always fatal; runs on a dedicated pre-reserved stack.
    DoubleFault,
    /// Diagnostic print of the faulting address and flags, then halts.
    PageFault,
    /// Advances the console blink clock.
    Timer,
    /// Feeds one scancode byte to the decoder and the console.
    Keyboard,
}

/// One populated entry of the dispatch table: the handler and, for the
/// double fault, the index of its dedicated stack.
#[derive(Clone, Copy, Debug, PartialEq, Eq)]
pub struct IdtEntry {
    pub handler: HandlerKind,
    pub stack_index: Option<u16>,
}

/// The model of the CPU's interrupt dispatch table: one slot per vector
/// number, only a handful populated. Built once at startup; the surrounding
/// program loads it into the CPU exactly once.
pub struct InterruptTable {
    pub entries: Vec<Option<IdtEntry>>,
}

/// Build the dispatch table: breakpoint, double fault (on the dedicated
/// stack the caller reserved), page fault, and the two remapped hardware
/// IRQs; every other vector stays empty.
pub fn init_idt(double_fault_stack_index: u16) -> (idt: InterruptTable)
    ensures
        idt.entries@.len() == 256,
        idt.entries@[BREAKPOINT_VECTOR as int] == (Some(
            IdtEntry { handler: HandlerKind::Breakpoint, stack_index: None },
        )),
        idt.entries@[DOUBLE_FAULT_VECTOR as int] == (Some(
            IdtEntry {
                handler: HandlerKind::DoubleFault,
                stack_index: Some(double_fault_stack_index),
            },
        )),
        idt.entries@[PAGE_FAULT_VECTOR as int] == (Some(
            IdtEntry { handler: HandlerKind::PageFault, stack_index: None },
        )),
        idt.entries@[InterruptIndex::Timer.spec_u8() as int] == (Some(
            IdtEntry { handler: HandlerKind::Timer, stack_index: None },
        )),
        idt.entries@[InterruptIndex::Keyboard.spec_u8() as int] == (Some(
            IdtEntry { handler: HandlerKind::Keyboard, stack_index: None },
        )),
        forall|i: int|
            0 <= i < 256 && i != BREAKPOINT_VECTOR as int && i != DOUBLE_FAULT_VECTOR as int && i
                != PAGE_FAULT_VECTOR as int && i != InterruptIndex::Timer.spec_u8() as int && i
                != InterruptIndex::Keyboard.spec_u8() as int ==> idt.entries@[i] is None,
{
    let mut entries: Vec<Option<IdtEntry>> = Vec::new();
    let mut i: usize = 0;
    while i < 256
        invariant
            i <= 256,
            entries@.len() == i,
            forall|j: int| 0 <= j < i ==> entries@[j] is None,
        decreases 256 - i,
    {
        entries.push(None);
        i = i + 1;
    }
    entries[BREAKPOINT_VECTOR as usize] = Some(
        IdtEntry { handler: HandlerKind::Breakpoint, stack_index: None },
    );
    entries[DOUBLE_FAULT_VECTOR as usize] = Some(
        IdtEntry { handler: HandlerKind::DoubleFault, stack_index: Some(double_fault_stack_index) },
    );
    entries[PAGE_FAULT_VECTOR as usize] = Some(
        IdtEntry { handler: HandlerKind::PageFault, stack_index: None },
    );
    let timer: usize = InterruptIndex::Timer.as_usize();
    entries[timer] = Some(IdtEntry { handler: HandlerKind::Timer, stack_index: None });
    let keyboard: usize = InterruptIndex::Keyboard.as_usize();
    entries[keyboard] = Some(IdtEntry { handler: HandlerKind::Keyboard, stack_index: None });
    InterruptTable { entries }
}

/// Which of the two chained controllers must receive the end-of-interrupt
/// signal for a vector.
#[derive(Clone, Copy, Debug, PartialEq, Eq, Structural)]
pub enum EoiTarget {
    /// The vector belongs to neither controller; no signal is owed.
    NotOwned,
    /// Only the first controller is signalled.
    Primary,
    /// The vector sits on the second controller, which is chained through
    /// the first: both are signalled.
    Both,
}

/// Identify which chained controller owns a vector and therefore which
/// end-of-interrupt signals its handler owes, exactly once, on exit.
pub fn acknowledge(vector: u8) -> (t: EoiTarget)
    ensures
        PIC_1_OFFSET <= vector < PIC_2_OFFSET ==> t == EoiTarget::Primary,
        PIC_2_OFFSET <= vector < PIC_2_OFFSET + 8 ==> t == EoiTarget::Both,
        vector < PIC_1_OFFSET || vector >= PIC_2_OFFSET + 8 ==> t == EoiTarget::NotOwned,
{
    if PIC_1_OFFSET <= vector && vector < PIC_2_OFFSET {
        EoiTarget::Primary
    } else if PIC_2_OFFSET <= vector && vector < PIC_2_OFFSET + 8 {
        EoiTarget::Both
    } else {
        EoiTarget::NotOwned
    }
}

/// A decoded key as the console consumes it: a Unicode character, or a raw
/// non-character key, which the console ignores.
#[derive(Clone, Copy, Debug, PartialEq, Eq, Structural)]
pub enum Key {
    Unicode(char),
    Raw,
}

/// The byte a printable character puts on the grid: printable low ASCII
/// passes through, anything else becomes the placeholder glyph.
pub open spec fn printable_byte(c: char) -> u8 {
    if 0x20 <= (c as u32) && (c as u32) <= 0x7e {
        (c as u32) as u8
    } else {
        0xfe
    }
}

/// What one decoded key does to the console: Enter captures and dispatches
/// the typed line, Backspace erases one character, any other character is
/// written, and raw keys are ignored.
pub open spec fn spec_handle_key(v: WriterView, key: Key) -> (WriterView, bool) {
    match key {
        Key::Unicode(c) => if c as u32 == 10 {
            spec_check_command(v)
        } else if c as u32 == 8 {
            (spec_delete_last_char(v), false)
        } else {
            (spec_write_byte(v, printable_byte(c)), false)
        },
        Key::Raw => (v, false),
    }
}

/// Apply one decoded key to the console. Returns whether the key triggered
/// the shutdown command.
pub fn handle_key(writer: &mut Writer, key: Key) -> (shutdown: bool)
    requires
        old(writer)@.wf(),
    ensures
        final(writer)@ == spec_handle_key(old(writer)@, key).0,
        final(writer)@.wf(),
        shutdown == spec_handle_key(old(writer)@, key).1,
{
    match key {
        Key::Unicode(c) => {
            let n: u32 = c as u32;
            if n == 10 {
                check_command(writer)
            } else if n == 8 {
                writer.delete_last_char();
                false
            } else {
                let b: u8 = if 0x20 <= n && n <= 0x7e {
                    n as u8
                } else {
                    0xfe
                };
                writer.write_byte(b);
                false
            }
        },
        Key::Raw => false,
    }
}

/// One timer IRQ: advance the console blink clock. The returned vector is
/// the one the caller owes exactly one acknowledgment for.
pub fn timer_interrupt(writer: &mut Writer) -> (ack: u8)
    requires
        old(writer)@.wf(),
    ensures
        final(writer)@ == spec_update_line(old(writer)@),
        final(writer)@.wf(),
        ack == InterruptIndex::Timer.spec_u8(),
{
    writer.update_line();
    InterruptIndex::Timer.as_u8()
}

#[verifier::external_type_specification]
#[verifier::external_body]
pub struct ExKeyEvent(pc_keyboard::KeyEvent);

/// The keyboard decoder: accumulates partial multi-byte scancode sequences
/// and resolves them against the US 104-key layout. The outside decoder's
/// generic type cannot be declared to the verifier (its parameters carry
/// outside-trait bounds), so the whole struct is held opaque; nothing is
/// assumed about which keys come out, and everything downstream is verified
/// for every possible key.
#[verifier::external_body]
pub struct KeyboardDecoder {
    inner: pc_keyboard::Keyboard<pc_keyboard::layouts::Us104Key, pc_keyboard::ScancodeSet1>,
}

impl KeyboardDecoder {
    /// Relies on pc_keyboard::Keyboard::new: a fresh decoder for scancode
    /// set 1 and the US 104-key layout, with control characters left to the
    /// consumer.
    #[verifier::external_body]
    pub fn new() -> KeyboardDecoder {
        KeyboardDecoder {
            inner: pc_keyboard::Keyboard::new(
                pc_keyboard::ScancodeSet1::new(),
                pc_keyboard::layouts::Us104Key,
                pc_keyboard::HandleControl::Ignore,
            ),
        }
    }

    /// Relies on pc_keyboard::Keyboard::add_byte: advance the scancode
    /// state machine by one byte; a completed sequence yields a key event,
    /// a partial sequence or a protocol error yields none.
    #[verifier::external_body]
    pub(crate) fn add_byte(&mut self, scancode: u8) -> Option<pc_keyboard::KeyEvent> {
        match self.inner.add_byte(scancode) {
            Ok(event) => event,
            Err(_) => None,
        }
    }

    /// Relies on pc_keyboard::Keyboard::process_keyevent: resolve a key
    /// event against the layout and modifier state, yielding at most one
    /// decoded key.
    #[verifier::external_body]
    pub(crate) fn process_keyevent(&mut self, event: pc_keyboard::KeyEvent) -> Option<Key> {
        match self.inner.process_keyevent(event) {
            Some(pc_keyboard::DecodedKey::Unicode(c)) => Some(Key::Unicode(c)),
            Some(pc_keyboard::DecodedKey::RawKey(_)) => Some(Key::Raw),
            None => None,
        }
    }
}

/// One keyboard IRQ: feed the scancode byte the caller read from the data
/// port to the decoder and apply whatever key comes out — whichever key
/// that is, the console moves by that key's transition, and a byte that
/// completes no key leaves it untouched. The returned vector is the one the
/// caller owes exactly one acknowledgment for.
pub fn keyboard_interrupt(writer: &mut Writer, decoder: &mut KeyboardDecoder, scancode: u8) -> (r:
    (bool, u8))
    requires
        old(writer)@.wf(),
    ensures
        final(writer)@.wf(),
        r.1 == InterruptIndex::Keyboard.spec_u8(),
        (final(writer)@ == old(writer)@ && r.0 == false) || (exists|key: Key|
            final(writer)@ == #[trigger] spec_handle_key(old(writer)@, key).0 && r.0
                == spec_handle_key(old(writer)@, key).1),
{
    let mut shutdown = false;
    let mut handled = false;
    let ghost v0 = writer@;
    let ghost mut used_key = Key::Raw;
    if let Some(event) = decoder.add_byte(scancode) {
        if let Some(key) = decoder.process_keyevent(event) {
            shutdown = handle_key(writer, key);
            handled = true;
            proof {
                used_key = key;
            }
        }
    }
    proof {
        if handled {
            assert(writer@ == spec_handle_key(v0, used_key).0);
        }
    }
    (shutdown, InterruptIndex::Keyboard.as_u8())
}

} // verus!
