//! The command registry and dispatcher: a fixed ordered table of named
//! zero-argument actions, a linear first-match-wins scan, and the capture of
//! the typed line from the bottom row of the console.
//!
//! Actions act on the console writer; the shutdown action only signals — the
//! surrounding program performs the platform exit.

use vstd::prelude::*;
use vstd::slice::slice_to_vec;
use vstd::string::StringSliceAdditionalSpecFns;

use crate::vga_buffer::{
    lemma_write_string_append, spec_new_line, spec_write_string, Writer, WriterView,
};

verus! {

/// What a registered command does when invoked.
#[derive(Clone, Copy, PartialEq, Eq, Structural, Debug)]
pub enum CommandAction {
    /// Print a fixed informational line.
    Test,
    /// Print a fixed greeting line.
    Hello,
    /// Signal platform shutdown; prints nothing.
    Exit,
}

/// One entry of the command table: a name and the action it invokes.
#[derive(Debug)]
pub struct Command {
    pub name: Vec<u8>,
    pub action: CommandAction,
}

/// The console output an action produces when invoked.
pub open spec fn action_output(a: CommandAction) -> Seq<u8> {
    match a {
        CommandAction::Test => "Simple Test Command\n".spec_bytes(),
        CommandAction::Hello => "Hello, how are you?\n".spec_bytes(),
        CommandAction::Exit => Seq::<u8>::empty(),
    }
}

/// The prompt marker.
pub open spec fn prompt() -> Seq<u8> {
    "> ".spec_bytes()
}

/// The error line printed for an unrecognized command, naming the exact
/// offending text.
pub open spec fn unknown_command_line(name: Seq<u8>) -> Seq<u8> {
    "ERROR: dont exist the command with name '".spec_bytes() + name + "'\n".spec_bytes()
}

/// The fixed command table, in registration order.
pub open spec fn spec_commands() -> Seq<(Seq<u8>, CommandAction)> {
    seq![
        ("test".spec_bytes(), CommandAction::Test),
        ("hello".spec_bytes(), CommandAction::Hello),
        ("exit".spec_bytes(), CommandAction::Exit),
    ]
}

/// Linear scan of a table: the action of the first entry whose name matches,
/// if any. Names are compared case-sensitively; duplicates are allowed and
/// only the first match is ever invoked.
pub open spec fn find_command(table: Seq<(Seq<u8>, CommandAction)>, name: Seq<u8>) -> Option<
    CommandAction,
>
    decreases table.len(),
{
    if table.len() == 0 {
        None
    } else if table[0].0 == name {
        Some(table[0].1)
    } else {
        find_command(table.skip(1), name)
    }
}

/// Law: dispatching the name of a registered entry invokes the action of
/// the first entry bearing that name — later entries, duplicates included,
/// are never reached.
pub proof fn lemma_first_match_wins(table: Seq<(Seq<u8>, CommandAction)>, i: int)
    requires
        0 <= i < table.len(),
        forall|j: int| 0 <= j < i ==> table[j].0 != table[i].0,
    ensures
        find_command(table, table[i].0) == Some(table[i].1),
    decreases i,
{
    if i > 0 {
        assert(table.skip(1)[i - 1] == table[i]);
        assert(forall|j: int| 0 <= j < i - 1 ==> table.skip(1)[j] == table[j + 1]);
        lemma_first_match_wins(table.skip(1), i - 1);
    }
}

/// Dispatching a name: on a match the action's output is written, on no
/// match the error line naming the text is written; either way a fresh
/// prompt follows. The flag says whether the shutdown action was invoked.
pub open spec fn spec_execute(v: WriterView, name: Seq<u8>) -> (WriterView, bool) {
    match find_command(spec_commands(), name) {
        Some(a) => (
            spec_write_string(spec_write_string(v, action_output(a)), prompt()),
            a == CommandAction::Exit,
        ),
        None => (
            spec_write_string(spec_write_string(v, unknown_command_line(name)), prompt()),
            false,
        ),
    }
}

impl Command {
    pub fn new(name: Vec<u8>, action: CommandAction) -> (c: Command)
        ensures
            c.name@ == name@,
            c.action == action,
    {
        Command { name, action }
    }

    /// Invoke this entry's action against the writer; says whether the
    /// action was the shutdown signal.
    pub fn execute(&self, writer: &mut Writer) -> (shutdown: bool)
        requires
            old(writer)@.wf(),
        ensures
            final(writer)@ == spec_write_string(old(writer)@, action_output(self.action)),
            final(writer)@.wf(),
            shutdown == (self.action == CommandAction::Exit),
    {
        match self.action {
            CommandAction::Test => {
                writer.write_string("Simple Test Command\n".as_bytes());
                false
            },
            CommandAction::Hello => {
                writer.write_string("Hello, how are you?\n".as_bytes());
                false
            },
            CommandAction::Exit => true,
        }
    }
}

/// The fixed command table as a value, in registration order.
pub fn commands() -> (t: Vec<Command>)
    ensures
        t@.len() == spec_commands().len(),
        forall|i: int|
            0 <= i < spec_commands().len() ==> t@[i].name@ == spec_commands()[i].0 && t@[i].action
                == spec_commands()[i].1,
{
    let mut t: Vec<Command> = Vec::new();
    t.push(Command::new(slice_to_vec("test".as_bytes()), CommandAction::Test));
    t.push(Command::new(slice_to_vec("hello".as_bytes()), CommandAction::Hello));
    t.push(Command::new(slice_to_vec("exit".as_bytes()), CommandAction::Exit));
    t
}

/// Byte-for-byte equality of two slices.
fn bytes_eq(a: &[u8], b: &[u8]) -> (r: bool)
    ensures
        r == (a@ == b@),
{
    if a.len() != b.len() {
        return false;
    }
    let mut i: usize = 0;
    while i < a.len()
        invariant
            a@.len() == b@.len(),
            i <= a@.len(),
            forall|j: int| 0 <= j < i ==> a@[j] == b@[j],
        decreases a@.len() - i,
    {
        if a[i] != b[i] {
            return false;
        }
        i = i + 1;
    }
    proof {
        assert(a@ =~= b@);
    }
    true
}

/// Dispatch a typed name: scan the fixed table in order, invoke the first
/// entry whose name matches exactly, or print the unknown-command error
/// line; reprint the prompt in both outcomes. Returns whether the shutdown
/// action was invoked.
pub fn execute(writer: &mut Writer, name: &[u8]) -> (shutdown: bool)
    requires
        old(writer)@.wf(),
    ensures
        final(writer)@ == spec_execute(old(writer)@, name@).0,
        final(writer)@.wf(),
        shutdown == spec_execute(old(writer)@, name@).1,
{
    let table: Vec<Command> = commands();
    let mut has_command = false;
    let mut shutdown = false;
    let mut i: usize = 0;
    proof {
        assert(spec_commands().skip(0) =~= spec_commands());
    }
    while i < table.len() && !has_command
        invariant
            old(writer)@.wf(),
            writer@.wf(),
            table@.len() == spec_commands().len(),
            forall|k: int|
                0 <= k < spec_commands().len() ==> table@[k].name@ == spec_commands()[k].0
                    && table@[k].action == spec_commands()[k].1,
            i <= table@.len(),
            !has_command ==> writer == old(writer) && !shutdown && find_command(
                spec_commands(),
                name@,
            ) == find_command(spec_commands().skip(i as int), name@),
            has_command ==> (find_command(spec_commands(), name@) matches Some(a)
                && writer@ == spec_write_string(old(writer)@, action_output(a)) && shutdown == (a
                == CommandAction::Exit)),
        decreases table@.len() - i + (if has_command { 0int } else { 1int }),
    {
        proof {
            assert(spec_commands().skip(i as int)[0] == spec_commands()[i as int]);
            assert(spec_commands().skip(i as int).skip(1) =~= spec_commands().skip(i as int + 1));
        }
        if bytes_eq(table[i].name.as_slice(), name) {
            has_command = true;
            shutdown = table[i].execute(writer);
        } else {
            i = i + 1;
        }
    }
    proof {
        if !has_command {
            assert(spec_commands().skip(3) =~= Seq::<(Seq<u8>, CommandAction)>::empty());
        }
    }
    if !has_command {
        proof {
            let full = unknown_command_line(name@);
            let pre = "ERROR: dont exist the command with name '".spec_bytes();
            let suf = "'\n".spec_bytes();
            lemma_write_string_append(old(writer)@, pre, name@);
            lemma_write_string_append(old(writer)@, pre + name@, suf);
            assert((pre + name@) + suf =~= full);
        }
        writer.write_string("ERROR: dont exist the command with name '".as_bytes());
        writer.write_string(name);
        writer.write_string("'\n".as_bytes());
    }
    writer.write_string("> ".as_bytes());
    shutdown
}

/// The index just past the last byte of `s.take(end)` that is neither a
/// trailing null nor a trailing space.
pub open spec fn spec_strip_end(s: Seq<u8>, end: int) -> int
    decreases end,
{
    if end > 0 && (s[end - 1] == 0 || s[end - 1] == 32) {
        spec_strip_end(s, end - 1)
    } else {
        end
    }
}

/// The stripped index is exactly the boundary of the trailing padding run:
/// everything from it on is null or space, and the byte just before it,
/// when there is one, is neither.
pub proof fn lemma_strip_end_is_padding_boundary(s: Seq<u8>, end: int)
    requires
        0 <= end <= s.len(),
    ensures
        0 <= spec_strip_end(s, end) <= end,
        forall|i: int| spec_strip_end(s, end) <= i < end ==> s[i] == 0 || s[i] == 32,
        spec_strip_end(s, end) > 0 ==> !(s[spec_strip_end(s, end) - 1] == 0 || s[spec_strip_end(
            s,
            end,
        ) - 1] == 32),
    decreases end,
{
    if end > 0 && (s[end - 1] == 0 || s[end - 1] == 32) {
        lemma_strip_end_is_padding_boundary(s, end - 1);
    }
}

/// Law: on a captured line whose content — the bytes before the trailing
/// null/space padding — is all printable low ASCII and reaches past the
/// prompt prefix when one is present, extraction yields exactly the content
/// with the padding and the prefix stripped, byte for byte: no content byte
/// dropped, no padding byte kept.
pub proof fn lemma_extract_strips_exactly(s: Seq<u8>)
    requires
        s.len() == 80,
        forall|i: int| 0 <= i < spec_strip_end(s, 80) ==> 0x20 <= #[trigger] s[i] && s[i] <= 0x7e,
        (if s[0] == 62 {
            2int
        } else {
            0int
        }) <= spec_strip_end(s, 80),
    ensures
        spec_extract(s) == Some(
            s.subrange(
                if s[0] == 62 {
                    2int
                } else {
                    0int
                },
                spec_strip_end(s, 80),
            ),
        ),
{
    lemma_strip_end_is_padding_boundary(s, 80);
}

/// Extracting the typed command from a captured display line: strip trailing
/// null/space padding, strip the leading two-character prompt prefix when
/// the line starts with the prompt marker, and accept only lines whose bytes
/// up to the padding are all printable low ASCII. A line whose remainder is
/// shorter than the prefix, or that holds any non-printable or high byte,
/// yields nothing.
pub open spec fn spec_extract(s: Seq<u8>) -> Option<Seq<u8>> {
    let end = spec_strip_end(s, 80);
    let start: int = if s[0] == 62 {
        2
    } else {
        0
    };
    if end < start {
        None
    } else if exists|i: int| 0 <= i < end && !(0x20 <= #[trigger] s[i] && s[i] <= 0x7e) {
        None
    } else {
        Some(s.subrange(start, end))
    }
}

/// Extract the typed command from a captured display line.
pub fn extract_line(buffer: &[u8]) -> (r: Option<Vec<u8>>)
    requires
        buffer@.len() == 80,
    ensures
        match r {
            Some(line) => spec_extract(buffer@) == Some(line@),
            None => spec_extract(buffer@) == None::<Seq<u8>>,
        },
{
    let mut end: usize = 80;
    while end > 0 && (buffer[end - 1] == 0 || buffer[end - 1] == 32)
        invariant
            buffer@.len() == 80,
            end <= 80,
            spec_strip_end(buffer@, 80) == spec_strip_end(buffer@, end as int),
        decreases end,
    {
        end = end - 1;
    }
    proof {
        assert(spec_strip_end(buffer@, end as int) == end as int);
        assert(spec_strip_end(buffer@, 80) == end as int);
    }
    let start: usize = if buffer[0] == 62 {
        2
    } else {
        0
    };
    if end < start {
        return None;
    }
    let mut i: usize = 0;
    while i < end
        invariant
            buffer@.len() == 80,
            end <= 80,
            i <= end,
            start <= end,
            spec_strip_end(buffer@, 80) == end as int,
            start == 2 <==> buffer@[0] == 62,
            start == 2 || start == 0,
            forall|j: int| 0 <= j < i ==> 0x20 <= #[trigger] buffer@[j] && buffer@[j] <= 0x7e,
        decreases end - i,
    {
        if buffer[i] < 0x20 || buffer[i] > 0x7e {
            proof {
                assert(exists|k: int|
                    0 <= k < end && !(0x20 <= #[trigger] buffer@[k] && buffer@[k] <= 0x7e)) by {
                    assert(0 <= i < end && !(0x20 <= buffer@[i as int] <= 0x7e));
                }
            }
            return None;
        }
        i = i + 1;
    }
    let mut out: Vec<u8> = Vec::new();
    let mut j: usize = start;
    while j < end
        invariant
            buffer@.len() == 80,
            start <= j <= end <= 80,
            out@ =~= buffer@.subrange(start as int, j as int),
        decreases end - j,
    {
        out.push(buffer[j]);
        proof {
            assert(buffer@.subrange(start as int, j as int + 1) =~= buffer@.subrange(
                start as int,
                j as int,
            ).push(buffer@[j as int]));
        }
        j = j + 1;
    }
    Some(out)
}

/// Capturing a line on Enter: read the bottom row, extract the typed
/// command, and when one is extracted advance the display to a fresh line
/// and dispatch it; a line that yields nothing is dropped silently.
pub open spec fn spec_check_command(v: WriterView) -> (WriterView, bool) {
    match spec_extract(v.last_line_bytes()) {
        Some(line) => spec_execute(spec_new_line(v), line),
        None => (v, false),
    }
}

/// Capture the bottom display line and dispatch it as a command. Returns
/// whether the shutdown action was invoked.
pub fn check_command(writer: &mut Writer) -> (shutdown: bool)
    requires
        old(writer)@.wf(),
    ensures
        final(writer)@ == spec_check_command(old(writer)@).0,
        final(writer)@.wf(),
        shutdown == spec_check_command(old(writer)@).1,
{
    let mut buf: Vec<u8> = Vec::new();
    let mut k: usize = 0;
    while k < 80
        invariant
            k <= 80,
            buf@.len() == k,
            forall|j: int| 0 <= j < k ==> buf@[j] == 0u8,
        decreases 80 - k,
    {
        buf.push(0);
        k = k + 1;
    }
    writer.get_last_line(&mut buf);
    proof {
        assert(buf@ =~= old(writer)@.last_line_bytes());
    }
    match extract_line(buf.as_slice()) {
        Some(line) => {
            writer.new_line();
            execute(writer, line.as_slice())
        },
        None => false,
    }
}

/// Write the initial prompt marker.
pub fn start_command(writer: &mut Writer)
    requires
        old(writer)@.wf(),
    ensures
        final(writer)@ == spec_write_string(old(writer)@, prompt()),
        final(writer)@.wf(),
{
    writer.write_string("> ".as_bytes());
}

} // verus!
