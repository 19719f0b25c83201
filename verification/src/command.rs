//! The commands that the page sends as text or bytes, and the reply that
//! goes back.
//!
//! A command is the first line of its input, read as UTF-8. The four
//! virtual-machine commands are answered by the machine; every other input,
//! input that is not valid UTF-8 among it, goes to the control interpreter,
//! which gets the whole input.

use vstd::prelude::*;
use vstd::utf8::*;

use crate::text::{text_or_empty, text_or_empty_spec, utf8_str};

verus! {

/// The number of machine cycles that `vm.stp` runs.
pub const STEP_CYCLES: u32 = 1;

/// The number of machine cycles that `vm.run` runs.
pub const RUN_CYCLES: u32 = 1024;

/// What a command input asks for.
#[derive(Clone, Copy, Debug, PartialEq, Eq, Structural)]
pub enum Command {
    /// Run the virtual machine for the given number of cycles
    /// (`vm.stp`, `vm.run`).
    VmRun { cycles: u32 },
    /// List the functions that the machine's interrupts offer (`vm.fnc`).
    VmFunctions,
    /// Disassemble the loaded program (`vm.dis`).
    VmDisassemble,
    /// Anything else: handed to the control interpreter.
    Control,
}

/// The bytes of `vm.stp`.
pub open spec fn vm_step_word() -> Seq<u8> {
    seq![118u8, 109u8, 46u8, 115u8, 116u8, 112u8]
}

/// The bytes of `vm.run`.
pub open spec fn vm_run_word() -> Seq<u8> {
    seq![118u8, 109u8, 46u8, 114u8, 117u8, 110u8]
}

/// The bytes of `vm.fnc`.
pub open spec fn vm_functions_word() -> Seq<u8> {
    seq![118u8, 109u8, 46u8, 102u8, 110u8, 99u8]
}

/// The bytes of `vm.dis`.
pub open spec fn vm_disassemble_word() -> Seq<u8> {
    seq![118u8, 109u8, 46u8, 100u8, 105u8, 115u8]
}

/// The first line of `input` (its bytes up to the first newline, or all of
/// them) is `word`.
pub open spec fn first_line_is(input: Seq<u8>, word: Seq<u8>) -> bool {
    &&& input.len() >= word.len()
    &&& input.take(word.len() as int) == word
    &&& (input.len() == word.len() || input[word.len() as int] == 10u8)
}

/// The command that `input` asks for.
pub open spec fn command_of(input: Seq<u8>) -> Command {
    if !valid_utf8(input) {
        Command::Control
    } else if first_line_is(input, vm_step_word()) {
        Command::VmRun { cycles: STEP_CYCLES }
    } else if first_line_is(input, vm_run_word()) {
        Command::VmRun { cycles: RUN_CYCLES }
    } else if first_line_is(input, vm_functions_word()) {
        Command::VmFunctions
    } else if first_line_is(input, vm_disassemble_word()) {
        Command::VmDisassemble
    } else {
        Command::Control
    }
}

/// The four machine words differ in their fourth byte, so the first six
/// bytes of an input match at most one of them.
proof fn first_line_words_differ(head: Seq<u8>)
    requires
        head.len() == 6,
    ensures
        head == vm_step_word() ==> head[3] == 115u8 && head[4] == 116u8,
        head == vm_run_word() ==> head[3] == 114u8,
        head == vm_functions_word() ==> head[3] == 102u8,
        head == vm_disassemble_word() ==> head[3] == 100u8,
        head == seq![118u8, 109u8, 46u8, 115u8, 116u8, 112u8] ==> head == vm_step_word(),
        head == seq![118u8, 109u8, 46u8, 114u8, 117u8, 110u8] ==> head == vm_run_word(),
        head == seq![118u8, 109u8, 46u8, 102u8, 110u8, 99u8] ==> head == vm_functions_word(),
        head == seq![118u8, 109u8, 46u8, 100u8, 105u8, 115u8] ==> head == vm_disassemble_word(),
{
}

/// A valid UTF-8 input whose first line (all of it, or the bytes before the
/// first newline) is exactly `vm.stp` asks for one cycle of the machine, whatever the later
/// lines hold.
pub proof fn first_line_step(input: Seq<u8>)
    requires
        valid_utf8(input),
        input.len() >= 6,
        input.take(6) == seq![118u8, 109u8, 46u8, 115u8, 116u8, 112u8],
        input.len() == 6 || input[6] == 10u8,
    ensures
        command_of(input) == (Command::VmRun { cycles: 1 }),
{
    first_line_words_differ(input.take(6));
}

/// A valid UTF-8 input whose first line (all of it, or the bytes before the
/// first newline) is exactly `vm.run` asks for 1024 cycles of the machine, whatever the later
/// lines hold.
pub proof fn first_line_run(input: Seq<u8>)
    requires
        valid_utf8(input),
        input.len() >= 6,
        input.take(6) == seq![118u8, 109u8, 46u8, 114u8, 117u8, 110u8],
        input.len() == 6 || input[6] == 10u8,
    ensures
        command_of(input) == (Command::VmRun { cycles: 1024 }),
{
    first_line_words_differ(input.take(6));
}

/// A valid UTF-8 input whose first line (all of it, or the bytes before the
/// first newline) is exactly `vm.fnc` asks for the list of the interrupts' functions, whatever the later
/// lines hold.
pub proof fn first_line_functions(input: Seq<u8>)
    requires
        valid_utf8(input),
        input.len() >= 6,
        input.take(6) == seq![118u8, 109u8, 46u8, 102u8, 110u8, 99u8],
        input.len() == 6 || input[6] == 10u8,
    ensures
        command_of(input) == Command::VmFunctions,
{
    first_line_words_differ(input.take(6));
}

/// A valid UTF-8 input whose first line (all of it, or the bytes before the
/// first newline) is exactly `vm.dis` asks for the disassembly of the loaded program, whatever the later
/// lines hold.
pub proof fn first_line_disassemble(input: Seq<u8>)
    requires
        valid_utf8(input),
        input.len() >= 6,
        input.take(6) == seq![118u8, 109u8, 46u8, 100u8, 105u8, 115u8],
        input.len() == 6 || input[6] == 10u8,
    ensures
        command_of(input) == Command::VmDisassemble,
{
    first_line_words_differ(input.take(6));
}

/// An input whose first line is none of the four machine words goes to the
/// control interpreter: one shorter than six bytes, one whose first six
/// bytes spell no machine word, or one that runs on past them without a
/// newline.
pub proof fn other_first_line_goes_to_control(input: Seq<u8>)
    requires
        input.len() < 6 || (input.len() > 6 && input[6] != 10u8) || (input.take(6) != seq![
            118u8,
            109u8,
            46u8,
            115u8,
            116u8,
            112u8,
        ] && input.take(6) != seq![118u8, 109u8, 46u8, 114u8, 117u8, 110u8] && input.take(6) != seq![
            118u8,
            109u8,
            46u8,
            102u8,
            110u8,
            99u8,
        ] && input.take(6) != seq![118u8, 109u8, 46u8, 100u8, 105u8, 115u8]),
    ensures
        command_of(input) == Command::Control,
{
    if input.len() >= 6 {
        first_line_words_differ(input.take(6));
    }
}

/// Input that is not valid UTF-8 always goes to the control interpreter.
pub proof fn invalid_input_goes_to_control(input: Seq<u8>)
    requires
        !valid_utf8(input),
    ensures
        command_of(input) == Command::Control,
{
}

/// Whether the first line of `input` is the six-byte `word`.
fn line_matches(input: &[u8], word: [u8; 6]) -> (r: bool)
    ensures
        r == first_line_is(input@, word@),
{
    let n = input.len();
    if n < 6 {
        return false;
    }
    let mut k: usize = 0;
    while k < 6
        invariant
            k <= 6,
            n == input@.len(),
            n >= 6,
            forall|j: int| 0 <= j < k ==> input@[j] == word@[j],
        decreases 6 - k,
    {
        if input[k] != word[k] {
            assert(input@.take(6)[k as int] != word@[k as int]);
            return false;
        }
        k = k + 1;
    }
    assert(input@.take(6) =~= word@);
    n == 6 || input[6] == 10u8
}

/// Reads the command that `input` asks for.
pub fn parse_command(input: &[u8]) -> (cmd: Command)
    ensures
        cmd == command_of(input@),
{
    if utf8_str(input).is_none() {
        return Command::Control;
    }
    let step: [u8; 6] = [118u8, 109u8, 46u8, 115u8, 116u8, 112u8];
    let run: [u8; 6] = [118u8, 109u8, 46u8, 114u8, 117u8, 110u8];
    let functions: [u8; 6] = [118u8, 109u8, 46u8, 102u8, 110u8, 99u8];
    let disassemble: [u8; 6] = [118u8, 109u8, 46u8, 100u8, 105u8, 115u8];
    assert(step@ =~= vm_step_word());
    assert(run@ =~= vm_run_word());
    assert(functions@ =~= vm_functions_word());
    assert(disassemble@ =~= vm_disassemble_word());
    if line_matches(input, step) {
        Command::VmRun { cycles: STEP_CYCLES }
    } else if line_matches(input, run) {
        Command::VmRun { cycles: RUN_CYCLES }
    } else if line_matches(input, functions) {
        Command::VmFunctions
    } else if line_matches(input, disassemble) {
        Command::VmDisassemble
    } else {
        Command::Control
    }
}

/// The reply to a command: the output text where the command succeeded
/// (empty where the output is not valid UTF-8), nothing where it failed.
pub fn command_reply(succeeded: bool, output: &[u8]) -> (reply: Option<String>)
    ensures
        reply is Some <==> succeeded,
        reply matches Some(text) ==> text@ == text_or_empty_spec(output@),
        reply matches Some(text) ==> (valid_utf8(output@) ==> encode_utf8(text@) == output@),
        reply matches Some(text) ==> (!valid_utf8(output@) ==> text@.len() == 0),
{
    if succeeded {
        Some(text_or_empty(output))
    } else {
        None
    }
}

} // verus!
