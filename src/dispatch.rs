//! The output step: what is printed, copied and run once a command is generated.
use vstd::prelude::*;
use crate::command::{CommandError, CommandLine, is_split_of, split_command};

verus! {

/// `value` between backticks, after `label`.
pub open spec fn ticked(label: Seq<char>, value: Seq<char>) -> Seq<char> {
    label + seq!['`'] + value + seq!['`']
}

fn tick_line(label: &str, value: &str) -> (r: String)
    ensures
        r@ == ticked(label@, value@),
{
    let r = String::from_str(label).concat("`").concat(value).concat("`");
    proof {
        reveal_strlit("`");
    }
    assert(r@ =~= ticked(label@, value@));
    r
}

/// The line that reports the prompt.
pub fn prompt_line(prompt: &str) -> (r: String)
    ensures
        r@ == ticked("Prompt: "@, prompt@),
{
    tick_line("Prompt: ", prompt)
}

/// The line that reports the target platform.
pub fn platform_line(platform: &str) -> (r: String)
    ensures
        r@ == ticked("Target platform: "@, platform@),
{
    tick_line("Target platform: ", platform)
}

/// The line that reports the generated command.
pub fn generated_line(command: &str) -> (r: String)
    ensures
        r@ == ticked("Generated command: "@, command@),
{
    tick_line("Generated command: ", command)
}

/// The line printed before the command is copied.
pub fn copying_line(command: &str) -> (r: String)
    ensures
        r@ == ticked("Copying "@, command@) + " to clipboard..."@,
{
    tick_line("Copying ", command).concat(" to clipboard...")
}

/// The line printed before the command is run.
pub fn running_line(command: &str) -> (r: String)
    ensures
        r@ == ticked("Running "@, command@) + "..."@,
{
    tick_line("Running ", command).concat("...")
}

/// The line printed once the command is on the clipboard.
pub fn copied_line() -> (r: String)
    ensures
        r@ == "Command copied successfully!"@,
{
    String::from_str("Command copied successfully!")
}

/// The line that reports a failure to use the clipboard, with its cause.
pub fn clipboard_failure_line(cause: &str) -> (r: String)
    ensures
        r@ == "Could not copy to the clipboard: "@ + cause@,
{
    String::from_str("Could not copy to the clipboard: ").concat(cause)
}

/// The line that reports a failure to start the command, with its cause.
pub fn spawn_failure_line(command: &str, cause: &str) -> (r: String)
    ensures
        r@ == ticked("Could not run "@, command@) + ": "@ + cause@,
{
    tick_line("Could not run ", command).concat(": ").concat(cause)
}

/// What the output step does with a generated command.
#[derive(Debug)]
pub struct Dispatch {
    /// The line that reports the command; always printed, exactly once.
    pub announce: String,
    /// The text to put on the clipboard, if copying was asked for.
    pub copy: Option<String>,
    /// The program and arguments to run, if running was asked for, or why
    /// the command cannot be run.
    pub run: Option<Result<CommandLine, CommandError>>,
}

impl Dispatch {
    /// Whether this is the output step for `command` under the two switches.
    pub open spec fn plans(self, command: Seq<char>, copy: bool, run: bool) -> bool {
        &&& self.announce@ == ticked("Generated command: "@, command)
        &&& (self.copy is Some <==> copy)
        &&& (copy ==> self.copy->Some_0@ == command)
        &&& (self.run is Some <==> run)
        &&& (run ==> is_split_of(self.run->Some_0, command))
    }
}

/// Plans the output step: the command is always reported; it is copied only
/// when `copy` is set, and split for running only when `run` is set.
pub fn plan_output(command: &str, copy: bool, run: bool) -> (r: Dispatch)
    ensures
        r.plans(command@, copy, run),
{
    let announce = generated_line(command);
    let copy_text = if copy {
        Some(command.to_owned())
    } else {
        None
    };
    let run_line = if run {
        Some(split_command(command))
    } else {
        None
    };
    Dispatch { announce, copy: copy_text, run: run_line }
}

} // verus!
