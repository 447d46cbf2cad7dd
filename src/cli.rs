//! The command line's already-parsed values.
use vstd::prelude::*;

verus! {

/// How each rendered line is laid out.
#[derive(Clone, Copy, Debug, PartialEq, Eq, Structural, PartialOrd, Ord)]
pub enum OutputMode {
    /// Plain text to standard output.
    Simple,
    /// The Waybar JSON format.
    Waybar,
}

/// The name of a mode as written on the command line.
pub open spec fn mode_name(mode: OutputMode) -> Seq<char> {
    match mode {
        OutputMode::Simple => "simple"@,
        OutputMode::Waybar => "waybar"@,
    }
}

impl OutputMode {
    /// The name of this mode as written on the command line.
    pub fn name(&self) -> (r: String)
        ensures
            r@ == mode_name(*self),
    {
        match *self {
            OutputMode::Simple => String::from_str("simple"),
            OutputMode::Waybar => String::from_str("waybar"),
        }
    }
}

/// Options of the `monitor` command.
#[derive(Clone, Debug)]
pub struct MonitorArgs {
    /// Select the style of output to use.
    pub mode: OutputMode,
    /// How to format clock strings; `{time}` and `{heading}` are substituted.
    pub format: String,
    /// Count down from this duration (e.g. `25m`) instead of counting up.
    pub down_from: Option<String>,
}

/// The commands of the program.
#[derive(Clone, Debug)]
pub enum Command {
    /// Monitor the bus for a status bar.
    Monitor(MonitorArgs),
}

/// The whole command line.
#[derive(Clone, Debug)]
pub struct Cli {
    pub command: Command,
}

} // verus!
