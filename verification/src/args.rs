use vstd::prelude::*;

verus! {

/// The command-line surface: one subcommand holding the run's options.
pub struct Args {
    pub command: Command,
}

pub enum Command {
    PProf(PProfArgs),
}

/// The options of one profiling run, fixed at start and immutable throughout.
pub struct PProfArgs {
    /// Append the profiling build profile to the build manifest and exit.
    pub add: bool,
    /// Open the external trace viewer and exit, bypassing the pipeline.
    pub open_firefox_profiler: bool,
    /// Keep the captured data even when the profiled program itself fails.
    pub ignore_exit: bool,
    /// Arguments forwarded verbatim to the profiled program.
    pub app_args: Vec<String>,
}

} // verus!
