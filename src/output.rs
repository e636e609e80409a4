use vstd::prelude::*;

verus! {

/// How much a run prints: `quiet` silences everything but errors, `verbose`
/// adds diagnostic lines.
pub struct OutputMode {
    pub verbose: bool,
    pub quiet: bool,
}

impl OutputMode {
    /// Neither verbose nor quiet.
    pub fn new() -> (r: OutputMode)
        ensures
            !r.verbose,
            !r.quiet,
    {
        OutputMode { verbose: false, quiet: false }
    }
}

/// Sets the verbose flag.
pub fn set_verbose(mode: &mut OutputMode, verbose: bool)
    ensures
        final(mode).verbose == verbose,
        final(mode).quiet == old(mode).quiet,
{
    mode.verbose = verbose;
}

/// Sets the quiet flag.
pub fn set_quiet(mode: &mut OutputMode, quiet: bool)
    ensures
        final(mode).quiet == quiet,
        final(mode).verbose == old(mode).verbose,
{
    mode.quiet = quiet;
}

/// The verbose flag.
pub fn is_verbose(mode: &OutputMode) -> (r: bool)
    ensures
        r == mode.verbose,
{
    mode.verbose
}

/// The quiet flag.
pub fn is_quiet(mode: &OutputMode) -> (r: bool)
    ensures
        r == mode.quiet,
{
    mode.quiet
}

/// Whether ordinary messages and warnings are printed.
pub fn shows_normal(mode: &OutputMode) -> (r: bool)
    ensures
        r == !mode.quiet,
{
    !mode.quiet
}

/// Whether diagnostic messages are printed.
pub fn shows_verbose(mode: &OutputMode) -> (r: bool)
    ensures
        r == (mode.verbose && !mode.quiet),
{
    mode.verbose && !mode.quiet
}

} // verus!
