use vstd::prelude::*;

verus! {

/// The options of one invocation.
pub struct GimCli {
    pub command: Option<GimCommands>,
    /// The commit subject, which saves the subject request.
    pub title: Option<String>,
    /// Stage every change before building the diff.
    pub auto_add: bool,
    /// Amend the last commit.
    pub update: bool,
    /// Print diagnostic lines.
    pub verbose: bool,
    /// Print nothing but errors.
    pub quiet: bool,
    /// Show the diff document instead of committing.
    pub dry: bool,
    /// Diff prompt for this run only.
    pub diff_prompt: Option<String>,
    /// Subject prompt for this run only.
    pub subject_prompt: Option<String>,
}

/// The subcommands.
pub enum GimCommands {
    /// Check for a newer release and install it.
    Update { force: bool },
    /// Show the prompt files, or open one for editing.
    Prompt { edit: bool, prompt: Option<String>, editor: Option<String> },
    /// Store AI settings.
    Ai {
        model: Option<String>,
        apikey: Option<String>,
        url: Option<String>,
        language: Option<String>,
    },
    /// Show where the configuration lives, or change the diff line ceiling.
    Config { change_limit: Option<usize> },
}

} // verus!
