//! Policies derived from the command line.
use vstd::prelude::*;

verus! {

/// Enable/Disable the progress bar.
#[derive(Debug, Clone, Copy, PartialEq, Eq, Structural)]
pub enum ProgressBarPolicy {
    /// Disable the progress bar.
    Disable,
    /// Enable the progress bar.
    Enable,
}

impl ProgressBarPolicy {
    /// Returns `true` if the progress bar is enabled.
    pub fn is_enabled(self) -> (r: bool)
        ensures
            r == (self == ProgressBarPolicy::Enable),
    {
        match self {
            ProgressBarPolicy::Enable => true,
            ProgressBarPolicy::Disable => false,
        }
    }
}

/// How to answer the [Y/n] questions.
#[derive(Debug, Clone, Copy, PartialEq, Eq, Structural)]
pub enum QuestionPolicy {
    /// Ask the user.
    Ask,
    /// Answer yes to every question.
    AlwaysYes,
    /// Answer no to every question.
    AlwaysNo,
}

/// Command line options
#[derive(Debug)]
pub struct Opts {
    /// Skip [Y/n] questions positively.
    pub yes: bool,
    /// Skip [Y/n] questions negatively.
    pub no: bool,
    /// Disable the progress bar.
    pub disable_progress_bar: bool,
    /// The subcommand given
    pub cmd: Subcommand,
}

/// The subcommands
#[derive(Debug, PartialEq, Eq)]
pub enum Subcommand {
    /// Compress one or more files into one output file.
    Compress {
        /// Files to be compressed.
        files: Vec<String>,
        /// The resulting file. Its extensions can be used to specify the compression formats.
        output: String,
    },
    /// Decompresses one or more files, optionally into another folder.
    Decompress {
        /// Files to be decompressed.
        files: Vec<String>,
        /// Decompress into this directory rather than the current one
        output_dir: Option<String>,
    },
    /// List contents.
    List {
        /// Archives whose contents should be listed
        archives: Vec<String>,
        /// Show archive contents as a tree
        tree: bool,
    },
}

/// The files a subcommand works on.
pub open spec fn files_of(c: Subcommand) -> Vec<String> {
    match c {
        Subcommand::Compress { files, .. } => files,
        Subcommand::Decompress { files, .. } => files,
        Subcommand::List { archives, .. } => archives,
    }
}

/// Two subcommands that are the same but for their files.
pub open spec fn same_but_files(a: Subcommand, b: Subcommand) -> bool {
    match a {
        Subcommand::Compress { output, .. } => b matches Subcommand::Compress { output: o, .. } && o
            == output,
        Subcommand::Decompress { output_dir, .. } => b matches Subcommand::Decompress {
            output_dir: d,
            ..
        } && d == output_dir,
        Subcommand::List { tree, .. } => b matches Subcommand::List { tree: t, .. } && t == tree,
    }
}

/// `yes` wins over `no`; with neither the user is asked.
pub open spec fn question_policy_of(yes: bool, no: bool) -> QuestionPolicy {
    if yes {
        QuestionPolicy::AlwaysYes
    } else if no {
        QuestionPolicy::AlwaysNo
    } else {
        QuestionPolicy::Ask
    }
}

impl Opts {
    /// Completes parsed options: the files of the subcommand are replaced by
    /// `canonical_files` (their absolute forms), and the question and
    /// progress-bar policies are read from the flags.
    pub fn parse_args(opts: Opts, canonical_files: Vec<String>) -> (r: (Opts, QuestionPolicy, ProgressBarPolicy))
        ensures
            r.0.yes == opts.yes,
            r.0.no == opts.no,
            r.0.disable_progress_bar == opts.disable_progress_bar,
            same_but_files(opts.cmd, r.0.cmd),
            files_of(r.0.cmd) == canonical_files,
            r.1 == question_policy_of(opts.yes, opts.no),
            r.2 == (if opts.disable_progress_bar {
                ProgressBarPolicy::Disable
            } else {
                ProgressBarPolicy::Enable
            }),
    {
        let Opts { yes, no, disable_progress_bar, cmd } = opts;
        let cmd = match cmd {
            Subcommand::Compress { files: _, output } => Subcommand::Compress {
                files: canonical_files,
                output,
            },
            Subcommand::Decompress { files: _, output_dir } => Subcommand::Decompress {
                files: canonical_files,
                output_dir,
            },
            Subcommand::List { archives: _, tree } => Subcommand::List {
                archives: canonical_files,
                tree,
            },
        };
        let skip_questions_positively = if yes {
            QuestionPolicy::AlwaysYes
        } else if no {
            QuestionPolicy::AlwaysNo
        } else {
            QuestionPolicy::Ask
        };
        let progress_bar_policy = if disable_progress_bar {
            ProgressBarPolicy::Disable
        } else {
            ProgressBarPolicy::Enable
        };
        (Opts { yes, no, disable_progress_bar, cmd }, skip_questions_positively, progress_bar_policy)
    }
}

} // verus!
