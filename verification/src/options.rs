use vstd::prelude::*;

verus! {

/// Options that shape how a wrapped command is run and how its output is handled.
#[derive(Clone, Copy, Debug)]
pub struct RunOptions<'a> {
    /// Label under which the raw output is teed on failure, if any.
    pub tee_label: Option<&'a str>,
    /// Logical subcommand used for tracking when it differs from the executable name.
    pub rtk_command_name: Option<&'a str>,
    /// Filter (and track) only the standard output instead of the combined output.
    pub filter_stdout_only: bool,
    /// On a failing exit code, show the raw streams instead of filtering.
    pub skip_filter_on_failure: bool,
    /// Print the filtered output without a trailing newline.
    pub no_trailing_newline: bool,
    /// Forward this process's stdin to the child.
    pub inherit_stdin: bool,
}

/// The options as plain values.
pub struct OptionsModel {
    pub tee_label: Option<Seq<char>>,
    pub rtk_command_name: Option<Seq<char>>,
    pub filter_stdout_only: bool,
    pub skip_filter_on_failure: bool,
    pub no_trailing_newline: bool,
    pub inherit_stdin: bool,
}

impl<'a> View for RunOptions<'a> {
    type V = OptionsModel;

    open spec fn view(&self) -> OptionsModel {
        OptionsModel {
            tee_label: self.tee_label.deep_view(),
            rtk_command_name: self.rtk_command_name.deep_view(),
            filter_stdout_only: self.filter_stdout_only,
            skip_filter_on_failure: self.skip_filter_on_failure,
            no_trailing_newline: self.no_trailing_newline,
            inherit_stdin: self.inherit_stdin,
        }
    }
}

/// The options with nothing set.
pub open spec fn default_options<'a>() -> RunOptions<'a> {
    RunOptions {
        tee_label: None,
        rtk_command_name: None,
        filter_stdout_only: false,
        skip_filter_on_failure: false,
        no_trailing_newline: false,
        inherit_stdin: false,
    }
}

impl<'a> Default for RunOptions<'a> {
    fn default() -> (r: Self)
        ensures
            r == default_options::<'a>(),
    {
        RunOptions {
            tee_label: None,
            rtk_command_name: None,
            filter_stdout_only: false,
            skip_filter_on_failure: false,
            no_trailing_newline: false,
            inherit_stdin: false,
        }
    }
}

impl<'a> RunOptions<'a> {
    /// Default options that tee the raw output under `label`.
    pub fn with_tee(label: &'a str) -> (r: Self)
        ensures
            r == (RunOptions { tee_label: Some(label), ..default_options::<'a>() }),
    {
        let d = Self::default();
        RunOptions { tee_label: Some(label), ..d }
    }

    /// Default options that filter only the standard output.
    pub fn stdout_only() -> (r: Self)
        ensures
            r == (RunOptions { filter_stdout_only: true, ..default_options::<'a>() }),
    {
        let d = Self::default();
        RunOptions { filter_stdout_only: true, ..d }
    }

    /// Sets the tee label, keeping every other option.
    pub fn tee(self, label: &'a str) -> (r: Self)
        ensures
            r == (RunOptions { tee_label: Some(label), ..self }),
    {
        RunOptions { tee_label: Some(label), ..self }
    }

    /// Sets the logical subcommand name used for tracking, keeping every other option.
    pub fn rtk_command(self, name: &'a str) -> (r: Self)
        ensures
            r == (RunOptions { rtk_command_name: Some(name), ..self }),
    {
        RunOptions { rtk_command_name: Some(name), ..self }
    }

    /// Shows the raw streams instead of filtering when the command fails, keeping every other option.
    pub fn early_exit_on_failure(self) -> (r: Self)
        ensures
            r == (RunOptions { skip_filter_on_failure: true, ..self }),
    {
        RunOptions { skip_filter_on_failure: true, ..self }
    }

    /// Prints the filtered output without a trailing newline, keeping every other option.
    pub fn no_trailing_newline(self) -> (r: Self)
        ensures
            r == (RunOptions { no_trailing_newline: true, ..self }),
    {
        RunOptions { no_trailing_newline: true, ..self }
    }

    /// Forwards stdin to the child, keeping every other option.
    pub fn inherit_stdin(self) -> (r: Self)
        ensures
            r == (RunOptions { inherit_stdin: true, ..self }),
    {
        RunOptions { inherit_stdin: true, ..self }
    }
}

} // verus!
