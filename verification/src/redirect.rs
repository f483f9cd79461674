//! The redirection accumulator: which of a pipeline's standard streams go
//! to files, and how the files are opened.

use crate::grammar::RedirectKind;
use vstd::prelude::*;

verus! {

/// How a file that receives output is opened.
#[derive(Debug, PartialEq, Eq, Structural, Clone, Copy)]
pub enum OutputOption {
    /// What is written goes after what the file holds.
    Append,
    /// The file is emptied first.
    Overwrite,
}

/// Whether an output stream is redirected, and how its file is opened.
#[derive(Debug, PartialEq, Eq, Structural, Clone, Copy)]
pub struct OutputBool {
    option: OutputOption,
    is_enable: bool,
}

impl OutputBool {
    pub closed spec fn option(self) -> OutputOption {
        self.option
    }

    pub closed spec fn is_enable(self) -> bool {
        self.is_enable
    }

    /// No redirection; the option is `Overwrite`.
    pub fn new() -> (b: OutputBool)
        ensures
            !b.is_enable(),
            b.option() == OutputOption::Overwrite,
    {
        OutputBool { option: OutputOption::Overwrite, is_enable: false }
    }

    /// Switches the redirection on, with `option`.
    pub fn enable(&mut self, option: OutputOption)
        ensures
            final(self).is_enable(),
            final(self).option() == option,
    {
        self.is_enable = true;
        self.option = option
    }
}

/// How a file is opened for a redirection.
#[derive(Debug, PartialEq, Eq, Structural, Clone, Copy)]
pub enum FileMode {
    /// For reading; the file must exist.
    Read,
    /// For writing, created if need be and emptied.
    Overwrite,
    /// For writing, created if need be, written at its end.
    Append,
}

impl OutputOption {
    /// The file mode that the option asks for.
    pub open spec fn mode(self) -> FileMode {
        match self {
            OutputOption::Append => FileMode::Append,
            OutputOption::Overwrite => FileMode::Overwrite,
        }
    }
}

/// A file to open in a child process for one of its standard streams.
#[derive(Debug, PartialEq)]
pub struct FileRequest {
    pub path: String,
    pub mode: FileMode,
}

/// What an accumulator holds: for each standard stream that is redirected,
/// the file's path and the mode it is opened in.
pub struct Redirection {
    pub input: Option<Seq<char>>,
    pub output: Option<(Seq<char>, OutputOption)>,
    pub error: Option<(Seq<char>, OutputOption)>,
}

impl Redirection {
    /// No stream is redirected.
    pub open spec fn none() -> Redirection {
        Redirection { input: None, output: None, error: None }
    }

    /// The redirections after one more specifier: `kind` to `path`. It
    /// takes the place of any earlier one for the same stream.
    pub open spec fn apply(self, kind: RedirectKind, path: Seq<char>) -> Redirection {
        match kind {
            RedirectKind::Input => Redirection { input: Some(path), ..self },
            RedirectKind::Output => Redirection {
                output: Some((path, OutputOption::Overwrite)),
                ..self
            },
            RedirectKind::OutputAppend => Redirection {
                output: Some((path, OutputOption::Append)),
                ..self
            },
            RedirectKind::ErrorOutput => Redirection {
                error: Some((path, OutputOption::Overwrite)),
                ..self
            },
            RedirectKind::ErrorOutputAppend => Redirection {
                error: Some((path, OutputOption::Append)),
                ..self
            },
        }
    }
}

/// The standard streams of a process.
#[derive(Debug, PartialEq, Eq, Structural, Clone, Copy)]
pub enum Stream {
    Input,
    Output,
    Error,
}

impl RedirectKind {
    /// The stream that a specifier of this kind redirects.
    pub open spec fn stream(self) -> Stream {
        match self {
            RedirectKind::Input => Stream::Input,
            RedirectKind::Output | RedirectKind::OutputAppend => Stream::Output,
            RedirectKind::ErrorOutput | RedirectKind::ErrorOutputAppend => Stream::Error,
        }
    }
}

/// The last specifier for a stream wins: a specifier applied after another
/// for the same stream leaves nothing of the earlier one.
pub proof fn lemma_last_wins(
    r: Redirection,
    first: RedirectKind,
    first_path: Seq<char>,
    last: RedirectKind,
    last_path: Seq<char>,
)
    requires
        first.stream() == last.stream(),
    ensures
        r.apply(first, first_path).apply(last, last_path) == r.apply(last, last_path),
{
}

/// Specifiers for different streams do not disturb each other: they may be
/// applied in either order.
pub proof fn lemma_streams_apart(
    r: Redirection,
    a: RedirectKind,
    a_path: Seq<char>,
    b: RedirectKind,
    b_path: Seq<char>,
)
    requires
        a.stream() != b.stream(),
    ensures
        r.apply(a, a_path).apply(b, b_path) == r.apply(b, b_path).apply(a, a_path),
{
}

/// The pending redirections of one pipeline.
#[derive(Debug)]
pub struct RedirectFD {
    input: String,
    output: String,
    error: String,
    pub do_redirect_input: bool,
    pub do_redirect_output: OutputBool,
    pub do_redirect_error: OutputBool,
}

impl RedirectFD {
    pub closed spec fn view(&self) -> Redirection {
        Redirection {
            input: if self.do_redirect_input {
                Some(self.input@)
            } else {
                None
            },
            output: if self.do_redirect_output.is_enable() {
                Some((self.output@, self.do_redirect_output.option()))
            } else {
                None
            },
            error: if self.do_redirect_error.is_enable() {
                Some((self.error@, self.do_redirect_error.option()))
            } else {
                None
            },
        }
    }

    /// An accumulator in which no stream is redirected.
    pub fn new() -> (r: RedirectFD)
        ensures
            r@ == Redirection::none(),
    {
        RedirectFD {
            input: String::new(),
            output: String::new(),
            error: String::new(),
            do_redirect_input: false,
            do_redirect_output: OutputBool::new(),
            do_redirect_error: OutputBool::new(),
        }
    }

    /// Takes one more specifier: `kind` to the file `path`.
    pub fn apply(&mut self, kind: RedirectKind, path: String)
        ensures
            final(self)@ == old(self)@.apply(kind, path@),
    {
        match kind {
            RedirectKind::Input => {
                self.input = path;
                self.do_redirect_input = true;
            },
            RedirectKind::Output => {
                self.output = path;
                self.do_redirect_output.enable(OutputOption::Overwrite);
            },
            RedirectKind::OutputAppend => {
                self.output = path;
                self.do_redirect_output.enable(OutputOption::Append);
            },
            RedirectKind::ErrorOutput => {
                self.error = path;
                self.do_redirect_error.enable(OutputOption::Overwrite);
            },
            RedirectKind::ErrorOutputAppend => {
                self.error = path;
                self.do_redirect_error.enable(OutputOption::Append);
            },
        }
    }

    /// Forgets every redirection.
    pub fn clear(&mut self)
        ensures
            final(self)@ == Redirection::none(),
    {
        self.input = String::new();
        self.output = String::new();
        self.error = String::new();
        self.do_redirect_input = false;
        self.do_redirect_output = OutputBool::new();
        self.do_redirect_error = OutputBool::new();
    }

    /// The file that becomes the standard input, if it is redirected.
    pub fn input(&self) -> (request: Option<FileRequest>)
        ensures
            match self@.input {
                Some(path) => request matches Some(f) && f.path@ == path && f.mode
                    == FileMode::Read,
                None => request is None,
            },
    {
        if self.do_redirect_input {
            Some(FileRequest { path: self.input.clone(), mode: FileMode::Read })
        } else {
            None
        }
    }

    /// The file that receives the standard output, if it is redirected.
    pub fn output(&self) -> (request: Option<FileRequest>)
        ensures
            match self@.output {
                Some((path, option)) => request matches Some(f) && f.path@ == path && f.mode
                    == option.mode(),
                None => request is None,
            },
    {
        if self.do_redirect_output.is_enable {
            Some(
                FileRequest {
                    path: self.output.clone(),
                    mode: output_mode(self.do_redirect_output.option),
                },
            )
        } else {
            None
        }
    }

    /// The file that receives the error output, if it is redirected.
    pub fn error(&self) -> (request: Option<FileRequest>)
        ensures
            match self@.error {
                Some((path, option)) => request matches Some(f) && f.path@ == path && f.mode
                    == option.mode(),
                None => request is None,
            },
    {
        if self.do_redirect_error.is_enable {
            Some(
                FileRequest {
                    path: self.error.clone(),
                    mode: output_mode(self.do_redirect_error.option),
                },
            )
        } else {
            None
        }
    }
}

/// The file mode that `option` asks for.
pub fn output_mode(option: OutputOption) -> (mode: FileMode)
    ensures
        mode == option.mode(),
{
    match option {
        OutputOption::Append => FileMode::Append,
        OutputOption::Overwrite => FileMode::Overwrite,
    }
}

} // verus!
