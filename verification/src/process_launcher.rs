//! Lifecycle of the supervised process.
//!
//! [`ProcessManager`] keeps track of one supervised command: what to launch,
//! whether it is running, and how it last exited. It never touches the
//! operating system. A driver launches, signals and polls the child, and tells
//! the manager what came of it.

use vstd::prelude::*;

verus! {

/// Why the supervised command could not be run or stopped.
#[derive(Debug, Eq, PartialEq, Clone, Copy, Structural)]
pub enum ProcessError {
    /// The command line has a quote that is never closed.
    MismatchedQuotes,
    /// The command line holds no word, so there is no program to run.
    EmptyCommand,
    /// The operating system could not launch the program.
    Launch,
    /// The termination signal could not be delivered.
    Termination,
}

/// Where the supervised process stands.
#[derive(Debug, Eq, PartialEq, Clone, Copy, Structural)]
pub enum Lifecycle {
    /// No process has been launched yet.
    NotStarted,
    /// A process was launched and has not been seen to exit.
    Running,
    /// The most recent process has exited; the flag tells whether it
    /// succeeded.
    Exited(bool),
}

/// Whether the shell reads `c` as itself, so that it needs no escaping.
pub open spec fn is_plain_char(c: char) -> bool {
    ||| 'A' <= c <= 'Z'
    ||| 'a' <= c <= 'z'
    ||| '0' <= c <= '9'
    ||| c == '_'
    ||| c == '-'
    ||| c == '.'
    ||| c == ','
    ||| c == ':'
    ||| c == '/'
    ||| c == '@'
}

/// One character as it stands in an escaped word: a line feed goes between
/// single quotes, a plain character stays, any other gets a backslash.
pub open spec fn escaped_char(c: char) -> Seq<char> {
    if c == '\n' {
        seq!['\'', '\n', '\'']
    } else if is_plain_char(c) {
        seq![c]
    } else {
        seq!['\\', c]
    }
}

/// The characters of `word`, each escaped, in order.
pub open spec fn escaped_chars(word: Seq<char>) -> Seq<char>
    decreases word.len(),
{
    if word.len() == 0 {
        Seq::empty()
    } else {
        escaped_chars(word.drop_last()) + escaped_char(word.last())
    }
}

/// A word escaped so that the shell reads it back as one word. The empty
/// word becomes a pair of single quotes.
pub open spec fn escaped_word(word: Seq<char>) -> Seq<char> {
    if word.len() == 0 {
        seq!['\'', '\'']
    } else {
        escaped_chars(word)
    }
}

/// The command line made of `words`: each word escaped, one space between
/// neighbours.
pub open spec fn joined_words(words: Seq<Seq<char>>) -> Seq<char>
    decreases words.len(),
{
    if words.len() == 0 {
        Seq::empty()
    } else if words.len() == 1 {
        escaped_word(words[0])
    } else {
        joined_words(words.drop_last()) + seq![' '] + escaped_word(words.last())
    }
}

/// Declares the error that `shellwords::split` reports, so that it can be
/// carried out of the call and turned into a [`ProcessError`].
#[verifier::external_type_specification]
#[verifier::external_body]
pub struct ExMismatchedQuotes(shellwords::MismatchedQuotes);

/// The words that `shellwords::split` reads from a command line, or `None`
/// where it reports mismatched quotes. The result depends on the characters
/// of the command line alone.
pub uninterp spec fn shell_split(command: Seq<char>) -> Option<Seq<Seq<char>>>;

/// Calls `shellwords::split`, which cuts a command line into words the way the
/// Bourne shell does. Nothing is proved of it: the contract only gives the
/// outcome its name, [`shell_split`], with `Err` standing for `None`.
#[verifier::external_body]
fn split_words(command: &str) -> (r: Result<Vec<String>, shellwords::MismatchedQuotes>)
    ensures
        match r {
            Ok(words) => shell_split(command@) == Some(words.deep_view()),
            Err(_) => shell_split(command@).is_none(),
        },
{
    shellwords::split(command)
}

/// Calls `shellwords::join`, which escapes each word and puts single spaces
/// between them. The contract restates its escaping rule as
/// [`joined_words`]: a backslash before every character outside
/// `A-Z a-z 0-9 _ - . , : / @`, a line feed between single quotes, and `''`
/// for an empty word. This is taken from the crate's source, not proved.
#[verifier::external_body]
fn join_words(words: &Vec<String>) -> (r: String)
    ensures
        r@ == joined_words(words.deep_view()),
{
    let borrowed: Vec<&str> = words.iter().map(String::as_str).collect();
    shellwords::join(&borrowed)
}

/// A program and the arguments to launch it with.
#[derive(Debug)]
pub struct Launch {
    /// The program to execute.
    pub program: String,
    /// The arguments handed to the program, in order.
    pub arguments: Vec<String>,
}

/// The mathematical content of a [`Launch`].
pub struct LaunchView {
    /// The program's name, as characters.
    pub program: Seq<char>,
    /// The arguments, each as characters.
    pub arguments: Seq<Seq<char>>,
}

impl View for Launch {
    type V = LaunchView;

    open spec fn view(&self) -> LaunchView {
        LaunchView { program: self.program@, arguments: self.arguments.deep_view() }
    }
}

/// The launch that a split command line stands for: the first word is the
/// program, the others are its arguments. Mismatched quotes and a command
/// line without words are errors.
pub open spec fn launch_of(words: Option<Seq<Seq<char>>>) -> Result<LaunchView, ProcessError> {
    match words {
        None => Err(ProcessError::MismatchedQuotes),
        Some(words) => if words.len() == 0 {
            Err(ProcessError::EmptyCommand)
        } else {
            Ok(LaunchView { program: words[0], arguments: words.subrange(1, words.len() as int) })
        },
    }
}

/// The words of a split command line, each as characters.
pub open spec fn words_view(words: Option<Vec<String>>) -> Option<Seq<Seq<char>>> {
    match words {
        Some(words) => Some(words.deep_view()),
        None => None,
    }
}

/// The view of a launch that may have failed to parse.
pub open spec fn launch_view(launch: Result<Launch, ProcessError>) -> Result<
    LaunchView,
    ProcessError,
> {
    match launch {
        Ok(launch) => Ok(launch@),
        Err(error) => Err(error),
    }
}

impl Launch {
    /// Makes a launch out of the words of a command line: the first word
    /// becomes the program, the rest its arguments. Without a first word there
    /// is nothing to run.
    pub fn from_words(words: Vec<String>) -> (r: Result<Launch, ProcessError>)
        ensures
            launch_view(r) == launch_of(Some(words.deep_view())),
    {
        let mut words = words;
        let ghost all = words.deep_view();
        if words.len() == 0 {
            return Err(ProcessError::EmptyCommand);
        }
        let program = words.remove(0);
        assert(words.deep_view() =~= all.subrange(1, all.len() as int));
        Ok(Launch { program, arguments: words })
    }
}

/// The mathematical content of a [`ProcessManager`].
pub struct ProcessView {
    /// The command line, as characters.
    pub command: Seq<char>,
    /// What the command line asks to launch, or why it cannot be launched.
    pub launch: Result<LaunchView, ProcessError>,
    /// Where the process stands.
    pub lifecycle: Lifecycle,
    /// The most recent exit that nobody has read yet.
    pub unread_exit: Option<bool>,
}

impl ProcessView {
    /// A manager that has launched nothing, for a command line that splits
    /// into `words`.
    pub open spec fn created(command: Seq<char>, words: Option<Seq<Seq<char>>>) -> ProcessView {
        ProcessView {
            command,
            launch: launch_of(words),
            lifecycle: Lifecycle::NotStarted,
            unread_exit: None,
        }
    }

    /// What holds of every manager: before the first launch there is no exit
    /// to read, an unread exit of an exited process is that process's own, and
    /// a command line is only ever refused for its quotes or for being empty.
    pub open spec fn wf(self) -> bool {
        &&& self.lifecycle is NotStarted ==> self.unread_exit is None
        &&& self.lifecycle matches Lifecycle::Exited(success) ==> (self.unread_exit is None
            || self.unread_exit == Some(success))
        &&& self.launch matches Err(error) ==> (error is MismatchedQuotes || error is EmptyCommand)
    }

    /// Whether a process is running.
    pub open spec fn is_running(self) -> bool {
        self.lifecycle is Running
    }

    /// What a start asks for: nothing while a process is running, else the
    /// launch, or the reason why the command line allows none.
    pub open spec fn start(self) -> Result<Option<LaunchView>, ProcessError> {
        if self.is_running() {
            Ok(None)
        } else {
            match self.launch {
                Ok(launch) => Ok(Some(launch)),
                Err(error) => Err(error),
            }
        }
    }

    /// The manager after a launch succeeded. An unread exit of an earlier
    /// process is kept.
    pub open spec fn started(self) -> ProcessView {
        ProcessView { lifecycle: Lifecycle::Running, ..self }
    }

    /// The manager after the running process was seen to exit. Without a
    /// running process nothing changes.
    pub open spec fn exited(self, success: bool) -> ProcessView {
        if self.is_running() {
            ProcessView {
                lifecycle: Lifecycle::Exited(success),
                unread_exit: Some(success),
                ..self
            }
        } else {
            self
        }
    }

    /// The manager after a poll that saw `observed_exit`: `None` while the
    /// process is alive, else whether it exited successfully.
    pub open spec fn observed(self, observed_exit: Option<bool>) -> ProcessView {
        match observed_exit {
            Some(success) => self.exited(success),
            None => self,
        }
    }

    /// The manager after its last exit was read.
    pub open spec fn consumed(self) -> ProcessView {
        ProcessView { unread_exit: None, ..self }
    }
}

/// One supervised command and the lifecycle of its process.
#[derive(Debug)]
pub struct ProcessManager {
    command: String,
    launch: Result<Launch, ProcessError>,
    lifecycle: Lifecycle,
    unread_exit: Option<bool>,
}

impl View for ProcessManager {
    type V = ProcessView;

    closed spec fn view(&self) -> ProcessView {
        ProcessView {
            command: self.command@,
            launch: launch_view(self.launch),
            lifecycle: self.lifecycle,
            unread_exit: self.unread_exit,
        }
    }
}

impl From<Vec<String>> for ProcessManager {
    /// A manager for the command line that joins `value`, each word escaped
    /// for the shell.
    fn from(value: Vec<String>) -> (r: Self)
        ensures
            r@ == ProcessView::created(
                joined_words(value.deep_view()),
                shell_split(joined_words(value.deep_view())),
            ),
            r@.wf(),
    {
        let command = join_words(&value);
        Self::new(command.as_str())
    }
}

impl vstd::std_specs::convert::FromSpecImpl<Vec<String>> for ProcessManager {
    /// The conversion is described by the contract of `from` itself, over
    /// the manager's view: no single manager is singled out here.
    open spec fn obeys_from_spec() -> bool {
        false
    }

    open spec fn from_spec(v: Vec<String>) -> Self {
        arbitrary()
    }
}

impl ProcessManager {
    /// Every manager is well formed, whatever was reported to it.
    #[verifier::type_invariant]
    pub open spec fn well_formed(self) -> bool {
        self@.wf()
    }

    /// A manager for `command` that has launched nothing yet. The command
    /// line is split into words at once, so that a later start knows what to
    /// launch.
    pub fn new(command: &str) -> (r: Self)
        ensures
            r@ == ProcessView::created(command@, shell_split(command@)),
            r@.wf(),
    {
        let words = match split_words(command) {
            Ok(words) => Some(words),
            Err(_) => None,
        };
        Self::with_words(command, words)
    }

    /// A manager for `command` whose words are already known, `None` standing
    /// for mismatched quotes. It has launched nothing yet.
    pub fn with_words(command: &str, words: Option<Vec<String>>) -> (r: Self)
        ensures
            r@ == ProcessView::created(command@, words_view(words)),
            r@.wf(),
    {
        let launch = match words {
            Some(words) => Launch::from_words(words),
            None => Err(ProcessError::MismatchedQuotes),
        };
        ProcessManager {
            command: command.to_owned(),
            launch,
            lifecycle: Lifecycle::NotStarted,
            unread_exit: None,
        }
    }

    /// The command line.
    pub fn command(&self) -> (r: &str)
        ensures
            r@ == self@.command,
    {
        self.command.as_str()
    }

    /// Where the process stands.
    pub fn lifecycle(&self) -> (r: Lifecycle)
        ensures
            r == self@.lifecycle,
    {
        self.lifecycle
    }

    /// Whether a process is running, as far as the manager was told.
    pub fn is_running(&self) -> (r: bool)
        ensures
            r == self@.is_running(),
    {
        match self.lifecycle {
            Lifecycle::Running => true,
            _ => false,
        }
    }

    /// What the driver has to launch to start the process. While a process is
    /// running that is nothing: no second process is ever asked for. A command
    /// line that cannot be launched is reported as an error. The manager
    /// itself does not change: the driver reports a successful launch with
    /// [`ProcessManager::started`].
    pub fn start(&self) -> (r: Result<Option<&Launch>, ProcessError>)
        ensures
            match r {
                Ok(Some(launch)) => self@.start() == Ok::<Option<LaunchView>, ProcessError>(
                    Some(launch@),
                ),
                Ok(None) => self@.start() == Ok::<Option<LaunchView>, ProcessError>(None),
                Err(error) => self@.start() == Err::<Option<LaunchView>, ProcessError>(error),
            },
    {
        if self.is_running() {
            return Ok(None);
        }
        match &self.launch {
            Ok(launch) => Ok(Some(launch)),
            Err(error) => Err(*error),
        }
    }

    /// What the command line asks to launch, whatever the lifecycle. `None`
    /// where the command line allows no launch.
    pub fn launch(&self) -> (r: Option<&Launch>)
        ensures
            match r {
                Some(launch) => self@.launch == Ok::<_, ProcessError>(launch@),
                None => self@.launch is Err,
            },
    {
        match &self.launch {
            Ok(launch) => Some(launch),
            Err(_) => None,
        }
    }

    /// Records that the driver launched the process.
    pub fn started(&mut self)
        ensures
            final(self)@ == old(self)@.started(),
            final(self)@.wf(),
    {
        proof {
            use_type_invariant(&*self);
        }
        self.lifecycle = Lifecycle::Running;
    }

    /// Whether the driver has to stop a process: send it the termination
    /// signal and wait for it. Without a running process there is nothing to
    /// do. The driver reports the exit with [`ProcessManager::stopped`].
    pub fn stop(&self) -> (r: bool)
        ensures
            r == self@.is_running(),
    {
        self.is_running()
    }

    /// Records that the running process has exited, and whether it succeeded.
    /// Without a running process this changes nothing.
    pub fn stopped(&mut self, success: bool)
        ensures
            final(self)@ == old(self)@.exited(success),
            final(self)@.wf(),
    {
        proof {
            use_type_invariant(&*self);
        }
        if self.is_running() {
            self.unread_exit = Some(success);
            self.lifecycle = Lifecycle::Exited(success);
        }
    }

    /// Takes in what a poll of the process saw (`None` while it is alive, else
    /// whether it exited successfully) and tells whether the process is still
    /// running. The first exit seen moves the lifecycle to
    /// [`Lifecycle::Exited`].
    pub fn check_if_running(&mut self, observed_exit: Option<bool>) -> (r: bool)
        ensures
            final(self)@ == old(self)@.observed(observed_exit),
            r == final(self)@.is_running(),
            final(self)@.wf(),
    {
        proof {
            use_type_invariant(&*self);
        }
        match observed_exit {
            Some(success) => {
                self.stopped(success);
            },
            None => {},
        }
        self.is_running()
    }

    /// Whether the most recent exit was a success. Reading it clears it: the
    /// next call returns `None` until another process has exited. `None` also
    /// means that no process has exited yet.
    pub fn check_if_exit_successful(&mut self) -> (r: Option<bool>)
        ensures
            r == old(self)@.unread_exit,
            final(self)@ == old(self)@.consumed(),
            final(self)@.wf(),
    {
        proof {
            use_type_invariant(&*self);
        }
        let unread = self.unread_exit;
        self.unread_exit = None;
        unread
    }
}

/// Every report keeps a manager well formed.
pub proof fn law_reports_keep_well_formed(
    process: ProcessView,
    success: bool,
    observed_exit: Option<bool>,
)
    requires
        process.wf(),
    ensures
        process.started().wf(),
        process.exited(success).wf(),
        process.observed(observed_exit).wf(),
        process.consumed().wf(),
{
}

/// Starting while a process runs is idempotent: no launch is asked for, and
/// a launch reported all the same changes nothing.
pub proof fn law_start_while_running_is_noop(process: ProcessView)
    requires
        process.is_running(),
    ensures
        process.start() == Ok::<Option<LaunchView>, ProcessError>(None),
        process.started() == process,
{
}

/// Stopping while no process runs is idempotent: whatever exit is reported,
/// nothing changes.
pub proof fn law_stop_while_idle_is_noop(
    process: ProcessView,
    success: bool,
    observed_exit: Option<bool>,
)
    requires
        !process.is_running(),
    ensures
        process.exited(success) == process,
        process.observed(observed_exit) == process,
{
}

/// The last exit is read once. It is there from the moment the running
/// process exits, a new launch keeps it, and reading it clears it. Before the
/// first launch there is none.
pub proof fn law_exit_is_read_once(process: ProcessView, success: bool)
    requires
        process.wf(),
    ensures
        process.is_running() ==> process.exited(success).unread_exit == Some(success),
        process.started().unread_exit == process.unread_exit,
        process.consumed().unread_exit is None,
        process.consumed().lifecycle == process.lifecycle,
        process.lifecycle is NotStarted ==> process.unread_exit is None,
{
}

} // verus!
