use vstd::prelude::*;

verus! {

/// How a finished child process ended: a normal exit with a code, or
/// termination by a signal.
#[derive(Clone, Copy, Debug, PartialEq, Eq, Structural)]
pub enum ExitStatus {
    Exited(i32),
    Signaled(i32),
}

impl ExitStatus {
    /// A run counts as successful exactly when the process exited normally
    /// with code zero.
    pub open spec fn is_success(self) -> bool {
        self == ExitStatus::Exited(0)
    }

    pub fn success(&self) -> (r: bool)
        ensures
            r == self.is_success(),
    {
        match self {
            ExitStatus::Exited(code) => *code == 0,
            ExitStatus::Signaled(_) => false,
        }
    }

    pub open spec fn spec_code(self) -> Option<i32> {
        match self {
            ExitStatus::Exited(c) => Some(c),
            ExitStatus::Signaled(_) => None,
        }
    }

    /// The exit code, when the process exited normally.
    pub fn code(&self) -> (r: Option<i32>)
        ensures
            r == self.spec_code(),
    {
        match self {
            ExitStatus::Exited(c) => Some(*c),
            ExitStatus::Signaled(_) => None,
        }
    }
}

/// What the library keeps of an operating-system I/O error: the raw OS error
/// code, when the error came straight from the OS, and the rendered message.
#[derive(Clone, Debug, PartialEq, Eq)]
pub struct IoError {
    pub raw_os: Option<i32>,
    pub message: String,
}

/// Everything one finished process run produced: its exit status and the two
/// captured streams, sealed once the run is over.
#[derive(Clone, Debug, PartialEq, Eq)]
pub struct Output {
    pub status: ExitStatus,
    pub stdout: Vec<u8>,
    pub stderr: Vec<u8>,
}

/// A process to be run: the executable, its ordered arguments, environment
/// overrides and an optional working directory. Read-only once a run starts.
#[derive(Debug)]
pub struct ProcessSpec {
    pub program: String,
    pub args: Vec<String>,
    pub envs: Vec<(String, String)>,
    pub current_dir: Option<String>,
}

impl ProcessSpec {
    pub fn new(program: &str) -> (r: ProcessSpec)
        ensures
            r.program@ == program@,
            r.args@.len() == 0,
            r.envs@.len() == 0,
            r.current_dir is None,
    {
        ProcessSpec {
            program: program.to_owned(),
            args: Vec::new(),
            envs: Vec::new(),
            current_dir: None,
        }
    }

    /// Append one argument.
    pub fn arg(&mut self, a: &str)
        ensures
            final(self).program == old(self).program,
            final(self).args.deep_view() == old(self).args.deep_view().push(a@),
            final(self).envs == old(self).envs,
            final(self).current_dir == old(self).current_dir,
    {
        self.args.push(a.to_owned());
        proof {
            assert(self.args.deep_view() =~= old(self).args.deep_view().push(a@));
        }
    }

    /// Append arguments in order.
    pub fn args(&mut self, list: &[&str])
        ensures
            final(self).program == old(self).program,
            final(self).args.deep_view() == old(self).args.deep_view() + list.deep_view(),
            final(self).envs == old(self).envs,
            final(self).current_dir == old(self).current_dir,
    {
        proof {
            assert(old(self).args.deep_view() + list.deep_view().take(0)
                =~= old(self).args.deep_view());
        }
        let mut i: usize = 0;
        while i < list.len()
            invariant
                i <= list@.len(),
                self.program == old(self).program,
                self.envs == old(self).envs,
                self.current_dir == old(self).current_dir,
                self.args.deep_view() == old(self).args.deep_view() + list.deep_view().take(
                    i as int,
                ),
            decreases list@.len() - i,
        {
            self.arg(list[i]);
            proof {
                assert((old(self).args.deep_view() + list.deep_view().take(i as int)).push(
                    list.deep_view()[i as int],
                ) =~= old(self).args.deep_view() + list.deep_view().take(i + 1));
            }
            i = i + 1;
        }
        proof {
            assert(list.deep_view().take(list@.len() as int) =~= list.deep_view());
        }
    }

    /// Add one environment override; a later entry for the same key wins.
    pub fn env(&mut self, key: &str, value: &str)
        ensures
            final(self).program == old(self).program,
            final(self).args == old(self).args,
            final(self).current_dir == old(self).current_dir,
            final(self).envs@.len() == old(self).envs@.len() + 1,
            final(self).envs@.last().0@ == key@,
            final(self).envs@.last().1@ == value@,
            forall|i: int|
                0 <= i < old(self).envs@.len() ==> final(self).envs@[i] == old(self).envs@[i],
    {
        self.envs.push((key.to_owned(), value.to_owned()));
    }

    /// Set the working directory the process starts in.
    pub fn current_dir(&mut self, dir: &str)
        ensures
            final(self).program == old(self).program,
            final(self).args == old(self).args,
            final(self).envs == old(self).envs,
            final(self).current_dir matches Some(d) && d@ == dir@,
    {
        self.current_dir = Some(dir.to_owned());
    }
}

} // verus!
