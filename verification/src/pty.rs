//! Terminal process abstraction: launch configuration, errors, the terminal
//! interface, and an in-memory binding that records what reaches the process.

use vstd::prelude::*;

verus! {

/// Resolved launch configuration for one terminal process.
pub struct PtyConfig {
    /// Program to run.
    pub command: String,
    /// Arguments handed to the program.
    pub args: Vec<String>,
    /// Initial width in character cells.
    pub cols: u16,
    /// Initial height in character cells.
    pub rows: u16,
    /// Environment handed to the process, ordered, last writer wins.
    pub env: Vec<(String, String)>,
    /// Working directory, when one is configured.
    pub cwd: Option<String>,
}

/// Failure of a terminal process operation.
#[derive(Debug)]
pub enum PtyError {
    /// Input/output fault, with its description.
    Io(String),
    /// The process could not be started.
    SpawnFailed(String),
    /// No terminal backend is available here.
    NotAvailable,
    /// The process has already terminated.
    ProcessTerminated,
    /// The terminal could not be resized.
    ResizeFailed(String),
    /// A lock guarding terminal state could not be taken.
    LockAcquisition(String),
    /// Resources could not be released.
    ResourceCleanup(String),
    /// A background task serving the terminal failed.
    BackgroundTask(String),
    /// An internal buffer overflowed.
    BufferOverflow,
    /// A channel between terminal tasks failed.
    ChannelCommunication(String),
    /// Any other terminal fault.
    Other(String),
}

/// Exit report of a terminal process.
#[derive(Clone, Copy, Debug, PartialEq, Eq, Structural)]
pub struct ExitStatus {
    /// Exit code of the process.
    pub code: i32,
}

/// One terminal-backed process.
///
/// The model of a terminal is the chunks written to the process input so far
/// (`writes`, in order), the output the process has produced that was not
/// read yet (`output`), whether the process is still running, and how often
/// `kill` was invoked. The in-memory binding below realizes the model;
/// process-backed bindings live with the surrounding application.
pub trait Pty: Sized {
    /// Internal consistency of the binding.
    spec fn inv(&self) -> bool;

    /// Chunks delivered to the process input, oldest first.
    spec fn writes(&self) -> Seq<Seq<u8>>;

    /// Output produced by the process and not yet read.
    spec fn output(&self) -> Seq<u8>;

    /// Whether the process is still running.
    spec fn alive(&self) -> bool;

    /// How many times `kill` has been invoked.
    spec fn kill_count(&self) -> nat;

    /// Deliver `data` to the process input. Writing succeeds exactly while
    /// the process runs, and appends exactly that chunk.
    fn write(&mut self, data: &[u8]) -> (r: Result<(), PtyError>)
        requires
            old(self).inv(),
        ensures
            final(self).inv(),
            r is Ok <==> old(self).alive(),
            r is Ok ==> final(self).writes() == old(self).writes().push(data@),
            r is Err ==> final(self).writes() == old(self).writes(),
            final(self).output() == old(self).output(),
            final(self).alive() == old(self).alive(),
            final(self).kill_count() == old(self).kill_count(),
    ;

    /// Whether output is available to read.
    fn has_output(&self) -> (r: bool)
        requires
            self.inv(),
        ensures
            r == (self.output().len() > 0),
    ;

    /// Read the next chunk of available output, at most `max` bytes, in the
    /// order the process produced it.
    fn read(&mut self, max: usize) -> (r: Vec<u8>)
        requires
            old(self).inv(),
            old(self).output().len() > 0,
            max > 0,
        ensures
            final(self).inv(),
            r@.len() == (if max < old(self).output().len() {
                max as int
            } else {
                old(self).output().len() as int
            }),
            r@ == old(self).output().take(r@.len() as int),
            final(self).output() == old(self).output().skip(r@.len() as int),
            r@.len() > 0,
            final(self).writes() == old(self).writes(),
            final(self).alive() == old(self).alive(),
            final(self).kill_count() == old(self).kill_count(),
    ;

    /// Resize the terminal; a best effort, and a no-op success where the
    /// backend cannot resize.
    fn resize(&mut self, cols: u16, rows: u16) -> (r: Result<(), PtyError>)
        requires
            old(self).inv(),
        ensures
            final(self).inv(),
            final(self).writes() == old(self).writes(),
            final(self).output() == old(self).output(),
            final(self).alive() == old(self).alive(),
            final(self).kill_count() == old(self).kill_count(),
    ;

    /// Whether the process is still running.
    fn is_alive(&self) -> (r: bool)
        requires
            self.inv(),
        ensures
            r == self.alive(),
    ;

    /// Poll, without blocking, whether the process has exited.
    fn try_wait(&mut self) -> (r: Result<Option<ExitStatus>, PtyError>)
        requires
            old(self).inv(),
        ensures
            final(self).inv(),
            r is Ok ==> ((r.unwrap() is Some) <==> !final(self).alive()),
            final(self).alive() ==> old(self).alive(),
            final(self).writes() == old(self).writes(),
            final(self).output() == old(self).output(),
            final(self).kill_count() == old(self).kill_count(),
    ;

    /// Stop the process. Killing an already-exited process succeeds.
    fn kill(&mut self) -> (r: Result<(), PtyError>)
        requires
            old(self).inv(),
        ensures
            final(self).inv(),
            r is Ok,
            !final(self).alive(),
            final(self).kill_count() == (if old(self).kill_count() < u64::MAX {
                old(self).kill_count() + 1
            } else {
                old(self).kill_count()
            }),
            final(self).writes() == old(self).writes(),
            final(self).output() == old(self).output(),
    ;
}

/// In-memory terminal: records every chunk written to the process input and
/// serves queued output. It is the verified binding of [`Pty`] and stands in
/// for a process in proofs and tests.
pub struct MockPty {
    /// Chunks written to the process input, oldest first.
    pub written: Vec<Vec<u8>>,
    /// Queued process output not yet read.
    pub output_buf: Vec<u8>,
    /// Whether the simulated process is still running.
    pub alive_flag: bool,
    /// How many times kill has been invoked.
    pub kill_calls: u64,
    /// Current width in character cells.
    pub cols: u16,
    /// Current height in character cells.
    pub rows: u16,
}

impl MockPty {
    /// A fresh running terminal with nothing written and no output queued.
    pub fn new() -> (r: MockPty)
        ensures
            r.inv(),
            r.writes() == Seq::<Seq<u8>>::empty(),
            r.output() == Seq::<u8>::empty(),
            r.alive(),
            r.kill_count() == 0,
    {
        let r = MockPty {
            written: Vec::new(),
            output_buf: Vec::new(),
            alive_flag: true,
            kill_calls: 0,
            cols: 80,
            rows: 24,
        };
        proof {
            assert(r.writes() =~= Seq::<Seq<u8>>::empty());
        }
        r
    }

    /// Queue `data` as output of the simulated process.
    pub fn push_output(&mut self, data: &[u8])
        requires
            old(self).inv(),
        ensures
            final(self).inv(),
            final(self).output() == old(self).output() + data@,
            final(self).writes() == old(self).writes(),
            final(self).alive() == old(self).alive(),
            final(self).kill_count() == old(self).kill_count(),
    {
        let n = data.len();
        let mut i: usize = 0;
        while i < n
            invariant
                0 <= i <= n,
                n == data@.len(),
                self.output_buf@ =~= old(self).output_buf@ + data@.take(i as int),
                self.written == old(self).written,
                self.alive_flag == old(self).alive_flag,
                self.kill_calls == old(self).kill_calls,
            decreases n - i,
        {
            self.output_buf.push(data[i]);
            i += 1;
        }
        proof {
            assert(data@.take(n as int) =~= data@);
        }
    }

    /// Simulate the process exiting on its own: it stops running and its
    /// output stream ends once the queued output is drained.
    pub fn terminate(&mut self)
        requires
            old(self).inv(),
        ensures
            final(self).inv(),
            !final(self).alive(),
            final(self).writes() == old(self).writes(),
            final(self).output() == old(self).output(),
            final(self).kill_count() == old(self).kill_count(),
    {
        self.alive_flag = false;
    }
}

impl Pty for MockPty {
    open spec fn inv(&self) -> bool {
        true
    }

    open spec fn writes(&self) -> Seq<Seq<u8>> {
        self.written@.map_values(|w: Vec<u8>| w@)
    }

    open spec fn output(&self) -> Seq<u8> {
        self.output_buf@
    }

    open spec fn alive(&self) -> bool {
        self.alive_flag
    }

    open spec fn kill_count(&self) -> nat {
        self.kill_calls as nat
    }

    fn write(&mut self, data: &[u8]) -> (r: Result<(), PtyError>) {
        if !self.alive_flag {
            return Err(PtyError::ProcessTerminated);
        }
        let ghost writes_old = self.writes();
        self.written.push(vstd::slice::slice_to_vec(data));
        proof {
            assert(self.writes() =~= writes_old.push(data@));
        }
        Ok(())
    }

    fn has_output(&self) -> (r: bool) {
        self.output_buf.len() > 0
    }

    fn read(&mut self, max: usize) -> (r: Vec<u8>) {
        let len = self.output_buf.len();
        let n = if max < len {
            max
        } else {
            len
        };
        let mut chunk: Vec<u8> = Vec::new();
        let mut i: usize = 0;
        while i < n
            invariant
                0 <= i <= n,
                n <= self.output_buf@.len(),
                chunk@ =~= self.output_buf@.take(i as int),
                *self == *old(self),
            decreases n - i,
        {
            chunk.push(self.output_buf[i]);
            i += 1;
        }
        let mut rest: Vec<u8> = Vec::new();
        let mut j: usize = n;
        let total = self.output_buf.len();
        while j < total
            invariant
                n <= j <= total,
                total == self.output_buf@.len(),
                rest@ =~= self.output_buf@.subrange(n as int, j as int),
                *self == *old(self),
            decreases total - j,
        {
            rest.push(self.output_buf[j]);
            j += 1;
        }
        proof {
            assert(rest@ =~= old(self).output_buf@.skip(n as int));
        }
        self.output_buf = rest;
        chunk
    }

    fn resize(&mut self, cols: u16, rows: u16) -> (r: Result<(), PtyError>) {
        self.cols = cols;
        self.rows = rows;
        Ok(())
    }

    fn is_alive(&self) -> (r: bool) {
        self.alive_flag
    }

    fn try_wait(&mut self) -> (r: Result<Option<ExitStatus>, PtyError>) {
        if self.alive_flag {
            Ok(None)
        } else {
            Ok(Some(ExitStatus { code: 0 }))
        }
    }

    fn kill(&mut self) -> (r: Result<(), PtyError>) {
        self.alive_flag = false;
        if self.kill_calls < u64::MAX {
            self.kill_calls = self.kill_calls + 1;
        }
        Ok(())
    }
}

/// Factory tag for the native pseudo-terminal backend the application wires
/// up: the child sees a real terminal device.
pub struct PortablePtyFactory;

impl PortablePtyFactory {
    /// Name of this backend.
    pub fn name(&self) -> (r: &'static str)
        ensures
            r@ == "portable-pty"@,
    {
        "portable-pty"
    }
}

/// Factory tag for the pipe-backed fallback: plain process stdio, with
/// resize accepted as a no-op.
pub struct TokioProcessPtyFactory;

impl TokioProcessPtyFactory {
    /// Name of this backend.
    pub fn name(&self) -> (r: &'static str)
        ensures
            r@ == "tokio-process-pty"@,
    {
        "tokio-process-pty"
    }
}

} // verus!
