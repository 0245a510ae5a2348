//! Bounded external commands: their limits, the capture of their output within a byte
//! limit, and how the way a command ended is reported.
//!
//! Spawning, signalling and reaping the process tree are the caller's; the functions here
//! decide what is kept and what is reported.
use vstd::prelude::*;
use crate::diagnostics::CommandFailureKind;
use crate::text::{push_str, string_from, to_chars};

verus! {

pub const DEFAULT_TERMINATION_GRACE_MS: u64 = 250;
pub const PIPE_DRAIN_TIMEOUT_MS: u64 = 2000;
pub const PROBE_TIMEOUT_MS: u64 = 2000;
pub const PROBE_OUTPUT_LIMIT: usize = 65536;
pub const STATUS_TIMEOUT_MS: u64 = 5000;
pub const STATUS_OUTPUT_LIMIT: usize = 262144;

/// How long a command may run, how much of each output stream is kept, and how long a
/// terminated command is given before it is killed.
#[derive(Debug, Clone, Copy, PartialEq, Eq, Structural)]
pub struct CommandPolicy {
    pub timeout_ms: u64,
    pub output_limit: usize,
    pub termination_grace_ms: u64,
}

impl CommandPolicy {
    pub fn new(timeout_ms: u64, output_limit: usize) -> (policy: CommandPolicy)
        ensures
            policy == (CommandPolicy { timeout_ms, output_limit, termination_grace_ms: DEFAULT_TERMINATION_GRACE_MS }),
    {
        CommandPolicy { timeout_ms, output_limit, termination_grace_ms: DEFAULT_TERMINATION_GRACE_MS }
    }

    /// The policy of a quick tool probe: two seconds and 64 KiB.
    pub fn probe() -> (policy: CommandPolicy)
        ensures
            policy == CommandPolicy::new_spec(PROBE_TIMEOUT_MS, PROBE_OUTPUT_LIMIT),
    {
        CommandPolicy::new(PROBE_TIMEOUT_MS, PROBE_OUTPUT_LIMIT)
    }

    /// The policy of a status query: five seconds and 256 KiB.
    pub fn status() -> (policy: CommandPolicy)
        ensures
            policy == CommandPolicy::new_spec(STATUS_TIMEOUT_MS, STATUS_OUTPUT_LIMIT),
    {
        CommandPolicy::new(STATUS_TIMEOUT_MS, STATUS_OUTPUT_LIMIT)
    }

    pub open spec fn new_spec(timeout_ms: u64, output_limit: usize) -> CommandPolicy {
        CommandPolicy { timeout_ms, output_limit, termination_grace_ms: DEFAULT_TERMINATION_GRACE_MS }
    }

    /// The same policy with another termination grace.
    pub fn with_termination_grace(self, termination_grace_ms: u64) -> (policy: CommandPolicy)
        ensures
            policy == (CommandPolicy { termination_grace_ms, ..self }),
    {
        CommandPolicy { termination_grace_ms, ..self }
    }

    /// How long to wait for the process after a kill: the grace, but at least 100 ms.
    pub fn kill_wait_ms(self) -> (ms: u64)
        ensures
            ms == (if self.termination_grace_ms < 100 { 100 } else { self.termination_grace_ms }),
    {
        if self.termination_grace_ms < 100 { 100 } else { self.termination_grace_ms }
    }
}

/// The output of one stream kept within a byte limit.
#[derive(Debug)]
pub struct CapturedStream {
    pub bytes: Vec<u8>,
    pub truncated: bool,
    pub limit: usize,
}

/// What a stream keeps of everything it received: the first `limit` bytes.
pub open spec fn kept_prefix(received: Seq<u8>, limit: usize) -> Seq<u8> {
    if received.len() <= limit { received } else { received.take(limit as int) }
}

impl CapturedStream {
    pub fn new(limit: usize) -> (stream: CapturedStream)
        ensures
            stream.bytes@ == Seq::<u8>::empty(),
            !stream.truncated,
            stream.limit == limit,
    {
        CapturedStream { bytes: Vec::new(), truncated: false, limit }
    }

    /// Takes one chunk read from the stream: keeps what still fits under the limit and
    /// marks the capture truncated when some of the chunk did not fit.
    pub fn accept(&mut self, chunk: &[u8])
        requires
            old(self).bytes@.len() <= old(self).limit,
        ensures
            final(self).limit == old(self).limit,
            final(self).bytes@ == (old(self).bytes@ + chunk@).take(
                if old(self).bytes@.len() + chunk@.len() <= old(self).limit { (old(self).bytes@.len() + chunk@.len()) as int }
                else { old(self).limit as int }),
            final(self).truncated == (old(self).truncated || old(self).bytes@.len() + chunk@.len() > old(self).limit),
            final(self).bytes@.len() <= final(self).limit,
    {
        let remaining = self.limit - self.bytes.len();
        let kept = if remaining < chunk.len() { remaining } else { chunk.len() };
        let ghost before = self.bytes@;
        let mut i: usize = 0;
        while i < kept
            invariant
                kept <= chunk@.len(),
                i <= kept,
                self.bytes@ == before + chunk@.take(i as int),
                self.limit == old(self).limit,
                self.truncated == old(self).truncated,
            decreases kept - i,
        {
            self.bytes.push(chunk[i]);
            assert(chunk@.take(i as int).push(chunk@[i as int]) =~= chunk@.take(i + 1));
            i = i + 1;
        }
        proof {
            assert(before + chunk@.take(kept as int) =~= (before + chunk@).take(before.len() + kept));
        }
        if kept < chunk.len() {
            self.truncated = true;
        }
    }
}

/// Feeding a capture chunk after chunk keeps exactly the first `limit` bytes of all it
/// received, and marks it truncated exactly when more than `limit` bytes arrived.
pub proof fn lemma_capture_keeps_the_first_bytes(received: Seq<u8>, chunk: Seq<u8>, limit: usize, bytes: Seq<u8>, truncated: bool)
    requires
        bytes == kept_prefix(received, limit),
        truncated == (received.len() > limit),
    ensures
        (bytes + chunk).take(if bytes.len() + chunk.len() <= limit { (bytes.len() + chunk.len()) as int } else { limit as int })
            == kept_prefix(received + chunk, limit),
        (truncated || bytes.len() + chunk.len() > limit) == ((received + chunk).len() > limit),
{
    let all = received + chunk;
    if received.len() <= limit {
        assert(bytes == received);
        if all.len() <= limit {
            assert((bytes + chunk).take(all.len() as int) =~= all);
        } else {
            assert((bytes + chunk).take(limit as int) =~= all.take(limit as int));
        }
    } else {
        assert(bytes.len() == limit);
        assert((bytes + chunk).take(limit as int) =~= all.take(limit as int));
    }
}

/// Everything the chunks hold, one after another.
pub open spec fn joined(chunks: Seq<Seq<u8>>) -> Seq<u8>
    decreases chunks.len(),
{
    if chunks.len() == 0 {
        Seq::empty()
    } else {
        joined(chunks.drop_last()) + chunks.last()
    }
}

/// The bytes of each chunk.
pub open spec fn chunk_views(chunks: Seq<Vec<u8>>) -> Seq<Seq<u8>> {
    chunks.map_values(|c: Vec<u8>| c@)
}

/// Captures a whole stream read as the given chunks, in order: the capture keeps exactly
/// the first `limit` bytes of everything the stream gave, and is truncated exactly when it
/// gave more.
pub fn capture_all(chunks: &Vec<Vec<u8>>, limit: usize) -> (stream: CapturedStream)
    ensures
        stream.limit == limit,
        stream.bytes@ == kept_prefix(joined(chunk_views(chunks@)), limit),
        stream.truncated == (joined(chunk_views(chunks@)).len() > limit),
{
    let mut stream = CapturedStream::new(limit);
    let mut i: usize = 0;
    assert(chunk_views(chunks@).take(0) =~= Seq::<Seq<u8>>::empty());
    while i < chunks.len()
        invariant
            i <= chunks@.len(),
            stream.limit == limit,
            stream.bytes@.len() <= limit,
            stream.bytes@ == kept_prefix(joined(chunk_views(chunks@).take(i as int)), limit),
            stream.truncated == (joined(chunk_views(chunks@).take(i as int)).len() > limit),
        decreases chunks@.len() - i,
    {
        let ghost received = joined(chunk_views(chunks@).take(i as int));
        let ghost bytes = stream.bytes@;
        let ghost truncated = stream.truncated;
        proof {
            lemma_capture_keeps_the_first_bytes(received, chunks@[i as int]@, limit, bytes, truncated);
            let next = chunk_views(chunks@).take(i + 1);
            assert(next.drop_last() =~= chunk_views(chunks@).take(i as int));
            assert(next.last() == chunks@[i as int]@);
        }
        stream.accept(&chunks[i]);
        i = i + 1;
    }
    assert(chunk_views(chunks@).take(chunks@.len() as int) =~= chunk_views(chunks@));
    stream
}

/// How a command ended before its output was collected.
#[derive(Debug, Clone, Copy, PartialEq, Eq, Structural)]
pub enum Completion {
    /// It exited and its exit status was read.
    Exited,
    /// Waiting for it failed.
    WaitFailed,
    /// Its deadline passed.
    TimedOut,
    /// The caller cancelled it.
    Cancelled,
}

/// How collecting the output of an exited command ended.
#[derive(Debug, Clone, Copy, PartialEq, Eq, Structural)]
pub enum Drain {
    Collected,
    /// An output reader failed.
    ReaderFailed,
    /// The readers did not finish within the drain timeout.
    TimedOut,
}

/// The failure a command's end is reported as, if it failed: the process tree is
/// terminated and reaped before any of these is reported.
pub open spec fn completion_failure_spec(completion: Completion) -> Option<CommandFailureKind> {
    match completion {
        Completion::Exited => None,
        Completion::WaitFailed => Some(CommandFailureKind::Wait),
        Completion::TimedOut => Some(CommandFailureKind::Timeout),
        Completion::Cancelled => Some(CommandFailureKind::Cancelled),
    }
}

pub fn completion_failure(completion: Completion) -> (kind: Option<CommandFailureKind>)
    ensures
        kind == completion_failure_spec(completion),
{
    match completion {
        Completion::Exited => None,
        Completion::WaitFailed => Some(CommandFailureKind::Wait),
        Completion::TimedOut => Some(CommandFailureKind::Timeout),
        Completion::Cancelled => Some(CommandFailureKind::Cancelled),
    }
}

/// The failure collecting the output is reported as, if it failed.
pub open spec fn drain_failure_spec(drain: Drain) -> Option<CommandFailureKind> {
    match drain {
        Drain::Collected => None,
        Drain::ReaderFailed => Some(CommandFailureKind::Wait),
        Drain::TimedOut => Some(CommandFailureKind::Cleanup),
    }
}

pub fn drain_failure(drain: Drain) -> (kind: Option<CommandFailureKind>)
    ensures
        kind == drain_failure_spec(drain),
{
    match drain {
        Drain::Collected => None,
        Drain::ReaderFailed => Some(CommandFailureKind::Wait),
        Drain::TimedOut => Some(CommandFailureKind::Cleanup),
    }
}

/// A command that could not be run to its end.
#[derive(Debug)]
pub struct CommandFailure {
    pub kind: CommandFailureKind,
    pub operation: String,
    /// The text of the operating system error behind it, if any.
    pub source: Option<String>,
}

pub open spec fn failure_reason(kind: CommandFailureKind) -> Seq<char> {
    match kind {
        CommandFailureKind::Spawn => "could not be started"@,
        CommandFailureKind::Wait => "could not be observed"@,
        CommandFailureKind::Timeout => "reached its deadline"@,
        CommandFailureKind::Cancelled => "was cancelled"@,
        CommandFailureKind::Cleanup => "could not be fully cleaned up"@,
    }
}

fn failure_reason_text(kind: CommandFailureKind) -> (r: &'static str)
    ensures
        r@ == failure_reason(kind),
{
    match kind {
        CommandFailureKind::Spawn => "could not be started",
        CommandFailureKind::Wait => "could not be observed",
        CommandFailureKind::Timeout => "reached its deadline",
        CommandFailureKind::Cancelled => "was cancelled",
        CommandFailureKind::Cleanup => "could not be fully cleaned up",
    }
}

impl CommandFailure {
    pub fn new(kind: CommandFailureKind, operation: &str, source: Option<String>) -> (failure: CommandFailure)
        ensures
            failure.kind == kind,
            failure.operation@ == operation@,
            failure.source == source,
    {
        CommandFailure { kind, operation: crate::text::string_of(operation), source }
    }

    /// The failure as text: the operation, what went wrong, and the source error if any.
    pub fn message(&self) -> (text: String)
        ensures
            text@ == self.operation@ + " "@ + failure_reason(self.kind) + (match self.source {
                Some(s) => ": "@ + s@,
                None => Seq::empty(),
            }),
    {
        let mut out = to_chars(&self.operation);
        push_str(&mut out, " ");
        push_str(&mut out, failure_reason_text(self.kind));
        match &self.source {
            Some(source) => {
                push_str(&mut out, ": ");
                push_str(&mut out, source);
            },
            None => {
                assert(out@ + Seq::<char>::empty() =~= out@);
            },
        }
        string_from(&out)
    }
}

} // verus!
