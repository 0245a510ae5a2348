//! Lock files: which Studio Pro project locks a dead process leaves behind may be removed,
//! and when the maintenance and runtime-stop locks are trusted and taken.
use vstd::prelude::*;
use crate::text::{has_suffix, utf8_len};

verus! {

/// The largest project lock file read.
pub const MAX_LOCK_BYTES: u64 = 512;
/// How deep below a project directory locks are looked for.
pub const MAX_PROJECT_TREE_DEPTH: usize = 8;
/// The most locks one cleanup removes.
pub const MAX_LOCKS_PER_CLEANUP: usize = 64;
/// The file name suffix of a project lock.
pub const LOCK_SUFFIX: &'static str = ".mpr.lock";

/// A project lock file's name: something followed by `.mpr.lock`.
pub open spec fn lock_file_name(name: Seq<char>) -> bool {
    utf8_len(name) > 9 && has_suffix(name, LOCK_SUFFIX@)
}

/// A direct project lock: a regular file, not a link, of at most 512 bytes, whose UTF-8
/// name is a lock file name.
pub open spec fn direct_lock_spec(is_file: bool, is_symlink: bool, length: u64, file_name: Option<Seq<char>>) -> bool {
    &&& is_file
    &&& !is_symlink
    &&& length <= MAX_LOCK_BYTES
    &&& file_name matches Some(name) && lock_file_name(name)
}

/// Whether a file is a direct project lock; `file_name` is `None` when the name is not
/// UTF-8.
pub fn is_direct_lock(is_file: bool, is_symlink: bool, length: u64, file_name: Option<&str>) -> (r: bool)
    ensures
        r == direct_lock_spec(is_file, is_symlink, length, match file_name {
            Some(n) => Some(n@),
            None => None,
        }),
{
    if !is_file || is_symlink || length > MAX_LOCK_BYTES {
        return false;
    }
    match file_name {
        Some(name) => {
            let chars = crate::text::to_chars(name);
            crate::text::utf8_length_within(&chars, 9).is_none() && crate::text::ends_with_str(&chars, LOCK_SUFFIX)
        },
        None => false,
    }
}

/// Whether a byte is an ASCII hexadecimal digit.
pub open spec fn hex_byte(b: u8) -> bool {
    (0x30 <= b <= 0x39) || (0x41 <= b <= 0x46) || (0x61 <= b <= 0x66)
}

/// A lock's session ID: a UUID in its 36-byte hyphenated form, hexadecimal digits in either
/// case with hyphens at 8, 13, 18 and 23.
pub open spec fn lock_session_id_valid(bytes: Seq<u8>) -> bool {
    &&& bytes.len() == 36
    &&& forall|i: int|
        0 <= i < 36 ==> if i == 8 || i == 13 || i == 18 || i == 23 {
            #[trigger] bytes[i] == 0x2du8
        } else {
            hex_byte(bytes[i])
        }
}

/// Whether a text is a lock's session ID.
pub fn valid_lock_session_id(value: &str) -> (r: bool)
    ensures
        r == lock_session_id_valid(vstd::utf8::encode_utf8(value@)),
{
    let bytes = value.as_bytes();
    if bytes.len() != 36 {
        return false;
    }
    let mut i: usize = 0;
    while i < 36
        invariant
            i <= 36,
            bytes@ == vstd::utf8::encode_utf8(value@),
            bytes@.len() == 36,
            forall|j: int|
                0 <= j < i ==> if j == 8 || j == 13 || j == 18 || j == 23 {
                    #[trigger] bytes@[j] == 0x2du8
                } else {
                    hex_byte(bytes@[j])
                },
        decreases 36 - i,
    {
        let b = bytes[i];
        let separator = i == 8 || i == 13 || i == 18 || i == 23;
        let ok = if separator {
            b == 0x2du8
        } else {
            (0x30u8 <= b && b <= 0x39u8) || (0x41u8 <= b && b <= 0x46u8) || (0x61u8 <= b && b <= 0x66u8)
        };
        if !ok {
            return false;
        }
        i = i + 1;
    }
    true
}

/// A Studio Pro project lock's content.
#[derive(Debug, Clone, PartialEq, Eq)]
pub struct ProjectLock {
    pub session_id: String,
    pub process_id: u32,
}

/// A lock may be removed for a dead process: it names that process and a well-formed
/// session ID.
pub fn lock_is_removable(lock: &ProjectLock, dead_process_id: u32) -> (r: bool)
    ensures
        r == (lock.process_id == dead_process_id && lock_session_id_valid(vstd::utf8::encode_utf8(lock.session_id@))),
{
    lock.process_id == dead_process_id && valid_lock_session_id(lock.session_id.as_str())
}

/// The count of locks one cleanup has removed, which stops at the limit.
pub struct LockCleanup {
    removed: usize,
}

impl LockCleanup {
    pub closed spec fn removed_spec(&self) -> nat {
        self.removed as nat
    }

    /// A cleanup that removed nothing yet.
    pub fn new() -> (r: Self)
        ensures
            r.removed_spec() == 0,
    {
        LockCleanup { removed: 0 }
    }

    /// Whether the cleanup may look at another file.
    pub fn may_continue(&self) -> (r: bool)
        ensures
            r == (self.removed_spec() < MAX_LOCKS_PER_CLEANUP),
    {
        self.removed < MAX_LOCKS_PER_CLEANUP
    }

    /// Counts a removed lock.
    pub fn record_removed(&mut self)
        requires
            old(self).removed_spec() < MAX_LOCKS_PER_CLEANUP,
        ensures
            final(self).removed_spec() == old(self).removed_spec() + 1,
    {
        self.removed = self.removed + 1;
    }

    /// How many locks were removed.
    pub fn removed(&self) -> (r: usize)
        ensures
            r == self.removed_spec(),
    {
        self.removed
    }
}

/// What is known of an opened maintenance lock file.
#[derive(Debug, Clone, Copy, PartialEq, Eq, Structural)]
pub struct LockFileFacts {
    pub is_file: bool,
    pub owned_by_caller: bool,
    pub link_count: u64,
    /// The file's permission bits.
    pub mode: u32,
}

/// The maintenance lock is trusted: a regular file, owned by the caller, with one link and
/// no permission for group or others.
pub open spec fn maintenance_lock_trusted(facts: LockFileFacts) -> bool {
    &&& facts.is_file
    &&& facts.owned_by_caller
    &&& facts.link_count == 1
    &&& facts.mode & 63u32 == 0
}

/// Whether the maintenance lock file is trusted.
pub fn check_maintenance_lock(facts: LockFileFacts) -> (r: bool)
    ensures
        r == maintenance_lock_trusted(facts),
{
    facts.is_file && facts.owned_by_caller && facts.link_count == 1 && facts.mode & 63u32 == 0
}

/// How long the runtime-stop lock is waited for, in milliseconds.
pub const STOP_LOCK_MAX_WAIT_MS: u64 = 3600000;
/// How often the runtime-stop lock is tried again, in milliseconds.
pub const STOP_LOCK_POLL_MS: u64 = 50;

/// What an attempt to take the runtime-stop lock gave.
#[derive(Debug, Clone, Copy, PartialEq, Eq, Structural)]
pub enum LockAttempt {
    Taken,
    /// Another process holds it.
    WouldBlock,
    Failed,
}

/// What to do after an attempt.
#[derive(Debug, Clone, Copy, PartialEq, Eq, Structural)]
pub enum StopLockStep {
    Acquired,
    GiveUp,
    /// Try again after this many milliseconds.
    Retry(u64),
}

/// The next step while waiting for the runtime-stop lock, at `now` with the wait ending at
/// `deadline` (both in milliseconds): a taken lock is kept, a failure or a passed deadline
/// gives up, and otherwise the next try is after the poll interval, or at the deadline when
/// that comes first.
pub fn stop_lock_step(attempt: LockAttempt, now: u64, deadline: u64) -> (r: StopLockStep)
    ensures
        attempt == LockAttempt::Taken ==> r == StopLockStep::Acquired,
        attempt == LockAttempt::Failed ==> r == StopLockStep::GiveUp,
        attempt == LockAttempt::WouldBlock ==> r == stop_lock_step_spec(now, deadline),
{
    match attempt {
        LockAttempt::Taken => StopLockStep::Acquired,
        LockAttempt::Failed => StopLockStep::GiveUp,
        LockAttempt::WouldBlock => {
            if now >= deadline {
                StopLockStep::GiveUp
            } else if deadline - now < STOP_LOCK_POLL_MS {
                StopLockStep::Retry(deadline - now)
            } else {
                StopLockStep::Retry(STOP_LOCK_POLL_MS)
            }
        },
    }
}

/// Waiting for the runtime-stop lock ends by the deadline: every retry is at most the poll
/// interval and never passes the deadline.
pub proof fn lemma_stop_lock_wait_is_bounded(now: u64, deadline: u64)
    ensures
        stop_lock_step_spec(now, deadline) matches StopLockStep::Retry(wait) ==> 0 < wait <= STOP_LOCK_POLL_MS && now + wait <= deadline,
{
}

/// The step after an attempt that found the lock held.
pub open spec fn stop_lock_step_spec(now: u64, deadline: u64) -> StopLockStep {
    if now >= deadline {
        StopLockStep::GiveUp
    } else if deadline - now < STOP_LOCK_POLL_MS {
        StopLockStep::Retry((deadline - now) as u64)
    } else {
        StopLockStep::Retry(STOP_LOCK_POLL_MS)
    }
}

} // verus!
