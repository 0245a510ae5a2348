//! A bounded scan of the shared workspace for Mendix projects.
//!
//! The walk over the directory tree, the metadata reads and the settings reads are done by
//! the caller; this module decides, entry by entry, what is visited, what is skipped, what
//! is reported and when the scan stops, and orders what was found.
use vstd::prelude::*;
use crate::text::{decimal, decimal_chars, push_all, push_str, string_from, to_chars};
use crate::projects::{has_mpr_extension, mpr_extension_spec, MendixProject};
use crate::outside::{lowercase, spec_lowercase};

verus! {

pub const MAX_WORKSPACE_DEPTH: usize = 8;
pub const MAX_SETTINGS_BYTES: u64 = 262144;
pub const MAX_TOTAL_SETTINGS_BYTES: u64 = 16777216;
pub const MAX_SCAN_ENTRIES: usize = 100000;
pub const MAX_PROJECTS: usize = 10000;
pub const MAX_SCAN_ERRORS: usize = 32;
pub const MAX_SCAN_DURATION_MS: u64 = 5000;
/// The clock is consulted once every this many visited entries.
pub const DURATION_CHECK_INTERVAL: usize = 128;
pub const SETTINGS_FILE_NAME: &'static str = "project-settings.user.json";

/// The bounds of one scan. The duration is a whole number of milliseconds.
#[derive(Debug, Clone, Copy, PartialEq, Eq, Structural)]
pub struct ScanLimits {
    pub max_entries: usize,
    pub max_projects: usize,
    pub max_settings_bytes: u64,
    pub max_total_settings_bytes: u64,
    pub max_duration_ms: u64,
}

impl ScanLimits {
    /// The counters of a scan under these limits fit their machine types.
    pub open spec fn fits(self) -> bool {
        &&& self.max_entries < usize::MAX
        &&& self.max_total_settings_bytes + self.max_settings_bytes <= u64::MAX
    }

    /// The limits every workspace scan runs under.
    pub fn standard() -> (limits: ScanLimits)
        ensures
            limits == (ScanLimits {
                max_entries: MAX_SCAN_ENTRIES,
                max_projects: MAX_PROJECTS,
                max_settings_bytes: MAX_SETTINGS_BYTES,
                max_total_settings_bytes: MAX_TOTAL_SETTINGS_BYTES,
                max_duration_ms: MAX_SCAN_DURATION_MS,
            }),
            limits.fits(),
    {
        ScanLimits {
            max_entries: MAX_SCAN_ENTRIES,
            max_projects: MAX_PROJECTS,
            max_settings_bytes: MAX_SETTINGS_BYTES,
            max_total_settings_bytes: MAX_TOTAL_SETTINGS_BYTES,
            max_duration_ms: MAX_SCAN_DURATION_MS,
        }
    }
}

/// What a scan counted, kept and read.
#[derive(Debug)]
pub struct ScanReport {
    pub skipped_entries: usize,
    pub error_count: usize,
    pub errors: Vec<String>,
    pub settings_bytes_read: u64,
    pub truncated: bool,
}

/// The texts of a report's error messages.
pub open spec fn error_texts(errors: Seq<String>) -> Seq<Seq<char>> {
    errors.map_values(|e: String| e@)
}

/// How many messages a report keeps of `count` errors: the first `MAX_SCAN_ERRORS`.
pub open spec fn kept_len(count: nat) -> nat {
    if count < MAX_SCAN_ERRORS { count } else { MAX_SCAN_ERRORS as nat }
}

/// How many messages a report keeps after one more error, having kept `n`.
pub open spec fn kept_count(n: nat) -> nat {
    if n < MAX_SCAN_ERRORS { n + 1 } else { n }
}

/// The messages a report keeps after one more error: the first `MAX_SCAN_ERRORS` only.
pub open spec fn kept_errors(errors: Seq<Seq<char>>, message: Seq<char>) -> Seq<Seq<char>> {
    if errors.len() < MAX_SCAN_ERRORS { errors.push(message) } else { errors }
}

impl ScanReport {
    pub fn new() -> (report: ScanReport)
        ensures
            report.skipped_entries == 0,
            report.error_count == 0,
            report.errors@.len() == 0,
            report.settings_bytes_read == 0,
            !report.truncated,
    {
        ScanReport {
            skipped_entries: 0,
            error_count: 0,
            errors: Vec::new(),
            settings_bytes_read: 0,
            truncated: false,
        }
    }

    /// Counts an error and keeps its message while fewer than `MAX_SCAN_ERRORS` are kept.
    pub fn push_error(&mut self, message: String)
        requires
            old(self).error_count < usize::MAX,
        ensures
            final(self).error_count == old(self).error_count + 1,
            error_texts(final(self).errors@) == kept_errors(error_texts(old(self).errors@), message@),
            final(self).errors@.len() == kept_count(old(self).errors@.len()),
            final(self).skipped_entries == old(self).skipped_entries,
            final(self).settings_bytes_read == old(self).settings_bytes_read,
            final(self).truncated == old(self).truncated,
    {
        self.error_count = self.error_count + 1;
        if self.errors.len() < MAX_SCAN_ERRORS {
            self.errors.push(message);
        }
        assert(error_texts(self.errors@) =~= kept_errors(error_texts(old(self).errors@), message@));
    }

    /// Counts a skipped entry and its error.
    fn skip_with(&mut self, message: String)
        requires
            old(self).error_count < usize::MAX,
            old(self).skipped_entries < usize::MAX,
        ensures
            final(self).error_count == old(self).error_count + 1,
            error_texts(final(self).errors@) == kept_errors(error_texts(old(self).errors@), message@),
            final(self).errors@.len() == kept_count(old(self).errors@.len()),
            final(self).skipped_entries == old(self).skipped_entries + 1,
            final(self).settings_bytes_read == old(self).settings_bytes_read,
            final(self).truncated == old(self).truncated,
    {
        self.skipped_entries = self.skipped_entries + 1;
        self.push_error(message);
    }
}

/// `label`, a colon, a space and `detail`.
pub open spec fn labelled(label: Seq<char>, detail: Seq<char>) -> Seq<char> {
    label + ": "@ + detail
}

fn labelled_message(label: &str, detail: &[char]) -> (message: String)
    ensures
        message@ == labelled(label@, detail@),
{
    let mut out = to_chars(label);
    push_str(&mut out, ": ");
    push_all(&mut out, detail);
    string_from(&out)
}

/// What the file system says of a project's settings file before it is read.
pub enum SettingsProbe {
    /// There is no settings file.
    Missing,
    /// The metadata could not be read; the error's text.
    Unreadable(String),
    /// It is a symbolic link, a directory or a special file.
    NotRegularFile,
    /// A regular file of this many bytes.
    Regular(u64),
}

/// What reading at most one byte more than the limit gave.
pub enum SettingsRead {
    /// The read failed; the error's text.
    Failed(String),
    /// This many bytes were read; the JSON parse of them gave either its error's text or,
    /// when `settingsParts` is an array, the string `type` of each part that has one.
    Read { length: u64, parsed: Result<Option<Vec<String>>, String> },
}

/// The error a settings probe is reported with, if any, and whether the file is then read.
pub open spec fn probe_error(label: Seq<char>, probe: SettingsProbe, maximum: u64) -> Option<Seq<char>> {
    match probe {
        SettingsProbe::Missing => None,
        SettingsProbe::Unreadable(e) => Some(labelled(label, e@)),
        SettingsProbe::NotRegularFile => Some(labelled(label, "project settings must be a regular file"@)),
        SettingsProbe::Regular(length) => if length > maximum {
            Some(labelled(label, "project settings exceed "@ + decimal(maximum as nat) + " bytes"@))
        } else {
            None
        },
    }
}

/// Whether the settings file is read after this probe.
pub open spec fn probe_reads(probe: SettingsProbe, maximum: u64) -> bool {
    probe matches SettingsProbe::Regular(length) && length <= maximum
}

/// Decides on a settings probe: reports it when it rules the file out, and says whether the
/// file is to be read with at most `maximum + 1` bytes.
pub fn settings_read_allowed(label: &str, probe: SettingsProbe, maximum: u64, report: &mut ScanReport) -> (read: bool)
    requires
        old(report).error_count < usize::MAX,
        old(report).skipped_entries < usize::MAX,
    ensures
        read == probe_reads(probe, maximum),
        match probe_error(label@, probe, maximum) {
            Some(message) => final(report).skipped_entries == old(report).skipped_entries + 1
                && final(report).error_count == old(report).error_count + 1
                && error_texts(final(report).errors@) == kept_errors(error_texts(old(report).errors@), message)
                && final(report).errors@.len() == kept_count(old(report).errors@.len()),
            None => final(report).skipped_entries == old(report).skipped_entries
                && final(report).error_count == old(report).error_count
                && final(report).errors@ == old(report).errors@,
        },
        final(report).settings_bytes_read == old(report).settings_bytes_read,
        final(report).truncated == old(report).truncated,
{
    match probe {
        SettingsProbe::Missing => false,
        SettingsProbe::Unreadable(error) => {
            let detail = to_chars(&error);
            report.skip_with(labelled_message(label, &detail));
            false
        },
        SettingsProbe::NotRegularFile => {
            let detail = to_chars("project settings must be a regular file");
            report.skip_with(labelled_message(label, &detail));
            false
        },
        SettingsProbe::Regular(length) => {
            if length > maximum {
                let mut detail = to_chars("project settings exceed ");
                let digits = decimal_chars(maximum);
                push_all(&mut detail, &digits);
                push_str(&mut detail, " bytes");
                report.skip_with(labelled_message(label, &detail));
                false
            } else {
                true
            }
        },
    }
}


/// The version a settings read gives: the one distinct version of its part types when it
/// parsed, else nothing.
pub open spec fn read_version(read: SettingsRead, maximum: u64) -> Option<Seq<char>> {
    match read {
        SettingsRead::Read { length, parsed: Ok(Some(types)) } => if length <= maximum {
            crate::projects::distinct_version_spec(types@.map_values(|t: String| t@))
        } else {
            None
        },
        _ => None,
    }
}

/// The bytes a settings read counts against the scan: its length when it was within the
/// limit, else nothing.
pub open spec fn read_bytes(read: SettingsRead, maximum: u64) -> u64 {
    match read {
        SettingsRead::Read { length, .. } => if length <= maximum { length } else { 0 },
        SettingsRead::Failed(_) => 0,
    }
}

/// The error a settings read is reported with, if any.
pub open spec fn read_error(label: Seq<char>, read: SettingsRead, maximum: u64) -> Option<Seq<char>> {
    match read {
        SettingsRead::Failed(e) => Some(labelled(label, e@)),
        SettingsRead::Read { length, parsed } => if length > maximum {
            Some(labelled(label, "project settings changed past the safe size limit"@))
        } else {
            match parsed {
                Err(e) => Some(labelled(label, e@)),
                Ok(_) => None,
            }
        },
    }
}

/// Decides on what reading a settings file gave: the project's version and the bytes that
/// count as read, reporting a failed read, a file that grew past the limit, or JSON that
/// does not parse.
pub fn settings_version(label: &str, read: SettingsRead, maximum: u64, report: &mut ScanReport) -> (outcome: (Option<String>, u64))
    requires
        old(report).error_count < usize::MAX,
        old(report).skipped_entries < usize::MAX,
    ensures
        match read_version(read, maximum) {
            Some(v) => outcome.0 matches Some(x) && x@ == v,
            None => outcome.0 is None,
        },
        outcome.1 == read_bytes(read, maximum),
        outcome.1 <= maximum,
        match read_error(label@, read, maximum) {
            Some(message) => final(report).skipped_entries == old(report).skipped_entries + 1
                && final(report).error_count == old(report).error_count + 1
                && error_texts(final(report).errors@) == kept_errors(error_texts(old(report).errors@), message)
                && final(report).errors@.len() == kept_count(old(report).errors@.len()),
            None => final(report).skipped_entries == old(report).skipped_entries
                && final(report).error_count == old(report).error_count
                && final(report).errors@ == old(report).errors@,
        },
        final(report).settings_bytes_read == old(report).settings_bytes_read,
        final(report).truncated == old(report).truncated,
{
    match read {
        SettingsRead::Failed(error) => {
            let detail = to_chars(&error);
            report.skip_with(labelled_message(label, &detail));
            (None, 0)
        },
        SettingsRead::Read { length, parsed } => {
            if length > maximum {
                let detail = to_chars("project settings changed past the safe size limit");
                report.skip_with(labelled_message(label, &detail));
                return (None, 0);
            }
            match parsed {
                Err(error) => {
                    let detail = to_chars(&error);
                    report.skip_with(labelled_message(label, &detail));
                    (None, length)
                },
                Ok(None) => (None, length),
                Ok(Some(types)) => (crate::projects::distinct_project_version(&types), length),
            }
        },
    }
}


/// One entry the directory walk handed out.
pub enum WalkEntry {
    /// The walk failed here; the error's text.
    Failed(String),
    /// An entry, whether it is a regular file, and its path.
    Found { is_file: bool, path: String },
}

/// What the scan makes of the next entry of the walk.
#[derive(Debug, Clone, Copy, PartialEq, Eq, Structural)]
pub enum Admission {
    /// The caller cancelled the scan.
    Cancelled,
    /// As many entries as the limit allows were visited.
    EntryLimit,
    /// The time limit passed.
    DurationLimit,
    /// The walk failed at this entry; it is skipped and reported.
    WalkError,
    /// Not a project file; passed over.
    NotProject,
    /// As many projects as the limit allows were found.
    ProjectLimit,
    /// A project file, to be inspected.
    Project,
}

impl Admission {
    pub open spec fn stops(self) -> bool {
        self is Cancelled || self is EntryLimit || self is DurationLimit || self is ProjectLimit
    }
}

/// Where a scan stands between two calls.
#[derive(Debug, Clone, Copy, PartialEq, Eq, Structural)]
pub enum ScanPhase {
    /// Waiting for the next entry of the walk.
    Ready,
    /// A project entry was admitted; whether it was already skipped for an error.
    Inspecting { skipped: bool },
    /// The scan stopped before the walk ended.
    Stopped,
}

/// A project found by the scan, with the keys it is ordered by.
#[derive(Debug)]
pub struct FoundProject {
    /// When the project file was last modified, in nanoseconds from the Unix epoch.
    pub modified_ns: i128,
    /// The project's name, lower-cased.
    pub sort_name: String,
    pub project: MendixProject,
}

/// A workspace scan in progress.
#[derive(Debug)]
pub struct WorkspaceScan {
    pub limits: ScanLimits,
    pub visited_entries: usize,
    pub report: ScanReport,
    pub found: Vec<FoundProject>,
    pub phase: ScanPhase,
}

/// The number of entries visited once the next one is admitted.
pub open spec fn entry_message(limits: ScanLimits) -> Seq<char> {
    "workspace scan stopped after "@ + decimal(limits.max_entries as nat) + " entries"@
}

pub open spec fn duration_message(limits: ScanLimits) -> Seq<char> {
    "workspace scan stopped after "@ + decimal(limits.max_duration_ms as nat) + "ms"@
}

pub open spec fn project_message(limits: ScanLimits) -> Seq<char> {
    "workspace scan stopped after "@ + decimal(limits.max_projects as nat) + " projects"@
}

pub open spec fn settings_message(limits: ScanLimits) -> Seq<char> {
    "workspace scan stopped after reading "@ + decimal(limits.max_total_settings_bytes as nat) + " settings bytes"@
}

impl WorkspaceScan {
    /// The scan's counters agree with one another and with its phase: each visited entry is
    /// skipped at most once and adds at most one project, the first `MAX_SCAN_ERRORS` errors
    /// are kept, each skipped entry has its error and every error but a final stopping one
    /// belongs to a skipped entry, and the settings read stay within their total while the
    /// scan goes on, and within one more file's worth once it stopped.
    pub open spec fn wf(&self) -> bool {
        &&& self.limits.fits()
        &&& self.visited_entries <= self.limits.max_entries
        &&& self.found@.len() <= self.limits.max_projects
        &&& self.report.skipped_entries <= self.visited_entries
        &&& self.found@.len() <= self.visited_entries
        &&& self.report.errors@.len() == kept_len(self.report.error_count as nat)
        &&& self.report.skipped_entries <= self.report.error_count
        &&& self.report.settings_bytes_read <= self.limits.max_total_settings_bytes + self.limits.max_settings_bytes
        &&& forall|i: int| 0 <= i < self.found@.len()
            ==> (#[trigger] self.found@[i]).sort_name@ == spec_lowercase(self.found@[i].project.name@)
        &&& match self.phase {
            ScanPhase::Ready => {
                &&& self.report.error_count <= self.report.skipped_entries
                &&& self.report.settings_bytes_read <= self.limits.max_total_settings_bytes
                &&& !self.report.truncated
            },
            ScanPhase::Inspecting { skipped } => {
                &&& self.report.error_count <= self.report.skipped_entries
                &&& self.report.settings_bytes_read <= self.limits.max_total_settings_bytes
                &&& !self.report.truncated
                &&& self.found@.len() < self.visited_entries
                &&& self.found@.len() < self.limits.max_projects
                &&& (!skipped ==> self.report.skipped_entries < self.visited_entries)
            },
            ScanPhase::Stopped => {
                &&& self.report.error_count <= self.report.skipped_entries + 1
                &&& self.report.truncated
            },
        }
    }

    /// A scan that has visited nothing.
    pub fn new(limits: ScanLimits) -> (scan: WorkspaceScan)
        requires
            limits.fits(),
        ensures
            scan.wf(),
            scan.limits == limits,
            scan.visited_entries == 0,
            scan.found@.len() == 0,
            scan.phase == ScanPhase::Ready,
            scan.report.skipped_entries == 0,
            scan.report.error_count == 0,
            scan.report.errors@.len() == 0,
            scan.report.settings_bytes_read == 0,
    {
        WorkspaceScan {
            limits,
            visited_entries: 0,
            report: ScanReport::new(),
            found: Vec::new(),
            phase: ScanPhase::Ready,
        }
    }

    /// What the next entry is, given whether the caller cancelled and how many whole
    /// milliseconds the scan has run. The clock counts only on every
    /// `DURATION_CHECK_INTERVAL`th entry.
    pub open spec fn admission(&self, cancelled: bool, elapsed_ms: u64, entry: WalkEntry) -> Admission {
        if cancelled {
            Admission::Cancelled
        } else if self.visited_entries >= self.limits.max_entries {
            Admission::EntryLimit
        } else if (self.visited_entries + 1) % (DURATION_CHECK_INTERVAL as int) == 0
            && elapsed_ms >= self.limits.max_duration_ms {
            Admission::DurationLimit
        } else {
            match entry {
                WalkEntry::Failed(_) => Admission::WalkError,
                WalkEntry::Found { is_file, path } => if !is_file || !mpr_extension_spec(path@) {
                    Admission::NotProject
                } else if self.found@.len() >= self.limits.max_projects {
                    Admission::ProjectLimit
                } else {
                    Admission::Project
                },
            }
        }
    }

    /// Takes the next entry of the walk: counts it, skips or reports it, or stops the scan.
    pub fn take_entry(&mut self, cancelled: bool, elapsed_ms: u64, entry: WalkEntry) -> (admission: Admission)
        requires
            old(self).wf(),
            old(self).phase == ScanPhase::Ready,
        ensures
            final(self).wf(),
            admission == old(self).admission(cancelled, elapsed_ms, entry),
            final(self).limits == old(self).limits,
            final(self).found@ == old(self).found@,
            final(self).report.settings_bytes_read == old(self).report.settings_bytes_read,
            final(self).visited_entries == old(self).visited_entries
                + (if admission is Cancelled || admission is EntryLimit { 0int } else { 1int }),
            final(self).phase == (if admission.stops() { ScanPhase::Stopped } else if admission is Project {
                ScanPhase::Inspecting { skipped: false }
            } else {
                ScanPhase::Ready
            }),
            final(self).report.truncated == admission.stops(),
            final(self).report.skipped_entries == old(self).report.skipped_entries
                + (if admission is WalkError { 1int } else { 0int }),
            match admission {
                Admission::Cancelled | Admission::NotProject | Admission::Project => {
                    &&& final(self).report.error_count == old(self).report.error_count
                    &&& final(self).report.errors@ == old(self).report.errors@
                },
                Admission::EntryLimit => {
                    &&& final(self).report.error_count == old(self).report.error_count + 1
                    &&& error_texts(final(self).report.errors@) == kept_errors(error_texts(old(self).report.errors@), entry_message(old(self).limits))
                },
                Admission::DurationLimit => {
                    &&& final(self).report.error_count == old(self).report.error_count + 1
                    &&& error_texts(final(self).report.errors@) == kept_errors(error_texts(old(self).report.errors@), duration_message(old(self).limits))
                },
                Admission::ProjectLimit => {
                    &&& final(self).report.error_count == old(self).report.error_count + 1
                    &&& error_texts(final(self).report.errors@) == kept_errors(error_texts(old(self).report.errors@), project_message(old(self).limits))
                },
                Admission::WalkError => {
                    &&& final(self).report.error_count == old(self).report.error_count + 1
                    &&& entry matches WalkEntry::Failed(e)
                    &&& error_texts(final(self).report.errors@) == kept_errors(error_texts(old(self).report.errors@), e@)
                },
            },
    {
        if cancelled {
            self.report.truncated = true;
            self.phase = ScanPhase::Stopped;
            return Admission::Cancelled;
        }
        if self.visited_entries >= self.limits.max_entries {
            let mut text = to_chars("workspace scan stopped after ");
            let digits = decimal_chars(self.limits.max_entries as u64);
            push_all(&mut text, &digits);
            push_str(&mut text, " entries");
            self.report.push_error(string_from(&text));
            self.report.truncated = true;
            self.phase = ScanPhase::Stopped;
            return Admission::EntryLimit;
        }
        self.visited_entries = self.visited_entries + 1;
        if self.visited_entries % DURATION_CHECK_INTERVAL == 0 && elapsed_ms >= self.limits.max_duration_ms {
            let mut text = to_chars("workspace scan stopped after ");
            let digits = decimal_chars(self.limits.max_duration_ms);
            push_all(&mut text, &digits);
            push_str(&mut text, "ms");
            self.report.push_error(string_from(&text));
            self.report.truncated = true;
            self.phase = ScanPhase::Stopped;
            return Admission::DurationLimit;
        }
        match entry {
            WalkEntry::Failed(error) => {
                self.report.skip_with(error);
                Admission::WalkError
            },
            WalkEntry::Found { is_file, path } => {
                if !is_file || !has_mpr_extension(&path) {
                    return Admission::NotProject;
                }
                if self.found.len() >= self.limits.max_projects {
                    let mut text = to_chars("workspace scan stopped after ");
                    let digits = decimal_chars(self.limits.max_projects as u64);
                    push_all(&mut text, &digits);
                    push_str(&mut text, " projects");
                    self.report.push_error(string_from(&text));
                    self.report.truncated = true;
                    self.phase = ScanPhase::Stopped;
                    return Admission::ProjectLimit;
                }
                self.phase = ScanPhase::Inspecting { skipped: false };
                Admission::Project
            },
        }
    }
}


impl WorkspaceScan {
    /// The project file's modification time could not be read: the entry is skipped and
    /// reported as `label: error`.
    pub fn modified_unreadable(&mut self, label: &str, error: &str)
        requires
            old(self).wf(),
            old(self).phase == (ScanPhase::Inspecting { skipped: false }),
        ensures
            final(self).wf(),
            final(self).phase == ScanPhase::Ready,
            final(self).limits == old(self).limits,
            final(self).visited_entries == old(self).visited_entries,
            final(self).found@ == old(self).found@,
            final(self).report.skipped_entries == old(self).report.skipped_entries + 1,
            final(self).report.error_count == old(self).report.error_count + 1,
            error_texts(final(self).report.errors@) == kept_errors(error_texts(old(self).report.errors@), labelled(label@, error@)),
            final(self).report.settings_bytes_read == old(self).report.settings_bytes_read,
            !final(self).report.truncated,
    {
        let detail = to_chars(error);
        self.report.skip_with(labelled_message(label, &detail));
        self.phase = ScanPhase::Ready;
    }

    /// Decides on the probe of the admitted project's settings file under the scan's
    /// per-file limit, as `settings_read_allowed` does.
    pub fn settings_probe(&mut self, label: &str, probe: SettingsProbe) -> (read: bool)
        requires
            old(self).wf(),
            old(self).phase == (ScanPhase::Inspecting { skipped: false }),
        ensures
            final(self).wf(),
            read == probe_reads(probe, old(self).limits.max_settings_bytes),
            final(self).phase == (ScanPhase::Inspecting {
                skipped: probe_error(label@, probe, old(self).limits.max_settings_bytes) is Some,
            }),
            final(self).limits == old(self).limits,
            final(self).visited_entries == old(self).visited_entries,
            final(self).found@ == old(self).found@,
            match probe_error(label@, probe, old(self).limits.max_settings_bytes) {
                Some(message) => final(self).report.skipped_entries == old(self).report.skipped_entries + 1
                    && final(self).report.error_count == old(self).report.error_count + 1
                    && error_texts(final(self).report.errors@) == kept_errors(error_texts(old(self).report.errors@), message),
                None => final(self).report.skipped_entries == old(self).report.skipped_entries
                    && final(self).report.error_count == old(self).report.error_count
                    && final(self).report.errors@ == old(self).report.errors@,
            },
            final(self).report.settings_bytes_read == old(self).report.settings_bytes_read,
    {
        let maximum = self.limits.max_settings_bytes;
        let before = self.report.skipped_entries;
        let read = settings_read_allowed(label, probe, maximum, &mut self.report);
        self.phase = ScanPhase::Inspecting { skipped: self.report.skipped_entries != before };
        read
    }

    /// Decides on what reading the admitted project's settings file gave, as
    /// `settings_version` does; returns the version and the bytes read.
    pub fn settings_read(&mut self, label: &str, read: SettingsRead) -> (outcome: (Option<String>, u64))
        requires
            old(self).wf(),
            old(self).phase == (ScanPhase::Inspecting { skipped: false }),
        ensures
            final(self).wf(),
            match read_version(read, old(self).limits.max_settings_bytes) {
                Some(v) => outcome.0 matches Some(x) && x@ == v,
                None => outcome.0 is None,
            },
            outcome.1 == read_bytes(read, old(self).limits.max_settings_bytes),
            outcome.1 <= old(self).limits.max_settings_bytes,
            final(self).phase == (ScanPhase::Inspecting {
                skipped: read_error(label@, read, old(self).limits.max_settings_bytes) is Some,
            }),
            final(self).limits == old(self).limits,
            final(self).visited_entries == old(self).visited_entries,
            final(self).found@ == old(self).found@,
            match read_error(label@, read, old(self).limits.max_settings_bytes) {
                Some(message) => final(self).report.skipped_entries == old(self).report.skipped_entries + 1
                    && final(self).report.error_count == old(self).report.error_count + 1
                    && error_texts(final(self).report.errors@) == kept_errors(error_texts(old(self).report.errors@), message),
                None => final(self).report.skipped_entries == old(self).report.skipped_entries
                    && final(self).report.error_count == old(self).report.error_count
                    && final(self).report.errors@ == old(self).report.errors@,
            },
            final(self).report.settings_bytes_read == old(self).report.settings_bytes_read,
    {
        let maximum = self.limits.max_settings_bytes;
        let before = self.report.skipped_entries;
        let outcome = settings_version(label, read, maximum, &mut self.report);
        self.phase = ScanPhase::Inspecting { skipped: self.report.skipped_entries != before };
        outcome
    }

    /// Adds the admitted project, with its modification time and the settings bytes read
    /// for it. Stops the scan, reporting it, once more settings bytes were read than the
    /// total limit allows; returns whether the scan goes on.
    pub fn record(&mut self, modified_ns: i128, project: MendixProject, bytes_read: u64) -> (goes_on: bool)
        requires
            old(self).wf(),
            old(self).phase is Inspecting,
            bytes_read <= old(self).limits.max_settings_bytes,
        ensures
            final(self).wf(),
            final(self).limits == old(self).limits,
            final(self).visited_entries == old(self).visited_entries,
            final(self).found@.len() == old(self).found@.len() + 1,
            final(self).found@.take(old(self).found@.len() as int) == old(self).found@,
            final(self).found@.last().modified_ns == modified_ns,
            final(self).found@.last().project == project,
            final(self).report.settings_bytes_read == old(self).report.settings_bytes_read + bytes_read,
            final(self).report.skipped_entries == old(self).report.skipped_entries,
            goes_on == (final(self).report.settings_bytes_read <= old(self).limits.max_total_settings_bytes),
            goes_on ==> final(self).phase == ScanPhase::Ready
                && final(self).report.error_count == old(self).report.error_count
                && final(self).report.errors@ == old(self).report.errors@,
            !goes_on ==> final(self).phase == ScanPhase::Stopped
                && final(self).report.truncated
                && final(self).report.error_count == old(self).report.error_count + 1
                && error_texts(final(self).report.errors@) == kept_errors(error_texts(old(self).report.errors@), settings_message(old(self).limits)),
    {
        self.report.settings_bytes_read = self.report.settings_bytes_read + bytes_read;
        let sort_name = lowercase(&project.name);
        self.found.push(FoundProject { modified_ns, sort_name, project });
        if self.report.settings_bytes_read > self.limits.max_total_settings_bytes {
            let mut text = to_chars("workspace scan stopped after reading ");
            let digits = decimal_chars(self.limits.max_total_settings_bytes);
            push_all(&mut text, &digits);
            push_str(&mut text, " settings bytes");
            self.report.push_error(string_from(&text));
            self.report.truncated = true;
            self.phase = ScanPhase::Stopped;
            false
        } else {
            self.phase = ScanPhase::Ready;
            true
        }
    }
}


/// `a` sorts before `b` character by character, by code point, a proper prefix first: the
/// order `str` compares in.
pub open spec fn text_before(a: Seq<char>, b: Seq<char>) -> bool {
    exists|k: int| #![trigger a.take(k), b.take(k)]
        0 <= k <= a.len() && k <= b.len() && a.take(k) == b.take(k)
        && ((k == a.len() && k < b.len()) || (k < a.len() && k < b.len() && a[k] < b[k]))
}

proof fn lemma_first_difference(a: Seq<char>, b: Seq<char>, i: int)
    requires
        0 <= i <= a.len(),
        i <= b.len(),
        a.take(i) == b.take(i),
        i == a.len() || i == b.len() || a[i] != b[i],
    ensures
        text_before(a, b) <==> ((i == a.len() && i < b.len()) || (i < a.len() && i < b.len() && a[i] < b[i])),
{
    if (i == a.len() && i < b.len()) || (i < a.len() && i < b.len() && a[i] < b[i]) {
        assert(a.take(i) == b.take(i));
        assert(text_before(a, b));
    }
    if text_before(a, b) {
        let k = choose|k: int| #![trigger a.take(k), b.take(k)]
            0 <= k <= a.len() && k <= b.len() && a.take(k) == b.take(k)
            && ((k == a.len() && k < b.len()) || (k < a.len() && k < b.len() && a[k] < b[k]));
        if k < i {
            assert(a.take(i)[k] == a[k]);
            assert(b.take(i)[k] == b[k]);
            assert(a[k] == b[k]);
            assert(false);
        } else if k > i {
            assert(a.take(k)[i] == a[i]);
            assert(b.take(k)[i] == b[i]);
            assert(false);
        }
        assert(k == i);
    }
}

/// How two texts or two listed projects compare.
#[derive(Debug, Clone, Copy, PartialEq, Eq, Structural)]
pub enum Precedence {
    Before,
    Same,
    After,
}

/// Compares two texts by code point, as `str` orders them.
pub fn compare_text(a: &str, b: &str) -> (order: Precedence)
    ensures
        order is Before <==> text_before(a@, b@),
        order is After <==> text_before(b@, a@),
        order is Same <==> a@ == b@,
{
    let x = to_chars(a);
    let y = to_chars(b);
    let mut i: usize = 0;
    while i < x.len() && i < y.len() && x[i] == y[i]
        invariant
            i <= x@.len(),
            i <= y@.len(),
            x@ == a@,
            y@ == b@,
            x@.take(i as int) == y@.take(i as int),
        decreases x.len() - i,
    {
        assert(x@.take(i + 1) == x@.take(i as int).push(x@[i as int]));
        assert(y@.take(i + 1) == y@.take(i as int).push(y@[i as int]));
        i = i + 1;
    }
    proof {
        lemma_first_difference(a@, b@, i as int);
        lemma_first_difference(b@, a@, i as int);
        if i == x.len() && i == y.len() {
            assert(a@ == a@.take(i as int));
            assert(b@ == b@.take(i as int));
        }
        if a@ == b@ {
            assert(i == x.len() && i == y.len());
        }
    }
    if i < x.len() && i < y.len() {
        if x[i] < y[i] { Precedence::Before } else { Precedence::After }
    } else if i < y.len() {
        Precedence::Before
    } else if i < x.len() {
        Precedence::After
    } else {
        Precedence::Same
    }
}

/// The project at `i` is listed before the one at `j`: more recently modified first, then by
/// lower-cased name, then in the order found.
pub open spec fn listed_before(found: Seq<FoundProject>, i: int, j: int) -> bool {
    let a = found[i];
    let b = found[j];
    ||| a.modified_ns > b.modified_ns
    ||| (a.modified_ns == b.modified_ns && text_before(a.sort_name@, b.sort_name@))
    ||| (a.modified_ns == b.modified_ns && a.sort_name@ == b.sort_name@ && i < j)
}

fn listing_order(found: &Vec<FoundProject>, i: usize, j: usize) -> (order: Precedence)
    requires
        i < found@.len(),
        j < found@.len(),
    ensures
        order is Before <==> listed_before(found@, i as int, j as int),
        order is After <==> listed_before(found@, j as int, i as int),
        order is Same <==> i == j,
{
    let a = &found[i];
    let b = &found[j];
    if a.modified_ns > b.modified_ns {
        Precedence::Before
    } else if a.modified_ns < b.modified_ns {
        Precedence::After
    } else {
        match compare_text(&a.sort_name, &b.sort_name) {
            Precedence::Before => Precedence::Before,
            Precedence::After => Precedence::After,
            Precedence::Same => if i < j {
                Precedence::Before
            } else if j < i {
                Precedence::After
            } else {
                Precedence::Same
            },
        }
    }
}

/// `order` lists every index of `found` once, each listed before the next.
pub open spec fn is_listing_order(found: Seq<FoundProject>, order: Seq<usize>) -> bool {
    &&& order.len() == found.len()
    &&& forall|k: int| 0 <= k < order.len() ==> (#[trigger] order[k]) < found.len()
    &&& forall|k1: int, k2: int| 0 <= k1 < k2 < order.len() ==> order[k1] != order[k2]
    &&& forall|k: int| #![trigger order[k], order[k + 1]]
        0 <= k < order.len() - 1 ==> listed_before(found, order[k] as int, order[k + 1] as int)
}

/// The order in which found projects are listed: a stable insertion by `listed_before`.
pub fn listing(found: &Vec<FoundProject>) -> (order: Vec<usize>)
    ensures
        is_listing_order(found@, order@),
{
    let mut order: Vec<usize> = Vec::new();
    let mut i: usize = 0;
    while i < found.len()
        invariant
            i <= found@.len(),
            order@.len() == i,
            forall|k: int| 0 <= k < order@.len() ==> (#[trigger] order@[k]) < i,
            forall|k1: int, k2: int| 0 <= k1 < k2 < order@.len() ==> order@[k1] != order@[k2],
            forall|k: int| #![trigger order@[k], order@[k + 1]]
                0 <= k < order@.len() - 1 ==> listed_before(found@, order@[k] as int, order@[k + 1] as int),
        decreases found@.len() - i,
    {
        let mut p: usize = order.len();
        let mut placed = false;
        while !placed && p > 0
            invariant
                p <= order@.len(),
                order@.len() == i,
                i < found@.len(),
                forall|k: int| 0 <= k < order@.len() ==> (#[trigger] order@[k]) < i,
                p < order@.len() ==> listed_before(found@, i as int, order@[p as int] as int),
                placed ==> p > 0 && listed_before(found@, order@[p - 1] as int, i as int),
            decreases 2 * p + (if placed { 0int } else { 1int }),
        {
            let previous = order[p - 1];
            match listing_order(found, i, previous) {
                Precedence::Before => {
                    p = p - 1;
                },
                _ => {
                    placed = true;
                },
            }
        }
        let ghost before = order@;
        order.insert(p, i);
        proof {
            assert forall|k: int| 0 <= k < order@.len() implies (#[trigger] order@[k]) < i + 1 by {
                if k < p {
                    assert(order@[k] == before[k]);
                } else if k > p {
                    assert(order@[k] == before[k - 1]);
                }
            }
            assert forall|k1: int, k2: int| 0 <= k1 < k2 < order@.len() implies order@[k1] != order@[k2] by {
                if k1 < p && k2 < p {
                    assert(order@[k1] == before[k1] && order@[k2] == before[k2]);
                } else if k1 < p && k2 == p {
                    assert(before[k1] < i);
                } else if k1 < p && k2 > p {
                    assert(order@[k1] == before[k1] && order@[k2] == before[k2 - 1]);
                } else if k1 == p {
                    assert(before[k2 - 1] < i);
                } else {
                    assert(order@[k1] == before[k1 - 1] && order@[k2] == before[k2 - 1]);
                }
            }
            assert forall|k: int| #![trigger order@[k], order@[k + 1]]
                0 <= k < order@.len() - 1 implies listed_before(found@, order@[k] as int, order@[k + 1] as int) by {
                if k + 1 < p {
                    assert(order@[k] == before[k] && order@[k + 1] == before[k + 1]);
                    assert(listed_before(found@, before[k] as int, before[k + 1] as int));
                } else if k + 1 == p {
                    assert(order@[k] == before[k]);
                    assert(order@[k + 1] == i);
                } else if k == p {
                    assert(order@[k] == i);
                    assert(order@[k + 1] == before[k]);
                } else {
                    let j = k - 1;
                    assert(order@[k] == before[j] && order@[k + 1] == before[j + 1]);
                    assert(listed_before(found@, before[j] as int, before[j + 1] as int));
                }
            }
        }
        i = i + 1;
    }
    order
}


/// What a workspace scan gives back.
#[derive(Debug)]
pub struct ProjectScanResult {
    pub source_key: String,
    pub projects: Vec<MendixProject>,
    pub visited_entries: usize,
    pub skipped_entries: usize,
    pub error_count: usize,
    pub errors: Vec<String>,
    pub settings_bytes_read: u64,
    pub truncated: bool,
    pub duration_ms: u64,
    pub watcher_active: bool,
}

impl WorkspaceScan {
    /// The scan's result once the walk ended or the scan stopped: the found projects in
    /// listing order, and the scan's counters and errors.
    pub fn finish(self, source_key: String, duration_ms: u64) -> (result: ProjectScanResult)
        requires
            self.wf(),
            !(self.phase is Inspecting),
        ensures
            exists|order: Seq<usize>| #![trigger is_listing_order(self.found@, order)]
                is_listing_order(self.found@, order)
                && result.projects@.len() == order.len()
                && forall|k: int| 0 <= k < order.len()
                    ==> result.projects@[k] == (#[trigger] self.found@[order[k] as int]).project,
            result.source_key == source_key,
            result.visited_entries == self.visited_entries,
            result.skipped_entries == self.report.skipped_entries,
            result.error_count == self.report.error_count,
            result.errors@ == self.report.errors@,
            result.settings_bytes_read == self.report.settings_bytes_read,
            result.truncated == (self.phase == ScanPhase::Stopped),
            result.duration_ms == duration_ms,
            !result.watcher_active,
    {
        let order = listing(&self.found);
        let mut projects: Vec<MendixProject> = Vec::new();
        let mut k: usize = 0;
        while k < order.len()
            invariant
                is_listing_order(self.found@, order@),
                k <= order@.len(),
                projects@.len() == k,
                forall|m: int| 0 <= m < k ==> projects@[m] == (#[trigger] self.found@[order@[m] as int]).project,
            decreases order@.len() - k,
        {
            let index = order[k];
            projects.push(self.found[index].project.duplicate());
            k = k + 1;
        }
        ProjectScanResult {
            source_key,
            projects,
            visited_entries: self.visited_entries,
            skipped_entries: self.report.skipped_entries,
            error_count: self.report.error_count,
            errors: self.report.errors,
            settings_bytes_read: self.report.settings_bytes_read,
            truncated: self.report.truncated,
            duration_ms,
            watcher_active: false,
        }
    }
}


/// A scan, whatever it met, keeps the first `MAX_SCAN_ERRORS` messages of the errors it
/// counted, reports an error for each skipped entry and at most one more once it stopped,
/// reads settings within their total and one more file, skips each visited entry at most
/// once, and finds no more projects than its limit or than the entries it visited, which
/// stay within their own limit.
pub proof fn lemma_scan_stays_bounded(scan: WorkspaceScan)
    requires
        scan.wf(),
    ensures
        scan.report.errors@.len() <= MAX_SCAN_ERRORS,
        scan.report.errors@.len() <= scan.report.error_count,
        scan.report.errors@.len() == kept_len(scan.report.error_count as nat),
        scan.report.skipped_entries <= scan.report.error_count <= scan.report.skipped_entries + 1,
        !scan.report.truncated ==> scan.report.error_count == scan.report.skipped_entries,
        scan.report.settings_bytes_read <= scan.limits.max_total_settings_bytes + scan.limits.max_settings_bytes,
        scan.report.skipped_entries <= scan.visited_entries,
        scan.found@.len() <= scan.limits.max_projects,
        scan.found@.len() <= scan.visited_entries,
        scan.visited_entries <= scan.limits.max_entries,
        scan.report.truncated <==> scan.phase == ScanPhase::Stopped,
{
}

/// The listing of a scan's result names every project the scan recorded, each exactly
/// once: `finish` lists the found projects in an order that is a permutation of them.
pub proof fn lemma_listing_names_each_found_project_once(found: Seq<FoundProject>, order: Seq<usize>, i: int)
    requires
        is_listing_order(found, order),
        0 <= i < found.len(),
    ensures
        exists|k: int| 0 <= k < order.len() && order[k] == i,
        forall|k1: int, k2: int| 0 <= k1 < order.len() && 0 <= k2 < order.len()
            && order[k1] == i && order[k2] == i ==> k1 == k2,
{
    let ints = order.map_values(|x: usize| x as int);
    assert(ints.no_duplicates()) by {
        assert forall|a: int, b: int| 0 <= a < ints.len() && 0 <= b < ints.len() && a != b
            implies ints[a] != ints[b] by {
            if a < b {
                assert(order[a] != order[b]);
            } else {
                assert(order[b] != order[a]);
            }
        }
    }
    ints.unique_seq_to_set();
    vstd::set_lib::lemma_int_range(0, found.len() as int);
    let range = vstd::set_lib::set_int_range(0, found.len() as int);
    assert(ints.to_set().subset_of(range)) by {
        assert forall|x: int| ints.to_set().contains(x) implies range.contains(x) by {
            let k = choose|k: int| 0 <= k < ints.len() && ints[k] == x;
            assert(order[k] < found.len());
        }
    }
    vstd::seq_lib::seq_to_set_is_finite(ints);
    vstd::set_lib::lemma_subset_equality(ints.to_set(), range);
    assert(range.contains(i));
    assert(ints.to_set().contains(i));
    let k = choose|k: int| 0 <= k < ints.len() && ints[k] == i;
    assert(order[k] == i);
    assert forall|k1: int, k2: int| 0 <= k1 < order.len() && 0 <= k2 < order.len()
        && order[k1] == i && order[k2] == i implies k1 == k2 by {
        if k1 < k2 {
            assert(order[k1] != order[k2]);
        } else if k2 < k1 {
            assert(order[k2] != order[k1]);
        }
    }
}

/// The first error messages are kept in the order they came, and later ones are dropped
/// once `MAX_SCAN_ERRORS` are kept.
pub proof fn lemma_kept_errors_prefix(errors: Seq<Seq<char>>, message: Seq<char>)
    ensures
        kept_errors(errors, message).take(errors.len() as int) == errors
            || (errors.len() >= MAX_SCAN_ERRORS && kept_errors(errors, message) == errors),
        kept_errors(errors, message).len() <= if errors.len() < MAX_SCAN_ERRORS { MAX_SCAN_ERRORS as int } else { errors.len() as int },
{
    if errors.len() < MAX_SCAN_ERRORS {
        assert(errors.push(message).take(errors.len() as int) =~= errors);
    }
}

} // verus!
