//! PowerShell script text: quoting of values inside single-quoted literals and the scripts
//! that are assembled from pieces here.
use vstd::prelude::*;
use crate::text::{
    decimal, decimal_chars, push_all, push_str, replace_all, replace_spec, signed_decimal_chars,
    signed_decimal_text, string_from, to_chars,
};

verus! {

/// The text with every single quote doubled, as a PowerShell single-quoted literal needs.
pub open spec fn powershell_literal_spec(s: Seq<char>) -> Seq<char>
    decreases s.len(),
{
    if s.len() == 0 {
        Seq::empty()
    } else {
        let init = powershell_literal_spec(s.drop_last());
        if s.last() == '\'' {
            init + seq!['\'', '\'']
        } else {
            init.push(s.last())
        }
    }
}

/// Doubles every single quote of `value`.
pub fn powershell_literal(value: &str) -> (r: String)
    ensures
        r@ == powershell_literal_spec(value@),
{
    let chars = to_chars(value);
    let mut out: Vec<char> = Vec::new();
    let mut i: usize = 0;
    while i < chars.len()
        invariant
            i <= chars.len(),
            chars@ == value@,
            out@ == powershell_literal_spec(chars@.subrange(0, i as int)),
        decreases chars.len() - i,
    {
        proof {
            assert(chars@.subrange(0, i as int + 1).drop_last() =~= chars@.subrange(0, i as int));
        }
        if chars[i] == '\'' {
            out.push('\'');
            out.push('\'');
        } else {
            out.push(chars[i]);
        }
        i = i + 1;
    }
    assert(chars@.subrange(0, chars.len() as int) =~= chars@);
    string_from(&out)
}


pub const PROBE_HEAD: &'static str = "$ErrorActionPreference = 'Stop'\n$guestPort = [int]";

pub const PROBE_RESULT: &'static str = "\n$resultPath = '";

pub const PROBE_PREAMBLE: &'static str = "'\n\n";

pub const PROBE_BODY: &'static str = r#"

try {
    $listeners = @(Get-NetTCPConnection -State Listen -LocalPort $guestPort -ErrorAction SilentlyContinue)
    $blockingRules = @(
        Get-NetFirewallRule -Enabled True -Direction Inbound -Action Block -ErrorAction SilentlyContinue |
            Get-NetFirewallPortFilter -ErrorAction SilentlyContinue |
            Where-Object {
                $_.Protocol -eq 'TCP' -and
                ($_.LocalPort -eq 'Any' -or $_.LocalPort -eq $guestPort.ToString())
            }
    )
    if ($listeners.Count -eq 0) {
        $diagnostic = 'MENDIMARU_RUNTIME_NOT_LISTENING'
    } elseif ($blockingRules.Count -gt 0) {
        $diagnostic = 'MENDIMARU_RUNTIME_FIREWALL_BLOCKED'
    } else {
        $diagnostic = 'MENDIMARU_RUNTIME_LISTENING'
    }
    $payload = [ordered]@{
        state = 'succeeded'
        message = $diagnostic
        percentage = $null
        estimated = $false
        timestamp = (Get-Date).ToString('o')
        exitCode = 0
        executablePath = $null
        error = $null
    }
    Write-MendimaruReport $payload
    exit 0
} catch {
    $payload = [ordered]@{
        state = 'failed'
        message = 'Runtime port diagnosis failed.'
        percentage = $null
        estimated = $false
        timestamp = (Get-Date).ToString('o')
        exitCode = 1
        executablePath = $null
        error = $_.Exception.Message
    }
    Write-MendimaruReport $payload
    exit 1
}
"#;

/// The guest script that reports whether anything listens on `guest_port` and whether an
/// inbound firewall rule blocks it, through the authenticated report that `preamble`
/// defines.
pub fn runtime_port_probe_script(guest_port: u16, windows_report_path: &str, preamble: &str) -> (r: String)
    ensures
        r@ == PROBE_HEAD@ + decimal(guest_port as nat) + PROBE_RESULT@ + powershell_literal_spec(windows_report_path@)
            + PROBE_PREAMBLE@ + preamble@ + PROBE_BODY@,
{
    let mut out = to_chars(PROBE_HEAD);
    let digits = decimal_chars(guest_port as u64);
    push_all(&mut out, &digits);
    push_str(&mut out, PROBE_RESULT);
    let path = powershell_literal(windows_report_path);
    push_str(&mut out, path.as_str());
    push_str(&mut out, PROBE_PREAMBLE);
    push_str(&mut out, preamble);
    push_str(&mut out, PROBE_BODY);
    string_from(&out)
}


/// `text` with every occurrence of `placeholder` replaced by `value`.
fn fill(text: &Vec<char>, placeholder: &str, value: &str) -> (r: Vec<char>)
    requires
        placeholder@.len() > 0,
    ensures
        r@ == replace_spec(text@, placeholder@, value@),
{
    let from = to_chars(placeholder);
    let to = to_chars(value);
    replace_all(text, &from, &to)
}

/// The Studio Pro launch script: the template with the executable, the project (empty when
/// none), the report path, the install root and the version filled in as PowerShell
/// literals, and the security preamble put in its place.
pub open spec fn launch_studio_script_spec(template: Seq<char>, preamble: Seq<char>, executable_path: Seq<char>, project_path: Seq<char>, windows_report_path: Seq<char>, install_root: Seq<char>, version: Seq<char>) -> Seq<char> {
    let a = replace_spec(template, "__EXECUTABLE_PATH__"@, powershell_literal_spec(executable_path));
    let b = replace_spec(a, "__PROJECT_PATH__"@, powershell_literal_spec(project_path));
    let c = replace_spec(b, "__RESULT_PATH__"@, powershell_literal_spec(windows_report_path));
    let d = replace_spec(c, "__INSTALL_ROOT__"@, powershell_literal_spec(install_root));
    let e = replace_spec(d, "__VERSION__"@, powershell_literal_spec(version));
    replace_spec(e, "__SECURITY_PREAMBLE__"@, preamble)
}

/// Fills in the Studio Pro launch script template.
pub fn launch_studio_script(template: &str, preamble: &str, executable_path: &str, project_path: Option<&str>, windows_report_path: &str, install_root: &str, version: &str) -> (r: String)
    ensures
        r@ == launch_studio_script_spec(template@, preamble@, executable_path@,
            match project_path { Some(p) => p@, None => Seq::empty() }, windows_report_path@, install_root@, version@),
{
    proof {
        reveal_strlit("__EXECUTABLE_PATH__");
        reveal_strlit("__PROJECT_PATH__");
        reveal_strlit("__RESULT_PATH__");
        reveal_strlit("__INSTALL_ROOT__");
        reveal_strlit("__VERSION__");
        reveal_strlit("__SECURITY_PREAMBLE__");
        reveal_strlit("");
    }
    let text = to_chars(template);
    let text = fill(&text, "__EXECUTABLE_PATH__", powershell_literal(executable_path).as_str());
    let project = match project_path {
        Some(p) => powershell_literal(p),
        None => powershell_literal(""),
    };
    let text = fill(&text, "__PROJECT_PATH__", project.as_str());
    let text = fill(&text, "__RESULT_PATH__", powershell_literal(windows_report_path).as_str());
    let text = fill(&text, "__INSTALL_ROOT__", powershell_literal(install_root).as_str());
    let text = fill(&text, "__VERSION__", powershell_literal(version).as_str());
    let text = fill(&text, "__SECURITY_PREAMBLE__", preamble);
    string_from(&text)
}

/// The Studio Pro install script: the template with the installer, the report path, the
/// install root, the version and the source root filled in as PowerShell literals, the
/// expected SHA-256 as it is, and the security preamble put in its place.
pub open spec fn install_script_spec(template: Seq<char>, preamble: Seq<char>, windows_installer_path: Seq<char>, windows_report_path: Seq<char>, install_root: Seq<char>, version: Seq<char>, expected_sha256: Seq<char>, source_root: Seq<char>) -> Seq<char> {
    let a = replace_spec(template, "__INSTALLER_PATH__"@, powershell_literal_spec(windows_installer_path));
    let b = replace_spec(a, "__RESULT_PATH__"@, powershell_literal_spec(windows_report_path));
    let c = replace_spec(b, "__INSTALL_ROOT__"@, powershell_literal_spec(install_root));
    let d = replace_spec(c, "__VERSION__"@, powershell_literal_spec(version));
    let e = replace_spec(d, "__EXPECTED_SHA256__"@, expected_sha256);
    let f = replace_spec(e, "__SOURCE_ROOT__"@, powershell_literal_spec(source_root));
    replace_spec(f, "__SECURITY_PREAMBLE__"@, preamble)
}

/// Fills in the Studio Pro install script template.
pub fn install_script(template: &str, preamble: &str, windows_installer_path: &str, windows_report_path: &str, install_root: &str, version: &str, expected_sha256: &str, source_root: &str) -> (r: String)
    ensures
        r@ == install_script_spec(template@, preamble@, windows_installer_path@, windows_report_path@,
            install_root@, version@, expected_sha256@, source_root@),
{
    proof {
        reveal_strlit("__INSTALLER_PATH__");
        reveal_strlit("__RESULT_PATH__");
        reveal_strlit("__INSTALL_ROOT__");
        reveal_strlit("__VERSION__");
        reveal_strlit("__EXPECTED_SHA256__");
        reveal_strlit("__SOURCE_ROOT__");
        reveal_strlit("__SECURITY_PREAMBLE__");
    }
    let text = to_chars(template);
    let text = fill(&text, "__INSTALLER_PATH__", powershell_literal(windows_installer_path).as_str());
    let text = fill(&text, "__RESULT_PATH__", powershell_literal(windows_report_path).as_str());
    let text = fill(&text, "__INSTALL_ROOT__", powershell_literal(install_root).as_str());
    let text = fill(&text, "__VERSION__", powershell_literal(version).as_str());
    let text = fill(&text, "__EXPECTED_SHA256__", expected_sha256);
    let text = fill(&text, "__SOURCE_ROOT__", powershell_literal(source_root).as_str());
    let text = fill(&text, "__SECURITY_PREAMBLE__", preamble);
    string_from(&text)
}

/// The Studio Pro uninstall script: the template with the data root, the install root, the
/// version and the report path filled in as PowerShell literals, and the security preamble
/// put in its place.
pub open spec fn uninstall_script_spec(template: Seq<char>, preamble: Seq<char>, data_root: Seq<char>, install_root: Seq<char>, version: Seq<char>, windows_report_path: Seq<char>) -> Seq<char> {
    let a = replace_spec(template, "__DATA_ROOT__"@, powershell_literal_spec(data_root));
    let b = replace_spec(a, "__INSTALL_ROOT__"@, powershell_literal_spec(install_root));
    let c = replace_spec(b, "__VERSION__"@, powershell_literal_spec(version));
    let d = replace_spec(c, "__RESULT_PATH__"@, powershell_literal_spec(windows_report_path));
    replace_spec(d, "__SECURITY_PREAMBLE__"@, preamble)
}

/// Fills in the Studio Pro uninstall script template.
pub fn uninstall_script(template: &str, preamble: &str, data_root: &str, install_root: &str, version: &str, windows_report_path: &str) -> (r: String)
    ensures
        r@ == uninstall_script_spec(template@, preamble@, data_root@, install_root@, version@, windows_report_path@),
{
    proof {
        reveal_strlit("__DATA_ROOT__");
        reveal_strlit("__INSTALL_ROOT__");
        reveal_strlit("__VERSION__");
        reveal_strlit("__RESULT_PATH__");
        reveal_strlit("__SECURITY_PREAMBLE__");
    }
    let text = to_chars(template);
    let text = fill(&text, "__DATA_ROOT__", powershell_literal(data_root).as_str());
    let text = fill(&text, "__INSTALL_ROOT__", powershell_literal(install_root).as_str());
    let text = fill(&text, "__VERSION__", powershell_literal(version).as_str());
    let text = fill(&text, "__RESULT_PATH__", powershell_literal(windows_report_path).as_str());
    let text = fill(&text, "__SECURITY_PREAMBLE__", preamble);
    string_from(&text)
}

/// What a Studio Pro session script does: list the sessions, or reconnect to or stop the
/// session of one exact process.
#[derive(Debug, Clone, Copy, PartialEq, Eq, Structural)]
pub enum StudioSessionScriptMode {
    Query,
    Reconnect { process_id: u32, started_ticks: i64 },
    Stop { process_id: u32, started_ticks: i64 },
}

/// The mode's name and the process identity it targets (zeros for a query).
pub open spec fn session_mode_fields(mode: StudioSessionScriptMode) -> (Seq<char>, u32, i64) {
    match mode {
        StudioSessionScriptMode::Query => ("query"@, 0, 0),
        StudioSessionScriptMode::Reconnect { process_id, started_ticks } => ("reconnect"@, process_id, started_ticks),
        StudioSessionScriptMode::Stop { process_id, started_ticks } => ("stop"@, process_id, started_ticks),
    }
}

/// The Studio Pro session script: the template with the mode, the target process ID and
/// start ticks in decimal, the known Studio Pro installations (their JSON in standard
/// Base64), the report path and install root as PowerShell literals, and the security
/// preamble put in its place.
pub open spec fn studio_sessions_script_spec(template: Seq<char>, preamble: Seq<char>, known_json: Seq<u8>, mode: StudioSessionScriptMode, windows_report_path: Seq<char>, install_root: Seq<char>) -> Seq<char> {
    let (name, process_id, started_ticks) = session_mode_fields(mode);
    sessions_script_text(template, preamble, known_json, name, process_id, started_ticks, windows_report_path, install_root)
}

/// The session script template filled with a mode name and a target process identity.
pub open spec fn sessions_script_text(template: Seq<char>, preamble: Seq<char>, known_json: Seq<u8>, name: Seq<char>, process_id: u32, started_ticks: i64, windows_report_path: Seq<char>, install_root: Seq<char>) -> Seq<char> {
    let a = replace_spec(template, "__MODE__"@, name);
    let b = replace_spec(a, "__TARGET_PROCESS_ID__"@, decimal(process_id as nat));
    let c = replace_spec(b, "__TARGET_STARTED_TICKS__"@, signed_decimal_text(started_ticks as int));
    let d = replace_spec(c, "__KNOWN_STUDIOS_BASE64__"@, crate::outside::spec_base64_encode(known_json));
    let e = replace_spec(d, "__RESULT_PATH__"@, powershell_literal_spec(windows_report_path));
    let f = replace_spec(e, "__INSTALL_ROOT__"@, powershell_literal_spec(install_root));
    replace_spec(f, "__SECURITY_PREAMBLE__"@, preamble)
}

/// Fills in the Studio Pro session script template; `known_json` is the JSON list of the
/// known installations' versions and executable paths.
pub fn studio_sessions_script(template: &str, preamble: &str, known_json: &[u8], mode: StudioSessionScriptMode, windows_report_path: &str, install_root: &str) -> (r: String)
    ensures
        r@ == studio_sessions_script_spec(template@, preamble@, known_json@, mode, windows_report_path@, install_root@),
        r@ == sessions_script_text(template@, preamble@, known_json@,
            match mode {
                StudioSessionScriptMode::Query => "query"@,
                StudioSessionScriptMode::Reconnect { .. } => "reconnect"@,
                StudioSessionScriptMode::Stop { .. } => "stop"@,
            },
            match mode {
                StudioSessionScriptMode::Query => 0u32,
                StudioSessionScriptMode::Reconnect { process_id, .. } => process_id,
                StudioSessionScriptMode::Stop { process_id, .. } => process_id,
            },
            match mode {
                StudioSessionScriptMode::Query => 0i64,
                StudioSessionScriptMode::Reconnect { started_ticks, .. } => started_ticks,
                StudioSessionScriptMode::Stop { started_ticks, .. } => started_ticks,
            },
            windows_report_path@, install_root@),
{
    proof {
        reveal_strlit("__MODE__");
        reveal_strlit("__TARGET_PROCESS_ID__");
        reveal_strlit("__TARGET_STARTED_TICKS__");
        reveal_strlit("__KNOWN_STUDIOS_BASE64__");
        reveal_strlit("__RESULT_PATH__");
        reveal_strlit("__INSTALL_ROOT__");
        reveal_strlit("__SECURITY_PREAMBLE__");
    }
    let (name, process_id, started_ticks) = match mode {
        StudioSessionScriptMode::Query => ("query", 0u32, 0i64),
        StudioSessionScriptMode::Reconnect { process_id, started_ticks } => ("reconnect", process_id, started_ticks),
        StudioSessionScriptMode::Stop { process_id, started_ticks } => ("stop", process_id, started_ticks),
    };
    let known = crate::outside::base64_encode(known_json);
    let digits = string_from(&decimal_chars(process_id as u64));
    let ticks = string_from(&signed_decimal_chars(started_ticks));
    let text = to_chars(template);
    let text = fill(&text, "__MODE__", name);
    let text = fill(&text, "__TARGET_PROCESS_ID__", digits.as_str());
    let text = fill(&text, "__TARGET_STARTED_TICKS__", ticks.as_str());
    let text = fill(&text, "__KNOWN_STUDIOS_BASE64__", known.as_str());
    let text = fill(&text, "__RESULT_PATH__", powershell_literal(windows_report_path).as_str());
    let text = fill(&text, "__INSTALL_ROOT__", powershell_literal(install_root).as_str());
    let text = fill(&text, "__SECURITY_PREAMBLE__", preamble);
    string_from(&text)
}

/// Each session mode fills `__MODE__` with its own wire name, `query`, `reconnect` or `stop`,
/// and the three names differ, so a reconnect is never sent as a stop or a query.
pub proof fn lemma_session_modes_have_their_own_names(mode: StudioSessionScriptMode, other: StudioSessionScriptMode)
    ensures
        mode is Query ==> session_mode_fields(mode).0 == "query"@,
        mode is Reconnect ==> session_mode_fields(mode).0 == "reconnect"@,
        mode is Stop ==> session_mode_fields(mode).0 == "stop"@,
        (mode is Query) != (other is Query) || (mode is Reconnect) != (other is Reconnect)
            ==> session_mode_fields(mode).0 != session_mode_fields(other).0,
{
    reveal_strlit("query");
    reveal_strlit("reconnect");
    reveal_strlit("stop");
    assert("query"@.len() == 5 && "reconnect"@.len() == 9 && "stop"@.len() == 4);
    assert("query"@[0] != "stop"@[0]);
}

} // verus!
