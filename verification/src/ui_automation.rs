//! Bounded Studio UI requests: the operations, the request record and the checks a request
//! must pass before anything reaches the guest helper, and the error a UI request fails with.
use vstd::prelude::*;
use crate::contracts::{
    BackendError, BackendErrorCode, BackendId, CapabilityId, UiActionKind,
};
use crate::text::{
    all_digits, any_control, ascii_alphanumeric, ascii_digit, chars_equal, contains_char, decimal,
    decimal_chars, equals_str, has_prefix, parse_i32, parse_i32_spec, push_all,
    is_ascii_alphanumeric, is_ascii_digit, is_control, parse_i64, parse_i64_spec, parse_u32,
    parse_u32_spec, signed_decimal_chars, signed_decimal_text, split_once, split_once_spec, starts_with_str,
    slice, to_chars, utf8_len,
    utf8_length_within,
};

verus! {

pub const MAX_RESPONSE: u64 = 16777216;

pub const MAX_REQUEST: u64 = 8192;

pub const DEFAULT_TIMEOUT_MS: u64 = 15000;

pub const MAX_TIMEOUT_MS: u64 = 60000;

/// The smallest start-tick value a Studio session ID can carry (the .NET ticks of the Unix
/// epoch).
pub const MIN_SESSION_TICKS: i64 = 621355968000000000;

#[derive(Debug, Clone, Copy, PartialEq, Eq, Structural)]
pub enum Operation {
    Capabilities,
    Tree,
    Find,
    Action,
    Wait,
    Screenshot,
    Release,
    Reconnect,
}

impl Operation {
    pub open spec fn capability_spec(self) -> CapabilityId {
        match self {
            Operation::Capabilities | Operation::Release | Operation::Reconnect => CapabilityId::UiCapabilities,
            Operation::Tree => CapabilityId::UiTree,
            Operation::Find => CapabilityId::UiFind,
            Operation::Action => CapabilityId::UiAction,
            Operation::Wait => CapabilityId::UiWait,
            Operation::Screenshot => CapabilityId::UiScreenshot,
        }
    }

    /// The capability that a request of this operation exercises.
    pub fn capability(self) -> (c: CapabilityId)
        ensures
            c == self.capability_spec(),
    {
        match self {
            Operation::Capabilities | Operation::Release | Operation::Reconnect => CapabilityId::UiCapabilities,
            Operation::Tree => CapabilityId::UiTree,
            Operation::Find => CapabilityId::UiFind,
            Operation::Action => CapabilityId::UiAction,
            Operation::Wait => CapabilityId::UiWait,
            Operation::Screenshot => CapabilityId::UiScreenshot,
        }
    }

    pub open spec fn name_spec(self) -> Seq<char> {
        match self {
            Operation::Release => "ui.release"@,
            Operation::Reconnect => "ui.reconnect"@,
            _ => self.capability_spec().name_spec(),
        }
    }

    /// The operation's wire name: its capability's, except for release and reconnect.
    pub fn name(self) -> (r: &'static str)
        ensures
            r@ == self.name_spec(),
    {
        match self {
            Operation::Release => "ui.release",
            Operation::Reconnect => "ui.reconnect",
            _ => self.capability().as_str(),
        }
    }
}

/// How a find or wait request names an element; at least one of role, name and
/// automation ID must be given.
#[derive(Debug, Clone, Default, PartialEq, Eq)]
pub struct Selector {
    pub role: Option<String>,
    pub name: Option<String>,
    pub automation_id: Option<String>,
    pub scope_id: Option<String>,
}

#[derive(Debug, Clone, PartialEq, Eq)]
pub struct Request {
    pub session_id: String,
    pub operation: Operation,
    pub timeout_ms: u64,
    pub selector: Option<Selector>,
    pub element_id: Option<String>,
    pub action: Option<UiActionKind>,
    pub value: Option<String>,
    pub condition: Option<String>,
    pub window_id: Option<String>,
    /// Physical pixels relative to the selected window: x, y, width, height.
    pub region: Option<[u32; 4]>,
}

/// The middle part of a session ID: the Studio process ID in plain decimal digits.
pub open spec fn session_pid_valid(part: Seq<char>) -> bool {
    &&& all_digits(part)
    &&& parse_u32_spec(part) matches Some(n) && n > 0
}

/// The last part of a session ID: the process start ticks, 18 bytes long and after the
/// Unix epoch.
pub open spec fn session_ticks_valid(part: Seq<char>) -> bool {
    &&& utf8_len(part) == 18
    &&& parse_i64_spec(part) matches Some(n) && n > MIN_SESSION_TICKS
}

/// `studio-<pid>-<ticks>`, split on `-` into exactly these three parts.
pub open spec fn session_id_valid(s: Seq<char>) -> bool {
    match split_once_spec(s, '-') {
        Some((first, rest)) => first == "studio"@ && match split_once_spec(rest, '-') {
            Some((pid, ticks)) => session_pid_valid(pid) && !ticks.contains('-')
                && session_ticks_valid(ticks),
            None => false,
        },
        None => false,
    }
}

pub open spec fn element_id_char(c: char) -> bool {
    is_ascii_alphanumeric(c) || c == '.' || c == ':' || c == '-'
}

/// An element or window ID: 34 to 180 ASCII letters, digits, `.`, `:` or `-`.
pub open spec fn element_id_valid(s: Seq<char>) -> bool {
    &&& 34 <= s.len() <= 180
    &&& forall|i: int| 0 <= i < s.len() ==> element_id_char(#[trigger] s[i])
}

pub open spec fn no_control(s: Seq<char>) -> bool {
    forall|i: int| 0 <= i < s.len() ==> !is_control(#[trigger] s[i])
}

/// A selector text: not empty, at most 256 bytes and free of control characters.
pub open spec fn selector_text_valid(s: Seq<char>) -> bool {
    s.len() > 0 && utf8_len(s) <= 256 && no_control(s)
}

/// A value to type or set: at most 256 bytes and free of control characters.
pub open spec fn value_text_valid(s: Seq<char>) -> bool {
    utf8_len(s) <= 256 && no_control(s)
}

pub open spec fn optional_valid(o: Option<String>, valid: spec_fn(Seq<char>) -> bool) -> bool {
    o matches Some(t) ==> valid(t@)
}

pub open spec fn selector_valid(sel: Selector) -> bool {
    &&& sel.role is Some || sel.name is Some || sel.automation_id is Some
    &&& optional_valid(sel.role, |t: Seq<char>| selector_text_valid(t))
    &&& optional_valid(sel.name, |t: Seq<char>| selector_text_valid(t))
    &&& optional_valid(sel.automation_id, |t: Seq<char>| selector_text_valid(t))
    &&& optional_valid(sel.scope_id, |t: Seq<char>| element_id_valid(t))
}

/// The states a semantic wait can name.
pub open spec fn wait_condition_valid(s: Seq<char>) -> bool {
    ||| s == "project-ready"@
    ||| s == "building"@
    ||| s == "deploying"@
    ||| s == "starting-runtime"@
    ||| s == "running"@
    ||| s == "modal"@
}

/// The keys that keyboard input may send.
pub open spec fn keyboard_key_valid(s: Seq<char>) -> bool {
    ||| s == "Tab"@
    ||| s == "F5"@
    ||| s == "Ctrl+G"@
    ||| s == "Ctrl+S"@
    ||| s == "Enter"@
    ||| s == "Right"@
    ||| s == "Escape"@
}

pub open spec fn action_requires_value(action: UiActionKind) -> bool {
    action == UiActionKind::SetValue || action == UiActionKind::KeyboardInput
}

/// A capture region inside the 4096 by 4096 pixel bound, with a non-empty area.
pub open spec fn region_valid(region: [u32; 4]) -> bool {
    &&& region[2] != 0
    &&& region[3] != 0
    &&& region[0] + region[2] <= 4096
    &&& region[1] + region[3] <= 4096
}

/// Everything a bounded UI request must satisfy apart from its encoded size.
pub open spec fn request_fields_valid(r: Request) -> bool {
    let op = r.operation;
    &&& session_id_valid(r.session_id@)
    &&& 100 <= r.timeout_ms <= MAX_TIMEOUT_MS
    &&& optional_valid(r.element_id, |t: Seq<char>| element_id_valid(t))
    &&& optional_valid(r.window_id, |t: Seq<char>| element_id_valid(t))
    &&& r.selector matches Some(sel) ==> selector_valid(sel)
    &&& optional_valid(r.value, |t: Seq<char>| value_text_valid(t))
    &&& r.selector is Some ==> (op == Operation::Find || op == Operation::Wait)
    &&& op == Operation::Find ==> r.selector is Some
    &&& op == Operation::Wait ==> (r.selector is Some) != (r.condition is Some)
    &&& op == Operation::Wait ==> optional_valid(r.condition, |t: Seq<char>| wait_condition_valid(t))
    &&& op != Operation::Wait ==> r.condition is None
    &&& op == Operation::Action ==> {
        &&& r.action matches Some(action)
        &&& r.element_id is Some
        &&& action_requires_value(r.action->0) == (r.value is Some)
        &&& r.action == Some(UiActionKind::KeyboardInput) ==> (r.value matches Some(v) && keyboard_key_valid(v@))
    }
    &&& op != Operation::Action ==> r.action is None && r.element_id is None && r.value is None
    &&& op != Operation::Screenshot ==> r.window_id is None && r.region is None
    &&& r.region matches Some(region) ==> region_valid(region)
}

/// The error every refused bounded UI request gets.
pub open spec fn invalid_ui_request(e: BackendError) -> bool {
    &&& e.code == BackendErrorCode::InvalidRequest
    &&& e.message@ == "invalid bounded UI request"@
}

fn session_pid_ok(part: &[char]) -> (r: bool)
    ensures
        r == session_pid_valid(part@),
{
    let mut i: usize = 0;
    while i < part.len()
        invariant
            i <= part.len(),
            forall|j: int| 0 <= j < i ==> is_ascii_digit(#[trigger] part@[j]),
        decreases part.len() - i,
    {
        if !ascii_digit(part[i]) {
            return false;
        }
        i = i + 1;
    }
    match parse_u32(part) {
        Some(n) => n > 0,
        None => false,
    }
}

fn session_ticks_ok(part: &[char]) -> (r: bool)
    ensures
        r == session_ticks_valid(part@),
{
    match utf8_length_within(part, 18) {
        Some(n) => {
            if n != 18 {
                return false;
            }
        },
        None => {
            return false;
        },
    }
    match parse_i64(part) {
        Some(n) => n > MIN_SESSION_TICKS,
        None => false,
    }
}

/// Whether `session_id` is a Studio session ID, `studio-<pid>-<ticks>`.
pub fn valid_session_id(session_id: &str) -> (r: bool)
    ensures
        r == session_id_valid(session_id@),
{
    let chars = to_chars(session_id);
    match split_once(&chars, '-') {
        None => false,
        Some((first, rest)) => {
            if !equals_str(&first, "studio") {
                return false;
            }
            match split_once(&rest, '-') {
                None => false,
                Some((pid, ticks)) => session_pid_ok(&pid) && !contains_char(&ticks, '-')
                    && session_ticks_ok(&ticks),
            }
        },
    }
}

/// Whether `value` can name an element or window.
pub fn valid_element_id(value: &str) -> (r: bool)
    ensures
        r == element_id_valid(value@),
{
    let chars = to_chars(value);
    if chars.len() < 34 || chars.len() > 180 {
        return false;
    }
    let mut i: usize = 0;
    while i < chars.len()
        invariant
            i <= chars.len(),
            chars@ == value@,
            forall|j: int| 0 <= j < i ==> element_id_char(#[trigger] chars@[j]),
        decreases chars.len() - i,
    {
        let c = chars[i];
        if !(ascii_alphanumeric(c) || c == '.' || c == ':' || c == '-') {
            return false;
        }
        i = i + 1;
    }
    true
}

fn text_within(value: &str, allow_empty: bool) -> (r: bool)
    ensures
        r == ((allow_empty || value@.len() > 0) && utf8_len(value@) <= 256 && no_control(value@)),
{
    let chars = to_chars(value);
    if !allow_empty && chars.len() == 0 {
        return false;
    }
    match utf8_length_within(&chars, 256) {
        None => false,
        Some(_) => !any_control(&chars),
    }
}

fn optional_text(value: &Option<String>, allow_empty: bool) -> (r: bool)
    ensures
        r == (value matches Some(t) ==> ((allow_empty || t@.len() > 0) && utf8_len(t@) <= 256
            && no_control(t@))),
{
    match value {
        Some(t) => text_within(t.as_str(), allow_empty),
        None => true,
    }
}

fn optional_element_id(value: &Option<String>) -> (r: bool)
    ensures
        r == optional_valid(*value, |t: Seq<char>| element_id_valid(t)),
{
    match value {
        Some(t) => valid_element_id(t.as_str()),
        None => true,
    }
}

fn selector_ok(sel: &Selector) -> (r: bool)
    ensures
        r == selector_valid(*sel),
{
    if sel.role.is_none() && sel.name.is_none() && sel.automation_id.is_none() {
        return false;
    }
    optional_text(&sel.role, false) && optional_text(&sel.name, false) && optional_text(
        &sel.automation_id,
        false,
    ) && optional_element_id(&sel.scope_id)
}

fn wait_condition_ok(s: &str) -> (r: bool)
    ensures
        r == wait_condition_valid(s@),
{
    let c = to_chars(s);
    equals_str(&c, "project-ready") || equals_str(&c, "building") || equals_str(&c, "deploying")
        || equals_str(&c, "starting-runtime") || equals_str(&c, "running") || equals_str(
        &c,
        "modal",
    )
}

/// The seven documented keys, Tab, F5, Ctrl+G, Ctrl+S, Enter, Right and Escape, are each
/// accepted as the value of an otherwise valid keyboard-input action, and a valid
/// keyboard-input action sends one of them and nothing else.
pub proof fn lemma_documented_keys_are_accepted(r: Request, key: String)
    requires
        request_fields_valid(r),
        r.action == Some(UiActionKind::KeyboardInput),
    ensures
        r.value matches Some(v) && (v@ == "Tab"@ || v@ == "F5"@ || v@ == "Ctrl+G"@ || v@ == "Ctrl+S"@ || v@ == "Enter"@ || v@ == "Right"@ || v@ == "Escape"@),
        (key@ == "Tab"@ || key@ == "F5"@ || key@ == "Ctrl+G"@ || key@ == "Ctrl+S"@ || key@ == "Enter"@ || key@ == "Right"@ || key@ == "Escape"@) ==> request_fields_valid(Request { value: Some(key), ..r }),
{
    reveal_strlit("Tab");
    reveal_strlit("F5");
    reveal_strlit("Ctrl+G");
    reveal_strlit("Ctrl+S");
    reveal_strlit("Enter");
    reveal_strlit("Right");
    reveal_strlit("Escape");
    if key@ == "Tab"@ || key@ == "F5"@ || key@ == "Ctrl+G"@ || key@ == "Ctrl+S"@ || key@ == "Enter"@ || key@ == "Right"@ || key@ == "Escape"@ {
        assert forall|i: int| 0 <= i < key@.len() implies crate::text::is_ascii_graphic(#[trigger] key@[i]) by {
            if key@ == "Tab"@ { assert(key@[0] == 'T' && key@[1] == 'a' && key@[2] == 'b' && key@.len() == 3); }
            if key@ == "F5"@ { assert(key@[0] == 'F' && key@[1] == '5' && key@.len() == 2); }
            if key@ == "Ctrl+G"@ { assert(key@[0] == 'C' && key@[1] == 't' && key@[2] == 'r' && key@[3] == 'l' && key@[4] == '+' && key@[5] == 'G' && key@.len() == 6); }
            if key@ == "Ctrl+S"@ { assert(key@[0] == 'C' && key@[1] == 't' && key@[2] == 'r' && key@[3] == 'l' && key@[4] == '+' && key@[5] == 'S' && key@.len() == 6); }
            if key@ == "Enter"@ { assert(key@[0] == 'E' && key@[1] == 'n' && key@[2] == 't' && key@[3] == 'e' && key@[4] == 'r' && key@.len() == 5); }
            if key@ == "Right"@ { assert(key@[0] == 'R' && key@[1] == 'i' && key@[2] == 'g' && key@[3] == 'h' && key@[4] == 't' && key@.len() == 5); }
            if key@ == "Escape"@ { assert(key@[0] == 'E' && key@[1] == 's' && key@[2] == 'c' && key@[3] == 'a' && key@[4] == 'p' && key@[5] == 'e' && key@.len() == 6); }
        }
        crate::text::lemma_utf8_len_ascii(key@);
        assert(value_text_valid(key@));
    }
}

fn keyboard_key_ok(s: &str) -> (r: bool)
    ensures
        r == keyboard_key_valid(s@),
{
    let c = to_chars(s);
    equals_str(&c, "Tab") || equals_str(&c, "F5") || equals_str(&c, "Ctrl+G") || equals_str(
        &c,
        "Ctrl+S",
    ) || equals_str(&c, "Enter") || equals_str(&c, "Right") || equals_str(&c, "Escape")
}

fn region_ok(region: [u32; 4]) -> (r: bool)
    ensures
        r == region_valid(region),
{
    let x = region[0];
    let y = region[1];
    let w = region[2];
    let h = region[3];
    w != 0 && h != 0 && (x as u64) + (w as u64) <= 4096 && (y as u64) + (h as u64) <= 4096
}

impl Request {
    /// A request with the default timeout and no optional part.
    pub fn new(session_id: &str, operation: Operation) -> (r: Self)
        ensures
            r.session_id@ == session_id@,
            r.operation == operation,
            r.timeout_ms == DEFAULT_TIMEOUT_MS,
            r.selector is None,
            r.element_id is None,
            r.action is None,
            r.value is None,
            r.condition is None,
            r.window_id is None,
            r.region is None,
    {
        Request {
            session_id: crate::text::string_of(session_id),
            operation,
            timeout_ms: DEFAULT_TIMEOUT_MS,
            selector: None,
            element_id: None,
            action: None,
            value: None,
            condition: None,
            window_id: None,
            region: None,
        }
    }

    /// Checks every field of the request; the encoded size is checked by `validate`.
    pub fn validate_fields(&self) -> (r: Result<(), BackendError>)
        ensures
            r is Ok <==> request_fields_valid(*self),
            r matches Err(e) ==> invalid_ui_request(e),
    {
        let op = self.operation;
        if !valid_session_id(self.session_id.as_str()) || self.timeout_ms < 100
            || self.timeout_ms > MAX_TIMEOUT_MS || !optional_element_id(&self.element_id)
            || !optional_element_id(&self.window_id) {
            return Err(BackendError::invalid_request("invalid bounded UI request"));
        }
        match &self.selector {
            Some(sel) => {
                if !selector_ok(sel) {
                    return Err(BackendError::invalid_request("invalid bounded UI request"));
                }
            },
            None => {},
        }
        if !optional_text(&self.value, true) {
            return Err(BackendError::invalid_request("invalid bounded UI request"));
        }
        let finding = op == Operation::Find || op == Operation::Wait;
        if self.selector.is_some() && !finding {
            return Err(BackendError::invalid_request("invalid bounded UI request"));
        }
        if op == Operation::Find && self.selector.is_none() {
            return Err(BackendError::invalid_request("invalid bounded UI request"));
        }
        if op == Operation::Wait {
            if self.selector.is_some() == self.condition.is_some() {
                return Err(BackendError::invalid_request("invalid bounded UI request"));
            }
            match &self.condition {
                Some(c) => {
                    if !wait_condition_ok(c.as_str()) {
                        return Err(BackendError::invalid_request("invalid bounded UI request"));
                    }
                },
                None => {},
            }
        } else if self.condition.is_some() {
            return Err(BackendError::invalid_request("invalid bounded UI request"));
        }
        if op == Operation::Action {
            let action = match self.action {
                Some(a) => a,
                None => {
                    return Err(BackendError::invalid_request("invalid bounded UI request"));
                },
            };
            if self.element_id.is_none() {
                return Err(BackendError::invalid_request("invalid bounded UI request"));
            }
            let requires_value = action == UiActionKind::SetValue || action
                == UiActionKind::KeyboardInput;
            if requires_value != self.value.is_some() {
                return Err(BackendError::invalid_request("invalid bounded UI request"));
            }
            if action == UiActionKind::KeyboardInput {
                let key_ok = match &self.value {
                    Some(v) => keyboard_key_ok(v.as_str()),
                    None => false,
                };
                if !key_ok {
                    return Err(BackendError::invalid_request("invalid bounded UI request"));
                }
            }
        } else if self.action.is_some() || self.element_id.is_some() || self.value.is_some() {
            return Err(BackendError::invalid_request("invalid bounded UI request"));
        }
        if op != Operation::Screenshot && (self.window_id.is_some() || self.region.is_some()) {
            return Err(BackendError::invalid_request("invalid bounded UI request"));
        }
        match self.region {
            Some(region) => {
                if !region_ok(region) {
                    return Err(BackendError::invalid_request("invalid bounded UI request"));
                }
            },
            None => {},
        }
        Ok(())
    }

    /// Checks the request, whose JSON encoding is `encoded_len` bytes long: every field, and
    /// an encoding of at most `MAX_REQUEST` bytes.
    pub fn validate(&self, encoded_len: u64) -> (r: Result<(), BackendError>)
        ensures
            r is Ok <==> (request_fields_valid(*self) && encoded_len <= MAX_REQUEST),
            r matches Err(e) ==> invalid_ui_request(e),
    {
        self.validate_fields()?;
        if encoded_len > MAX_REQUEST {
            return Err(BackendError::invalid_request("invalid bounded UI request"));
        }
        Ok(())
    }
}


/// The fixed reasons a UI failure may report; anything else stays private.
pub open spec fn safe_reason_spec(r: Seq<char>) -> bool {
    ||| r == "ui-session-unavailable"@
    ||| r == "ui-bridge-untrusted"@
    ||| r == "ui-helper-timeout"@
    ||| r == "ui-helper-exited"@
    ||| r == "ui-cancelled"@
    ||| r == "ui-stale-element"@
    ||| r == "ui-wrong-session"@
    ||| r == "ui-no-interactive-desktop"@
    ||| r == "ui-unsupported-version"@
    ||| r == "ui-unsupported-element"@
    ||| r == "ui-ambiguous-element"@
    ||| r == "ui-element-not-found"@
    ||| r == "ui-tree-truncated"@
    ||| r == "ui-modal-blocked"@
    ||| r == "ui-foreground-lost"@
    ||| r == "ui-effect-unverified"@
    ||| r == "ui-provider-failed"@
    ||| r == "ui-invalid-request"@
    ||| r == "ui-capture-failed"@
    ||| r == "ui-request-expired"@
    ||| r == "ui-coordination-busy"@
}

/// The reason itself when it is one of the fixed UI failure reasons.
pub fn safe_reason(reason: &str) -> (r: Option<&'static str>)
    ensures
        r is Some <==> safe_reason_spec(reason@),
        r matches Some(s) ==> s@ == reason@,
{
    let c = to_chars(reason);
    if equals_str(&c, "ui-session-unavailable") {
        return Some("ui-session-unavailable");
    }
    if equals_str(&c, "ui-bridge-untrusted") {
        return Some("ui-bridge-untrusted");
    }
    if equals_str(&c, "ui-helper-timeout") {
        return Some("ui-helper-timeout");
    }
    if equals_str(&c, "ui-helper-exited") {
        return Some("ui-helper-exited");
    }
    if equals_str(&c, "ui-cancelled") {
        return Some("ui-cancelled");
    }
    if equals_str(&c, "ui-stale-element") {
        return Some("ui-stale-element");
    }
    if equals_str(&c, "ui-wrong-session") {
        return Some("ui-wrong-session");
    }
    if equals_str(&c, "ui-no-interactive-desktop") {
        return Some("ui-no-interactive-desktop");
    }
    if equals_str(&c, "ui-unsupported-version") {
        return Some("ui-unsupported-version");
    }
    if equals_str(&c, "ui-unsupported-element") {
        return Some("ui-unsupported-element");
    }
    if equals_str(&c, "ui-ambiguous-element") {
        return Some("ui-ambiguous-element");
    }
    if equals_str(&c, "ui-element-not-found") {
        return Some("ui-element-not-found");
    }
    if equals_str(&c, "ui-tree-truncated") {
        return Some("ui-tree-truncated");
    }
    if equals_str(&c, "ui-modal-blocked") {
        return Some("ui-modal-blocked");
    }
    if equals_str(&c, "ui-foreground-lost") {
        return Some("ui-foreground-lost");
    }
    if equals_str(&c, "ui-effect-unverified") {
        return Some("ui-effect-unverified");
    }
    if equals_str(&c, "ui-provider-failed") {
        return Some("ui-provider-failed");
    }
    if equals_str(&c, "ui-invalid-request") {
        return Some("ui-invalid-request");
    }
    if equals_str(&c, "ui-capture-failed") {
        return Some("ui-capture-failed");
    }
    if equals_str(&c, "ui-request-expired") {
        return Some("ui-request-expired");
    }
    if equals_str(&c, "ui-coordination-busy") {
        return Some("ui-coordination-busy");
    }
    None
}

/// The exception types whose names may cross the command-line boundary.
pub open spec fn diagnostic_kind_valid(k: Seq<char>) -> bool {
    ||| k == "System.Windows.Automation.ElementNotAvailableException"@
    ||| k == "System.Runtime.InteropServices.COMException"@
    ||| k == "System.InvalidOperationException"@
    ||| k == "System.NotSupportedException"@
    ||| k == "System.UnauthorizedAccessException"@
    ||| k == "System.TimeoutException"@
}

/// `uia:<type>:<HRESULT>` with a fixed exception type and a canonical signed 32-bit
/// decimal code.
pub open spec fn safe_diagnostic_spec(value: Seq<char>) -> bool {
    &&& value.len() >= 4
    &&& value.take(4) == "uia:"@
    &&& match split_once_spec(value.skip(4), ':') {
        Some((kind, code)) => diagnostic_kind_valid(kind) && match parse_i32_spec(code) {
            Some(n) => signed_decimal_text(n as int) == code,
            None => false,
        },
        None => false,
    }
}

fn signed_decimal_i32(n: i32) -> (r: Vec<char>)
    ensures
        r@ == signed_decimal_text(n as int),
{
    signed_decimal_chars(n as i64)
}

fn diagnostic_kind_ok(k: &[char]) -> (r: bool)
    ensures
        r == diagnostic_kind_valid(k@),
{
    equals_str(k, "System.Windows.Automation.ElementNotAvailableException") || equals_str(k, "System.Runtime.InteropServices.COMException") || equals_str(k, "System.InvalidOperationException") || equals_str(k, "System.NotSupportedException") || equals_str(k, "System.UnauthorizedAccessException") || equals_str(k, "System.TimeoutException")
}

/// Only fixed CLR type names and a signed HRESULT may cross the command-line boundary;
/// provider exception messages, other type names and paths remain private.
pub fn safe_diagnostic(value: &str) -> (r: bool)
    ensures
        r == safe_diagnostic_spec(value@),
{
    proof {
        reveal_strlit("uia:");
    }
    let chars = to_chars(value);
    if !starts_with_str(&chars, "uia:") {
        return false;
    }
    let rest = slice(&chars, 4, chars.len());
    assert(rest@ =~= value@.skip(4));
    match split_once(&rest, ':') {
        None => false,
        Some((kind, code)) => {
            if !diagnostic_kind_ok(&kind) {
                return false;
            }
            match parse_i32(&code) {
                Some(n) => {
                    let text = signed_decimal_i32(n);
                    chars_equal(&text, &code)
                },
                None => false,
            }
        },
    }
}

/// The reason a UI error reports: the given one when it is a fixed reason, else
/// `ui-provider-failed`.
pub open spec fn ui_error_reason(reason: Seq<char>) -> Seq<char> {
    if safe_reason_spec(reason) {
        reason
    } else {
        "ui-provider-failed"@
    }
}

/// The error code for a fixed UI failure reason.
pub open spec fn ui_error_code(reason: Seq<char>) -> BackendErrorCode {
    if reason == "ui-unsupported-version"@ || reason == "ui-unsupported-element"@ {
        BackendErrorCode::UnsupportedCapability
    } else if reason == "ui-helper-timeout"@ {
        BackendErrorCode::ExternalProcessTimeout
    } else if reason == "ui-cancelled"@ {
        BackendErrorCode::ExternalProcessCancelled
    } else if reason == "ui-invalid-request"@ {
        BackendErrorCode::InvalidRequest
    } else {
        BackendErrorCode::PreconditionFailed
    }
}

/// The error a UI request of `operation` fails with for `reason`. Only a fixed reason is
/// echoed; a busy coordination queue is the one failure worth retrying.
pub fn error(operation: Operation, reason: &str) -> (e: BackendError)
    ensures
        e.message@ == ui_error_reason(reason@),
        e.reason matches Some(r) && r@ == ui_error_reason(reason@),
        e.code == ui_error_code(ui_error_reason(reason@)),
        e.retryable == (ui_error_reason(reason@) == "ui-coordination-busy"@),
        e.backend == Some(BackendId::LinuxWinboat),
        e.capability == Some(operation.capability_spec()),
        e.diagnostic_ref is None,
{
    let chosen: &str = match safe_reason(reason) {
        Some(r) => r,
        None => "ui-provider-failed",
    };
    let c = to_chars(chosen);
    let code = if equals_str(&c, "ui-unsupported-version") || equals_str(&c, "ui-unsupported-element") {
        BackendErrorCode::UnsupportedCapability
    } else if equals_str(&c, "ui-helper-timeout") {
        BackendErrorCode::ExternalProcessTimeout
    } else if equals_str(&c, "ui-cancelled") {
        BackendErrorCode::ExternalProcessCancelled
    } else if equals_str(&c, "ui-invalid-request") {
        BackendErrorCode::InvalidRequest
    } else {
        BackendErrorCode::PreconditionFailed
    };
    let retryable = equals_str(&c, "ui-coordination-busy");
    let mut e = BackendError::operation(BackendId::LinuxWinboat, operation.capability(), chosen);
    e.code = code;
    e.retryable = retryable;
    e
}

} // verus!
