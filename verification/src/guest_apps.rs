//! The guest server's health answer and application list, checked against fixed bounds
//! before anything reads them.
use vstd::prelude::*;
use crate::text::{any_control, equals_str, to_chars, utf8_len, utf8_length_within, is_control};
use crate::ui_automation::no_control;
use crate::outside::{spec_utf8_decode, utf8_decode};

verus! {

pub const MAX_LEGACY_APPS: usize = 4096;

pub const MAX_PROJECTED_APPS: usize = 128;

pub const MAX_CAPABILITIES: usize = 64;

pub const MAX_CAPABILITY_BYTES: usize = 128;

pub const MAX_APP_NAME_BYTES: usize = 4096;

pub const MAX_APP_PATH_BYTES: usize = 32768;

pub const MAX_APP_SOURCE_BYTES: usize = 4096;

pub const MAX_APPS_RESPONSE_BYTES: usize = 8388608;

pub const MAX_PROJECTED_APPS_RESPONSE_BYTES: usize = 262144;

pub const APPS_QUERY_CAPABILITY: &'static str = "apps-query-v1";

/// An application the guest lists.
#[derive(Debug, Clone, PartialEq, Eq)]
pub struct WinApp {
    pub name: String,
    pub path: String,
    pub source: String,
}

pub open spec fn app_valid(app: WinApp) -> bool {
    &&& app.name@.len() > 0
    &&& app.path@.len() > 0
    &&& utf8_len(app.name@) <= MAX_APP_NAME_BYTES
    &&& utf8_len(app.path@) <= MAX_APP_PATH_BYTES
    &&& utf8_len(app.source@) <= MAX_APP_SOURCE_BYTES
    &&& no_control(app.name@)
    &&& no_control(app.path@)
    &&& no_control(app.source@)
}

/// Why an application list is refused.
#[derive(Debug, Clone, Copy, PartialEq, Eq, Structural)]
pub enum AppListError {
    TooManyApps,
    InvalidField,
}

fn text_ok(value: &str, allow_empty: bool, limit: usize) -> (r: bool)
    requires
        limit <= usize::MAX / 4,
    ensures
        r == ((allow_empty || value@.len() > 0) && utf8_len(value@) <= limit && no_control(value@)),
{
    let chars = to_chars(value);
    if !allow_empty && chars.len() == 0 {
        return false;
    }
    utf8_length_within(&chars, limit).is_some() && !any_control(&chars)
}

/// Accepts at most `max_apps` applications, each with a non-empty name and path, bounded
/// fields and no control characters.
pub fn validate_apps(apps: &[WinApp], max_apps: usize) -> (r: Result<(), AppListError>)
    ensures
        apps@.len() > max_apps ==> r == Err::<(), AppListError>(AppListError::TooManyApps),
        apps@.len() <= max_apps ==> (r is Ok <==> forall|i: int| 0 <= i < apps@.len() ==> app_valid(#[trigger] apps@[i])),
        apps@.len() <= max_apps ==> (r is Err ==> r == Err::<(), AppListError>(AppListError::InvalidField)),
{
    if apps.len() > max_apps {
        return Err(AppListError::TooManyApps);
    }
    let mut i: usize = 0;
    while i < apps.len()
        invariant
            i <= apps@.len(),
            apps@.len() <= max_apps,
            forall|j: int| 0 <= j < i ==> app_valid(#[trigger] apps@[j]),
        decreases apps.len() - i,
    {
        let app = &apps[i];
        if !text_ok(app.name.as_str(), false, MAX_APP_NAME_BYTES) || !text_ok(app.path.as_str(), false, MAX_APP_PATH_BYTES)
            || !text_ok(app.source.as_str(), true, MAX_APP_SOURCE_BYTES) {
            return Err(AppListError::InvalidField);
        }
        i = i + 1;
    }
    Ok(())
}

/// The guest server's health answer.
#[derive(Debug, Clone, PartialEq, Eq)]
pub struct GuestHealth {
    pub status: String,
    pub capabilities: Vec<String>,
    pub authentication: Option<String>,
}

pub open spec fn metadata_text_valid(s: Seq<char>) -> bool {
    s.len() > 0 && utf8_len(s) <= MAX_CAPABILITY_BYTES && no_control(s)
}

/// Why a health answer is refused.
#[derive(Debug, Clone, Copy, PartialEq, Eq, Structural)]
pub enum HealthError {
    NotOk,
    CapabilitiesExceedLimits,
    InvalidAuthentication,
}

impl GuestHealth {
    pub open spec fn validity(&self) -> Result<(), HealthError> {
        if self.status@ != "ok"@ {
            Err(HealthError::NotOk)
        } else if self.capabilities@.len() > MAX_CAPABILITIES
            || exists|i: int| 0 <= i < self.capabilities@.len() && !metadata_text_valid(#[trigger] self.capabilities@[i]@) {
            Err(HealthError::CapabilitiesExceedLimits)
        } else if self.authentication matches Some(a) && !metadata_text_valid(a@) {
            Err(HealthError::InvalidAuthentication)
        } else {
            Ok(())
        }
    }

    /// Accepts an `ok` health answer with at most 64 bounded capabilities and bounded
    /// authentication metadata.
    pub fn validate(&self) -> (r: Result<(), HealthError>)
        ensures
            r == self.validity(),
    {
        let status = to_chars(self.status.as_str());
        if !equals_str(&status, "ok") {
            return Err(HealthError::NotOk);
        }
        if self.capabilities.len() > MAX_CAPABILITIES {
            return Err(HealthError::CapabilitiesExceedLimits);
        }
        let mut i: usize = 0;
        while i < self.capabilities.len()
            invariant
                i <= self.capabilities@.len(),
                self.status@ == "ok"@,
                self.capabilities@.len() <= MAX_CAPABILITIES,
                forall|j: int| 0 <= j < i ==> metadata_text_valid(#[trigger] self.capabilities@[j]@),
            decreases self.capabilities.len() - i,
        {
            if !text_ok(self.capabilities[i].as_str(), false, MAX_CAPABILITY_BYTES) {
                assert(!metadata_text_valid(self.capabilities@[i as int]@));
                return Err(HealthError::CapabilitiesExceedLimits);
            }
            i = i + 1;
        }
        match &self.authentication {
            Some(a) => {
                if !text_ok(a.as_str(), false, MAX_CAPABILITY_BYTES) {
                    return Err(HealthError::InvalidAuthentication);
                }
            },
            None => {},
        }
        Ok(())
    }

    /// Whether the guest offers the projected application query.
    pub fn supports_projected_apps(&self) -> (b: bool)
        ensures
            b == exists|i: int| 0 <= i < self.capabilities@.len() && (#[trigger] self.capabilities@[i])@ == APPS_QUERY_CAPABILITY@,
    {
        let mut i: usize = 0;
        while i < self.capabilities.len()
            invariant
                i <= self.capabilities@.len(),
                forall|j: int| 0 <= j < i ==> (#[trigger] self.capabilities@[j])@ != APPS_QUERY_CAPABILITY@,
            decreases self.capabilities.len() - i,
        {
            let c = to_chars(self.capabilities[i].as_str());
            if equals_str(&c, APPS_QUERY_CAPABILITY) {
                return true;
            }
            i = i + 1;
        }
        false
    }
}

/// Which application query is used, and its bounds.
#[derive(Debug, Clone, Copy, PartialEq, Eq, Structural)]
pub enum AppsRequestMode {
    Projected,
    Legacy,
}

impl AppsRequestMode {
    pub fn response_limit(self) -> (n: usize)
        ensures
            n == (if self == AppsRequestMode::Projected { MAX_PROJECTED_APPS_RESPONSE_BYTES } else { MAX_APPS_RESPONSE_BYTES }),
    {
        match self {
            AppsRequestMode::Projected => MAX_PROJECTED_APPS_RESPONSE_BYTES,
            AppsRequestMode::Legacy => MAX_APPS_RESPONSE_BYTES,
        }
    }

    pub fn app_limit(self) -> (n: usize)
        ensures
            n == (if self == AppsRequestMode::Projected { MAX_PROJECTED_APPS } else { MAX_LEGACY_APPS }),
    {
        match self {
            AppsRequestMode::Projected => MAX_PROJECTED_APPS,
            AppsRequestMode::Legacy => MAX_LEGACY_APPS,
        }
    }

    /// The request timeout, in seconds.
    pub fn request_timeout_seconds(self) -> (n: u64)
        ensures
            n == (if self == AppsRequestMode::Projected { 12u64 } else { 30u64 }),
    {
        match self {
            AppsRequestMode::Projected => 12,
            AppsRequestMode::Legacy => 30,
        }
    }

    pub fn trace_label(self) -> (r: &'static str)
        ensures
            r@ == (if self == AppsRequestMode::Projected { "projected"@ } else { "legacy"@ }),
    {
        match self {
            AppsRequestMode::Projected => "projected",
            AppsRequestMode::Legacy => "legacy",
        }
    }
}

/// The largest health answer read.
pub const MAX_HEALTH_RESPONSE_BYTES: usize = 16384;
/// The largest guest token file read.
pub const MAX_GUEST_TOKEN_BYTES: u64 = 4096;
/// The file name suffix every Studio Pro executable path ends with.
pub const STUDIO_EXECUTABLE_SUFFIX: &'static str = "\\modeler\\studiopro.exe";

/// Why listing the guest's applications failed; each names the message the user sees.
#[derive(Debug, Clone, Copy, PartialEq, Eq, Structural)]
pub enum GuestAppsError {
    /// The guest asks for a bearer token the application does not have, or refused it.
    AuthRequired,
    /// The guest names an authentication mode other than `bearer`.
    UnsupportedAuthentication,
    /// The guest answered with an HTTP client or server error.
    ResponseStatus(u16),
    /// The answer is larger than its bound.
    Oversized,
    /// The guest token file is unusable.
    AuthToken,
}

impl GuestAppsError {
    /// The key of the message shown for the error.
    pub fn message_key(&self) -> (r: &'static str)
        ensures
            r@ == match *self {
                GuestAppsError::AuthRequired => "error-guest-auth-required"@,
                GuestAppsError::UnsupportedAuthentication | GuestAppsError::ResponseStatus(_) => "error-windows-apps-response"@,
                GuestAppsError::Oversized => "error-windows-apps-parse"@,
                GuestAppsError::AuthToken => "error-guest-auth-token"@,
            },
    {
        match self {
            GuestAppsError::AuthRequired => "error-guest-auth-required",
            GuestAppsError::UnsupportedAuthentication | GuestAppsError::ResponseStatus(_) => "error-windows-apps-response",
            GuestAppsError::Oversized => "error-windows-apps-parse",
            GuestAppsError::AuthToken => "error-guest-auth-token",
        }
    }
}

/// Which application query a checked health answer leads to: a guest that asks for a bearer
/// token gets none unless the application has one, and no other authentication mode is
/// spoken; the projected query is used exactly when the guest offers it.
pub fn apps_request_mode(health: &GuestHealth, authorized: bool) -> (r: Result<AppsRequestMode, GuestAppsError>)
    ensures
        match health.authentication {
            Some(a) => if a@ == "bearer"@ {
                if authorized {
                    r == Ok::<AppsRequestMode, GuestAppsError>(projected_or_legacy(*health))
                } else {
                    r == Err::<AppsRequestMode, GuestAppsError>(GuestAppsError::AuthRequired)
                }
            } else {
                r == Err::<AppsRequestMode, GuestAppsError>(GuestAppsError::UnsupportedAuthentication)
            },
            None => r == Ok::<AppsRequestMode, GuestAppsError>(projected_or_legacy(*health)),
        },
{
    match &health.authentication {
        Some(a) => {
            let text = to_chars(a.as_str());
            if !equals_str(&text, "bearer") {
                return Err(GuestAppsError::UnsupportedAuthentication);
            }
            if !authorized {
                return Err(GuestAppsError::AuthRequired);
            }
        },
        None => {},
    }
    if health.supports_projected_apps() {
        Ok(AppsRequestMode::Projected)
    } else {
        Ok(AppsRequestMode::Legacy)
    }
}

/// The projected query when the guest offers it, else the legacy one.
pub open spec fn projected_or_legacy(health: GuestHealth) -> AppsRequestMode {
    if exists|i: int| 0 <= i < health.capabilities@.len() && (#[trigger] health.capabilities@[i])@ == APPS_QUERY_CAPABILITY@ {
        AppsRequestMode::Projected
    } else {
        AppsRequestMode::Legacy
    }
}

/// A Windows path with every `/` turned into `\`.
pub open spec fn windows_separators(path: Seq<char>) -> Seq<char> {
    Seq::new(path.len(), |i: int| if path[i] == '/' { '\\' } else { path[i] })
}

/// The text without trailing `\`.
pub open spec fn trim_trailing_backslashes(s: Seq<char>) -> Seq<char>
    decreases s.len(),
{
    if s.len() > 0 && s.last() == '\\' {
        trim_trailing_backslashes(s.drop_last())
    } else {
        s
    }
}

/// The path prefix of the projected query: the install root with Windows separators, without
/// trailing backslashes, followed by one.
pub open spec fn install_path_prefix(install_root: Seq<char>) -> Seq<char> {
    trim_trailing_backslashes(windows_separators(install_root)).push('\\')
}

pub(crate) fn with_windows_separators(path: &str) -> (r: Vec<char>)
    ensures
        r@ == windows_separators(path@),
{
    let chars = to_chars(path);
    let mut out: Vec<char> = Vec::new();
    let mut i: usize = 0;
    while i < chars.len()
        invariant
            i <= chars@.len(),
            chars@ == path@,
            out@ == windows_separators(path@).take(i as int),
        decreases chars@.len() - i,
    {
        let c = chars[i];
        out.push(if c == '/' { '\\' } else { c });
        assert(out@ =~= windows_separators(path@).take(i + 1));
        i = i + 1;
    }
    assert(windows_separators(path@).take(chars@.len() as int) =~= windows_separators(path@));
    out
}

pub(crate) fn without_trailing_backslashes(s: &Vec<char>) -> (r: Vec<char>)
    ensures
        r@ == trim_trailing_backslashes(s@),
{
    let mut end: usize = s.len();
    assert(s@.take(end as int) =~= s@);
    while end > 0 && s[end - 1] == '\\'
        invariant
            end <= s@.len(),
            trim_trailing_backslashes(s@) == trim_trailing_backslashes(s@.take(end as int)),
        decreases end,
    {
        assert(s@.take(end as int).drop_last() =~= s@.take(end - 1));
        end = end - 1;
    }
    let r = crate::text::slice(s, 0, end);
    assert(r@ =~= s@.take(end as int));
    r
}

/// The path prefix of the projected query for an install root.
pub fn path_prefix(install_root: &str) -> (r: String)
    ensures
        r@ == install_path_prefix(install_root@),
{
    let separated = with_windows_separators(install_root);
    let mut trimmed = without_trailing_backslashes(&separated);
    trimmed.push('\\');
    crate::text::string_from(&trimmed)
}

/// The query parameters of an application request: the projected query asks for Studio Pro
/// executables under the install root, without icons, with the three fields and at most
/// 128 applications; the legacy query has none.
pub fn apps_query(mode: AppsRequestMode, install_root: &str) -> (r: Vec<(String, String)>)
    ensures
        mode == AppsRequestMode::Legacy ==> r@.len() == 0,
        mode == AppsRequestMode::Projected ==> {
            &&& r@.len() == 5
            &&& r@[0].0@ == "includeIcons"@ && r@[0].1@ == "false"@
            &&& r@[1].0@ == "pathPrefix"@ && r@[1].1@ == install_path_prefix(install_root@)
            &&& r@[2].0@ == "pathSuffix"@ && r@[2].1@ == STUDIO_EXECUTABLE_SUFFIX@
            &&& r@[3].0@ == "fields"@ && r@[3].1@ == "Name,Path,Source"@
            &&& r@[4].0@ == "limit"@ && r@[4].1@ == "128"@
        },
{
    let mut query: Vec<(String, String)> = Vec::new();
    if mode == AppsRequestMode::Projected {
        query.push((crate::text::string_of("includeIcons"), crate::text::string_of("false")));
        query.push((crate::text::string_of("pathPrefix"), path_prefix(install_root)));
        query.push((crate::text::string_of("pathSuffix"), crate::text::string_of(STUDIO_EXECUTABLE_SUFFIX)));
        query.push((crate::text::string_of("fields"), crate::text::string_of("Name,Path,Source")));
        query.push((crate::text::string_of("limit"), crate::text::string_of("128")));
    }
    query
}

/// What an HTTP status means for the application list: 401 and 403 ask for a token, other
/// client and server errors fail, anything else goes on to the body.
pub fn apps_status(status: u16) -> (r: Result<(), GuestAppsError>)
    ensures
        (status == 401 || status == 403) ==> r == Err::<(), GuestAppsError>(GuestAppsError::AuthRequired),
        !(status == 401 || status == 403) && 400 <= status <= 599 ==> r == Err::<(), GuestAppsError>(GuestAppsError::ResponseStatus(status)),
        !(400 <= status <= 599) ==> r is Ok,
{
    if status == 401 || status == 403 {
        Err(GuestAppsError::AuthRequired)
    } else if 400 <= status && status <= 599 {
        Err(GuestAppsError::ResponseStatus(status))
    } else {
        Ok(())
    }
}

/// A response body read in chunks, refused as soon as it would exceed its bound.
pub struct BoundedBody {
    limit: usize,
    bytes: Vec<u8>,
}

impl BoundedBody {
    pub closed spec fn limit_spec(&self) -> nat {
        self.limit as nat
    }

    pub closed spec fn bytes_spec(&self) -> Seq<u8> {
        self.bytes@
    }

    /// A body with a bound; a declared length above it is refused before anything is read.
    pub fn new(limit: usize, content_length: Option<u64>) -> (r: Result<BoundedBody, GuestAppsError>)
        ensures
            (content_length matches Some(n) && n > limit) <==> r is Err,
            r matches Err(e) ==> e == GuestAppsError::Oversized,
            r matches Ok(b) ==> b.limit_spec() == limit && b.bytes_spec().len() == 0,
    {
        match content_length {
            Some(n) => if n > limit as u64 {
                return Err(GuestAppsError::Oversized);
            },
            None => {},
        }
        Ok(BoundedBody { limit, bytes: Vec::new() })
    }

    /// Adds a chunk; a body that would grow past the bound is refused.
    pub fn push(&mut self, chunk: &[u8]) -> (r: Result<(), GuestAppsError>)
        requires
            old(self).bytes_spec().len() <= old(self).limit_spec(),
        ensures
            final(self).limit_spec() == old(self).limit_spec(),
            final(self).bytes_spec().len() <= final(self).limit_spec(),
            r is Ok <==> old(self).bytes_spec().len() + chunk@.len() <= old(self).limit_spec(),
            r is Ok ==> final(self).bytes_spec() == old(self).bytes_spec() + chunk@,
            r is Err ==> final(self).bytes_spec() == old(self).bytes_spec() && r == Err::<(), GuestAppsError>(GuestAppsError::Oversized),
    {
        if chunk.len() > self.limit - self.bytes.len() {
            return Err(GuestAppsError::Oversized);
        }
        let mut i: usize = 0;
        let ghost start = self.bytes@;
        let ghost limit = self.limit;
        while i < chunk.len()
            invariant
                i <= chunk@.len(),
                self.limit == limit,
                self.bytes@ == start + chunk@.take(i as int),
                start.len() + chunk@.len() <= self.limit,
            decreases chunk@.len() - i,
        {
            self.bytes.push(chunk[i]);
            assert(self.bytes@ =~= start + chunk@.take(i + 1));
            i = i + 1;
        }
        assert(chunk@.take(chunk@.len() as int) =~= chunk@);
        Ok(())
    }

    /// The bytes read.
    pub fn into_bytes(self) -> (r: Vec<u8>)
        ensures
            r@ == self.bytes_spec(),
    {
        self.bytes
    }
}

/// What is known of the guest token file before it is read.
#[derive(Debug, Clone, Copy, PartialEq, Eq, Structural)]
pub struct TokenFileFacts {
    pub is_file: bool,
    pub length: u64,
    /// The file belongs to the user the application runs as.
    pub owned_by_caller: bool,
    /// The file's permission bits.
    pub mode: u32,
}

/// The token file may be read: a regular, non-empty file of at most 4 KiB, owned by the
/// caller and not writable by group or others.
pub open spec fn token_file_usable(facts: TokenFileFacts) -> bool {
    &&& facts.is_file
    &&& 0 < facts.length <= MAX_GUEST_TOKEN_BYTES
    &&& facts.owned_by_caller
    &&& facts.mode & 18u32 == 0
}

/// Whether the token file may be read.
pub fn check_token_file(facts: TokenFileFacts) -> (r: Result<(), GuestAppsError>)
    ensures
        r is Ok <==> token_file_usable(facts),
        r is Err ==> r == Err::<(), GuestAppsError>(GuestAppsError::AuthToken),
{
    if !facts.is_file || facts.length == 0 || facts.length > MAX_GUEST_TOKEN_BYTES || !facts.owned_by_caller
        || facts.mode & 18u32 != 0 {
        return Err(GuestAppsError::AuthToken);
    }
    Ok(())
}

/// A usable token: 16 to 512 bytes of printable ASCII.
pub open spec fn token_text_usable(token: Seq<char>) -> bool {
    &&& 16 <= utf8_len(token) <= 512
    &&& forall|i: int| 0 <= i < token.len() ==> crate::text::is_ascii_graphic(#[trigger] token[i])
}

/// The `Authorization` value for the token file's content: `Bearer ` and the trimmed token,
/// when the content is at most 4 KiB of UTF-8 whose trimmed text is a usable token.
pub fn bearer_authorization(content: &[u8]) -> (r: Result<String, GuestAppsError>)
    ensures
        r is Ok <==> (content@.len() <= MAX_GUEST_TOKEN_BYTES && (spec_utf8_decode(content@) matches Some(text)
            && token_text_usable(crate::text::trim_spec(text)))),
        r matches Ok(value) ==> (spec_utf8_decode(content@) matches Some(text)
            && value@ == "Bearer "@ + crate::text::trim_spec(text)),
        r is Err ==> r == Err::<String, GuestAppsError>(GuestAppsError::AuthToken),
{
    if content.len() as u64 > MAX_GUEST_TOKEN_BYTES {
        return Err(GuestAppsError::AuthToken);
    }
    let text = match utf8_decode(content) {
        Some(t) => t,
        None => {
            return Err(GuestAppsError::AuthToken);
        },
    };
    let chars = to_chars(text.as_str());
    let token = crate::text::trim(&chars);
    let mut i: usize = 0;
    while i < token.len()
        invariant
            i <= token@.len(),
            token@ == crate::text::trim_spec(text@),
            spec_utf8_decode(content@) == Some(text@),
            content@.len() <= MAX_GUEST_TOKEN_BYTES,
            forall|j: int| 0 <= j < i ==> crate::text::is_ascii_graphic(#[trigger] token@[j]),
        decreases token@.len() - i,
    {
        let c = token[i];
        if !('!' <= c && c <= '~') {
            assert(!crate::text::is_ascii_graphic(token@[i as int]));
            return Err(GuestAppsError::AuthToken);
        }
        i = i + 1;
    }
    proof {
        crate::text::lemma_utf8_len_ascii(token@);
    }
    if token.len() < 16 || token.len() > 512 {
        return Err(GuestAppsError::AuthToken);
    }
    let mut value = to_chars("Bearer ");
    crate::text::push_all(&mut value, &token);
    Ok(crate::text::string_from(&value))
}

} // verus!
