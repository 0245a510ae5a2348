//! The FreeRDP RemoteApp command line that runs guest programs: PowerShell encoding, the
//! argument list, the certificate pin and the reading of FreeRDP's own output.
use vstd::prelude::*;
use crate::outside::{
    base64_decode, base64_encode, sha256, spec_base64_decode, spec_base64_encode, spec_sha256,
    spec_utf8_decode, spec_utf8_lossy, utf8_decode, utf8_lossy,
};
use crate::security::{hex_encode, hex_encode_spec};
use crate::text::{
    ascii_alphanumeric, ascii_lower, ascii_lower_char, ascii_lower_spec, contains_seq, contains_str,
    decimal, decimal_chars, equals_str, is_ascii_alphanumeric, lines, lines_spec, push_all,
    push_str, string_from, string_of, strip_prefix_str, to_chars, trim, trim_spec,
};

verus! {

pub const FREERDP_CERTIFICATE_POLICY: &'static str = "/cert:tofu";

pub const HEADLESS_CONSOLE_HOST: &'static str = "C:\\Windows\\System32\\conhost.exe";

pub const POWERSHELL_EXECUTABLE: &'static str = "C:\\Windows\\System32\\WindowsPowerShell\\v1.0\\powershell.exe";

/// FreeRDP's RemoteApp arguments may take at most this many bytes of UTF-16.
pub const MAX_RAIL_ARGUMENT_BYTES: usize = 16000;

pub const ENCODED_ARGUMENTS_PREFIX: &'static str = "-NoLogo -NoProfile -NonInteractive -WindowStyle Hidden -ExecutionPolicy RemoteSigned -EncodedCommand ";

/// The hidden, non-interactive PowerShell arguments that run an encoded command.
pub fn powershell_encoded_arguments(encoded_command: &str) -> (r: String)
    ensures
        r@ == ENCODED_ARGUMENTS_PREFIX@ + encoded_command@,
{
    let mut out = to_chars(ENCODED_ARGUMENTS_PREFIX);
    push_str(&mut out, encoded_command);
    string_from(&out)
}

/// The same, started through the console host without a window.
pub fn headless_powershell_arguments(encoded_command: &str) -> (r: String)
    ensures
        r@ == "--headless "@ + POWERSHELL_EXECUTABLE@ + " "@ + ENCODED_ARGUMENTS_PREFIX@ + encoded_command@,
{
    let mut out = to_chars("--headless ");
    push_str(&mut out, POWERSHELL_EXECUTABLE);
    push_str(&mut out, " ");
    let arguments = powershell_encoded_arguments(encoded_command);
    push_str(&mut out, arguments.as_str());
    assert(out@ =~= "--headless "@ + POWERSHELL_EXECUTABLE@ + " "@ + ENCODED_ARGUMENTS_PREFIX@ + encoded_command@);
    string_from(&out)
}

/// The UTF-16 code units of one character, little-endian bytes first.
pub open spec fn utf16le_char(c: char) -> Seq<u8> {
    let v = c as u32;
    if v < 0x10000 {
        seq![(v % 256) as u8, (v / 256) as u8]
    } else {
        let w = (v - 0x10000) as u32;
        let hi = (0xD800 + w / 1024) as u32;
        let lo = (0xDC00 + w % 1024) as u32;
        seq![(hi % 256) as u8, (hi / 256) as u8, (lo % 256) as u8, (lo / 256) as u8]
    }
}

/// The UTF-16LE bytes of the text.
pub open spec fn utf16le(s: Seq<char>) -> Seq<u8>
    decreases s.len(),
{
    if s.len() == 0 { Seq::empty() } else { utf16le(s.drop_last()) + utf16le_char(s.last()) }
}

/// The UTF-16LE bytes of the text, as PowerShell's `-EncodedCommand` expects them.
pub fn utf16le_bytes(s: &[char]) -> (r: Vec<u8>)
    ensures
        r@ == utf16le(s@),
{
    let mut out: Vec<u8> = Vec::new();
    let mut i: usize = 0;
    while i < s.len()
        invariant
            i <= s.len(),
            out@ == utf16le(s@.take(i as int)),
        decreases s.len() - i,
    {
        assert(s@.take(i as int + 1).drop_last() =~= s@.take(i as int));
        let v = s[i] as u32;
        let ghost before = out@;
        if v < 0x10000 {
            out.push((v % 256) as u8);
            out.push((v / 256) as u8);
        } else {
            let w = v - 0x10000;
            let hi = 0xD800 + w / 1024;
            let lo = 0xDC00 + w % 1024;
            out.push((hi % 256) as u8);
            out.push((hi / 256) as u8);
            out.push((lo % 256) as u8);
            out.push((lo / 256) as u8);
        }
        assert(out@ =~= before + utf16le_char(s@[i as int]));
        i = i + 1;
    }
    assert(s@.take(s.len() as int) =~= s@);
    out
}

/// The Base64 of the script's UTF-16LE bytes.
pub fn encode_powershell_script(script: &str) -> (r: String)
    ensures
        r@ == spec_base64_encode(utf16le(script@)),
{
    let chars = to_chars(script);
    let bytes = utf16le_bytes(&chars);
    base64_encode(&bytes)
}

/// Whether a command line fits FreeRDP's RemoteApp argument limit.
pub fn fits_rail_arguments(arguments: &str) -> (r: bool)
    ensures
        r == (utf16le(arguments@).len() < MAX_RAIL_ARGUMENT_BYTES),
{
    let chars = to_chars(arguments);
    let bytes = utf16le_bytes(&chars);
    bytes.len() < MAX_RAIL_ARGUMENT_BYTES
}

/// The label without the characters that would break FreeRDP's `/app:` option.
pub open spec fn safe_label_spec(s: Seq<char>) -> Seq<char>
    decreases s.len(),
{
    if s.len() == 0 {
        s
    } else {
        let c = s.last();
        let init = safe_label_spec(s.drop_last());
        if c == ',' || c == '\'' || c == '"' { init } else { init.push(c) }
    }
}

pub fn safe_label(label: &str) -> (r: Vec<char>)
    ensures
        r@ == safe_label_spec(label@),
{
    let chars = to_chars(label);
    let mut out: Vec<char> = Vec::new();
    let mut i: usize = 0;
    while i < chars.len()
        invariant
            i <= chars.len(),
            out@ == safe_label_spec(chars@.take(i as int)),
        decreases chars.len() - i,
    {
        assert(chars@.take(i as int + 1).drop_last() =~= chars@.take(i as int));
        let c = chars[i];
        if !(c == ',' || c == '\'' || c == '"') {
            out.push(c);
        }
        i = i + 1;
    }
    assert(chars@.take(chars.len() as int) =~= chars@);
    out
}

/// Letters and digits lower-cased, everything else `-`.
pub open spec fn slug_char(c: char) -> char {
    if is_ascii_alphanumeric(c) { ascii_lower_char(c) } else { '-' }
}

/// The text without leading and trailing `-`.
pub open spec fn trim_dashes(s: Seq<char>) -> Seq<char>
    decreases s.len(),
{
    if s.len() > 0 && s[0] == '-' {
        trim_dashes(s.drop_first())
    } else if s.len() > 0 && s.last() == '-' {
        trim_dashes(s.drop_last())
    } else {
        s
    }
}

pub open spec fn css_slug_spec(s: Seq<char>) -> Seq<char> {
    trim_dashes(Seq::new(s.len(), |i: int| slug_char(s[i])))
}

/// The window class suffix for a label: lower-case letters and digits, dashes between.
pub fn css_slug(value: &[char]) -> (r: Vec<char>)
    ensures
        r@ == css_slug_spec(value@),
{
    let mut mapped: Vec<char> = Vec::new();
    let mut i: usize = 0;
    while i < value.len()
        invariant
            i <= value.len(),
            mapped@.len() == i,
            forall|j: int| 0 <= j < i ==> mapped@[j] == slug_char(#[trigger] value@[j]),
        decreases value.len() - i,
    {
        let c = value[i];
        let m = if ascii_alphanumeric(c) {
            if 'A' <= c && c <= 'Z' {
                let code: u8 = ((c as u32) + 32) as u8;
                code as char
            } else {
                c
            }
        } else {
            '-'
        };
        mapped.push(m);
        i = i + 1;
    }
    let ghost full = Seq::new(value@.len(), |j: int| slug_char(value@[j]));
    assert(mapped@ =~= full);
    let mut start: usize = 0;
    let mut end: usize = mapped.len();
    assert(mapped@.subrange(0, end as int) =~= mapped@);
    while start < end && mapped[start] == '-'
        invariant
            start <= end == mapped@.len(),
            trim_dashes(mapped@.subrange(start as int, end as int)) == trim_dashes(mapped@),
        decreases end - start,
    {
        assert(mapped@.subrange(start as int, end as int).drop_first() =~= mapped@.subrange(start as int + 1, end as int));
        start = start + 1;
    }
    while start < end && mapped[end - 1] == '-'
        invariant
            start <= end <= mapped@.len(),
            trim_dashes(mapped@.subrange(start as int, end as int)) == trim_dashes(mapped@),
            start < end ==> mapped@[start as int] != '-',
        decreases end - start,
    {
        assert(mapped@.subrange(start as int, end as int).drop_last() =~= mapped@.subrange(start as int, end as int - 1));
        end = end - 1;
    }
    crate::text::slice(&mapped, start, end)
}

/// The `/app:` option: the program, its label, and its arguments when there are any.
pub open spec fn app_option_spec(executable: Seq<char>, label: Seq<char>, arguments: Option<Seq<char>>) -> Seq<char> {
    let base = "/app:program:"@ + executable + ",name:"@ + label;
    match arguments {
        Some(a) if a.len() > 0 => base + ",cmd:"@ + a,
        _ => base,
    }
}

/// The FreeRDP arguments, one per line on its standard input, that open `executable` as a
/// RemoteApp window labelled `label`; the password never reaches the process list.
pub fn freerdp_arguments(
    username: &str,
    password: &str,
    host: &str,
    port: u16,
    certificate_policy: &str,
    executable: &str,
    app_arguments: Option<&str>,
    label: &str,
) -> (r: Vec<String>)
    ensures
        r@.len() == 16,
        r@[0]@ == "/u:"@ + username@,
        r@[1]@ == "/p:"@ + password@,
        r@[2]@ == "/v:"@ + host@,
        r@[3]@ == "/port:"@ + decimal(port as nat),
        r@[4]@ == certificate_policy@,
        r@[5]@ == "/log-level:WARN"@,
        r@[6]@ == "+clipboard"@,
        r@[7]@ == "/sound:sys:pulse"@,
        r@[8]@ == "/microphone:sys:pulse"@,
        r@[9]@ == "/floatbar"@,
        r@[10]@ == "/compression"@,
        r@[11]@ == "/sec:tls"@,
        r@[12]@ == "-wallpaper"@,
        r@[13]@ == "/scale-desktop:100"@,
        r@[14]@ == "/wm-class:mendimaru-"@ + css_slug_spec(safe_label_spec(label@)),
        r@[15]@ == app_option_spec(executable@, safe_label_spec(label@), match app_arguments { Some(a) => Some(a@), None => None }),
{
    let safe = safe_label(label);
    let mut out: Vec<String> = Vec::new();
    let mut u = to_chars("/u:");
    push_str(&mut u, username);
    out.push(string_from(&u));
    let mut p = to_chars("/p:");
    push_str(&mut p, password);
    out.push(string_from(&p));
    let mut v = to_chars("/v:");
    push_str(&mut v, host);
    out.push(string_from(&v));
    let mut port_arg = to_chars("/port:");
    let digits = decimal_chars(port as u64);
    push_all(&mut port_arg, &digits);
    out.push(string_from(&port_arg));
    out.push(string_of(certificate_policy));
    out.push(string_of("/log-level:WARN"));
    out.push(string_of("+clipboard"));
    out.push(string_of("/sound:sys:pulse"));
    out.push(string_of("/microphone:sys:pulse"));
    out.push(string_of("/floatbar"));
    out.push(string_of("/compression"));
    out.push(string_of("/sec:tls"));
    out.push(string_of("-wallpaper"));
    out.push(string_of("/scale-desktop:100"));
    let mut class = to_chars("/wm-class:mendimaru-");
    let slug = css_slug(&safe);
    push_all(&mut class, &slug);
    out.push(string_from(&class));
    let mut app = to_chars("/app:program:");
    push_str(&mut app, executable);
    push_str(&mut app, ",name:");
    push_all(&mut app, &safe);
    let ghost base = app@;
    match app_arguments {
        Some(a) => {
            let ac = to_chars(a);
            if ac.len() > 0 {
                push_str(&mut app, ",cmd:");
                push_all(&mut app, &ac);
                assert(app@ =~= base + ",cmd:"@ + a@);
            }
        },
        None => {},
    }
    out.push(string_from(&app));
    out
}

/// Every argument followed by a line feed.
pub open spec fn payload_spec(arguments: Seq<String>) -> Seq<char>
    decreases arguments.len(),
{
    if arguments.len() == 0 {
        Seq::empty()
    } else {
        payload_spec(arguments.drop_last()) + arguments.last()@.push('\n')
    }
}

/// The text FreeRDP reads from its standard input: every argument on a line of its own.
pub fn freerdp_payload(arguments: &[String]) -> (r: String)
    ensures
        r@ == payload_spec(arguments@),
{
    let mut out: Vec<char> = Vec::new();
    let mut i: usize = 0;
    while i < arguments.len()
        invariant
            i <= arguments.len(),
            out@ == payload_spec(arguments@.take(i as int)),
        decreases arguments.len() - i,
    {
        assert(arguments@.take(i as int + 1).drop_last() =~= arguments@.take(i as int));
        let ghost before = out@;
        push_str(&mut out, arguments[i].as_str());
        out.push('\n');
        assert(out@ =~= before + arguments@[i as int]@.push('\n'));
        i = i + 1;
    }
    assert(arguments@.take(arguments@.len() as int) =~= arguments@);
    string_from(&out)
}

/// Whether FreeRDP's output reports a refused server certificate.
pub open spec fn certificate_failed_spec(output: Seq<u8>) -> bool {
    let d = ascii_lower_spec(spec_utf8_lossy(output));
    &&& contains_seq(d, "certificate"@)
    &&& {
        ||| contains_seq(d, "mismatch"@)
        ||| contains_seq(d, "verification failure"@)
        ||| contains_seq(d, "verify failed"@)
        ||| contains_seq(d, "not match"@)
        ||| contains_seq(d, "changed"@)
        ||| contains_seq(d, "denied"@)
    }
}

pub fn certificate_failed(output: &[u8]) -> (r: bool)
    ensures
        r == certificate_failed_spec(output@),
{
    let text = utf8_lossy(output);
    let chars = to_chars(text.as_str());
    let d = ascii_lower(&chars);
    contains_str(&d, "certificate") && (contains_str(&d, "mismatch") || contains_str(&d, "verification failure")
        || contains_str(&d, "verify failed") || contains_str(&d, "not match") || contains_str(&d, "changed")
        || contains_str(&d, "denied"))
}


/// Why reading the guest account failed.
#[derive(Debug, Clone, Copy, PartialEq, Eq, Structural)]
pub enum CredentialError {
    UsernameMissing,
    PasswordMissing,
}

/// The value of the first line of `lines` that starts with `prefix`, when it is not empty.
pub open spec fn first_value(ls: Seq<Seq<char>>, prefix: Seq<char>) -> Option<Seq<char>>
    decreases ls.len(),
{
    if ls.len() == 0 {
        None
    } else if crate::text::has_prefix(ls[0], prefix) {
        let v = ls[0].skip(prefix.len() as int);
        if v.len() > 0 { Some(v) } else { None }
    } else {
        first_value(ls.drop_first(), prefix)
    }
}

fn first_value_exec(ls: &Vec<Vec<char>>, prefix: &str) -> (r: Option<Vec<char>>)
    ensures
        match r {
            Some(v) => first_value(Seq::new(ls@.len(), |i: int| ls@[i]@), prefix@) == Some(v@),
            None => first_value(Seq::new(ls@.len(), |i: int| ls@[i]@), prefix@) is None,
        },
{
    let ghost all = Seq::new(ls@.len(), |i: int| ls@[i]@);
    let mut i: usize = 0;
    assert(all.skip(0) =~= all);
    while i < ls.len()
        invariant
            i <= ls@.len(),
            all == Seq::new(ls@.len(), |k: int| ls@[k]@),
            first_value(all, prefix@) == first_value(all.skip(i as int), prefix@),
        decreases ls.len() - i,
    {
        assert(all.skip(i as int)[0] == ls@[i as int]@);
        assert(all.skip(i as int).drop_first() =~= all.skip(i as int + 1));
        match strip_prefix_str(&ls[i], prefix) {
            Some(v) => {
                if v.len() > 0 {
                    return Some(v);
                }
                return None;
            },
            None => {},
        }
        i = i + 1;
    }
    None
}

/// The guest account from the container's environment listing: the first `USERNAME=` and
/// `PASSWORD=` lines, each of which must carry a value.
pub fn parse_credentials(environment: &[u8]) -> (r: Result<(String, String), CredentialError>)
    ensures
        ({
            let ls = lines_spec(spec_utf8_lossy(environment@));
            match first_value(ls, "USERNAME="@) {
                None => r == Err::<(String, String), CredentialError>(CredentialError::UsernameMissing),
                Some(u) => match first_value(ls, "PASSWORD="@) {
                    None => r == Err::<(String, String), CredentialError>(CredentialError::PasswordMissing),
                    Some(p) => r matches Ok((user, pass)) && user@ == u && pass@ == p,
                },
            }
        }),
{
    let text = utf8_lossy(environment);
    let chars = to_chars(text.as_str());
    let ls = lines(&chars);
    proof {
        assert(Seq::new(ls@.len(), |i: int| ls@[i]@) =~= lines_spec(spec_utf8_lossy(environment@)));
    }
    let username = match first_value_exec(&ls, "USERNAME=") {
        Some(u) => u,
        None => {
            return Err(CredentialError::UsernameMissing);
        },
    };
    let password = match first_value_exec(&ls, "PASSWORD=") {
        Some(p) => p,
        None => {
            return Err(CredentialError::PasswordMissing);
        },
    };
    Ok((string_from(&username), string_from(&password)))
}

pub const PEM_BEGIN: &'static str = "-----BEGIN CERTIFICATE-----";

pub const PEM_END: &'static str = "-----END CERTIFICATE-----";

/// The trimmed lines between the first certificate header and the next footer, joined.
pub open spec fn pem_body_from(ls: Seq<Seq<char>>, inside: bool) -> Seq<char>
    decreases ls.len(),
{
    if ls.len() == 0 {
        Seq::empty()
    } else if !inside {
        pem_body_from(ls.drop_first(), trim_spec(ls[0]) == PEM_BEGIN@)
    } else if trim_spec(ls[0]) == PEM_END@ {
        Seq::empty()
    } else {
        trim_spec(ls[0]) + pem_body_from(ls.drop_first(), true)
    }
}

/// Why a certificate pin cannot be used.
#[derive(Debug, Clone, PartialEq, Eq)]
pub enum PinError {
    NotUtf8,
    BodyMissing,
    InvalidBase64(String),
}

/// The FreeRDP policy that accepts exactly the certificate whose PEM text is `pem`.
pub open spec fn fingerprint_policy_spec(pem: Seq<u8>) -> Option<Seq<char>> {
    match spec_utf8_decode(pem) {
        None => None,
        Some(text) => {
            let body = pem_body_from(lines_spec(text), false);
            if body.len() == 0 {
                None
            } else {
                match spec_base64_decode(body) {
                    None => None,
                    Some(der) => Some("/cert:fingerprint:sha256:"@ + hex_encode_spec(spec_sha256(der))),
                }
            }
        },
    }
}

/// Converts the pinned certificate to an exact SHA-256 fingerprint policy.
pub fn fingerprint_policy_from_pem(pem: &[u8]) -> (r: Result<String, PinError>)
    ensures
        match fingerprint_policy_spec(pem@) {
            Some(policy) => r matches Ok(p) && p@ == policy,
            None => r is Err,
        },
        r matches Err(PinError::NotUtf8) ==> spec_utf8_decode(pem@) is None,
{
    let text = match utf8_decode(pem) {
        Some(text) => text,
        None => {
            return Err(PinError::NotUtf8);
        },
    };
    let chars = to_chars(text.as_str());
    let ls = lines(&chars);
    let ghost all = lines_spec(text@);
    let mut body: Vec<char> = Vec::new();
    let mut inside = false;
    let mut done = false;
    let mut i: usize = 0;
    assert(all.skip(0) =~= all);
    while i < ls.len() && !done
        invariant
            i <= ls@.len(),
            ls@.len() == all.len(),
            forall|k: int| 0 <= k < ls@.len() ==> (#[trigger] ls@[k])@ == all[k],
            !done ==> body@ + pem_body_from(all.skip(i as int), inside) == pem_body_from(all, false),
            done ==> body@ == pem_body_from(all, false),
        decreases ls.len() - i,
    {
        let line = trim(&ls[i]);
        proof {
            assert(all.skip(i as int)[0] == all[i as int]);
            assert(all.skip(i as int).drop_first() =~= all.skip(i as int + 1));
        }
        if !inside {
            inside = equals_str(&line, PEM_BEGIN);
        } else if equals_str(&line, PEM_END) {
            assert(body@ + Seq::<char>::empty() =~= body@);
            done = true;
        } else {
            let ghost before = body@;
            push_all(&mut body, &line);
            assert(body@ + pem_body_from(all.skip(i as int + 1), true) =~= before + (trim_spec(all[i as int]) + pem_body_from(all.skip(i as int + 1), true)));
        }
        i = i + 1;
    }
    if !done {
        assert(pem_body_from(all.skip(ls@.len() as int), inside) =~= Seq::<char>::empty());
        assert(body@ + Seq::<char>::empty() =~= body@);
    }
    if body.len() == 0 {
        return Err(PinError::BodyMissing);
    }
    let body_text = string_from(&body);
    let der = match base64_decode(body_text.as_str()) {
        Ok(der) => der,
        Err(error) => {
            return Err(PinError::InvalidBase64(error));
        },
    };
    let digest = sha256(&der);
    let hex = hex_encode(&digest);
    let mut out = to_chars("/cert:fingerprint:sha256:");
    push_all(&mut out, &hex);
    Ok(string_from(&out))
}

} // verus!
