//! The host side of the UI automation mailbox: which replies are trusted, which belong to
//! the pending request, and what a screenshot reply must hold.
use vstd::prelude::*;
use crate::contracts::BackendError;
use crate::outside::{base64_decode, spec_base64_decode};
use crate::security::{
    authenticate_envelope_bounded, authenticate_spec, AuthOutcome, AuthenticatedPayload,
    OperationSecurity, ReportEnvelope,
};
use crate::ui_automation::{error, ui_error_reason, Operation};

verus! {

/// The largest reply file read from the mailbox.
pub const MAX_RESPONSE: u64 = 16777216;
/// The largest reply payload accepted.
pub const MAX_RESPONSE_PAYLOAD: usize = 12582912;
/// The largest screenshot accepted.
pub const MAX_SCREENSHOT_BYTES: usize = 8388608;
/// How much longer than the request's own timeout the host waits for a reply.
pub const REPLY_GRACE_MS: u64 = 3000;

/// The reply file, when it is within the size limit and its envelope parsed, authenticated
/// for this channel; anything else is untrusted.
pub fn authenticate_response(length: usize, envelope: Option<ReportEnvelope>, security: &OperationSecurity, operation: Operation) -> (r: Result<AuthenticatedPayload, BackendError>)
    ensures
        r is Ok <==> (length <= MAX_RESPONSE && (envelope matches Some(e)
            && authenticate_spec(e, *security, MAX_RESPONSE_PAYLOAD as nat) is Authenticated)),
        r matches Ok(p) ==> (envelope matches Some(e) && authenticate_spec(e, *security, MAX_RESPONSE_PAYLOAD as nat)
            == (AuthOutcome::Authenticated { sequence: p.sequence, payload: p.payload@, mac: p.mac@ })),
        r matches Err(f) ==> f.message@ == "ui-bridge-untrusted"@ && f.capability == Some(operation.capability_spec()),
{
    proof {
        reveal_strlit("ui-bridge-untrusted");
    }
    if length as u64 > MAX_RESPONSE {
        return Err(error(operation, "ui-bridge-untrusted"));
    }
    let envelope = match envelope {
        Some(e) => e,
        None => {
            return Err(error(operation, "ui-bridge-untrusted"));
        },
    };
    match authenticate_envelope_bounded(&envelope, security, MAX_RESPONSE_PAYLOAD) {
        Ok(payload) => Ok(payload),
        Err(_) => Err(error(operation, "ui-bridge-untrusted")),
    }
}

/// What an authenticated reply says, as the JSON of its payload gives it: its `id` when that
/// is a string, whether `ok` is `true`, and its `reason` when that is a string.
#[derive(Debug)]
pub struct ResponseFields {
    pub id: Option<String>,
    pub ok: bool,
    pub reason: Option<String>,
}

/// What an authenticated reply means for the pending request `expected_id`: nothing when it
/// answers another request (a signed reply is not a fresh one), the reply's data when it
/// succeeded, its reason as the error when it failed; a payload that is not JSON is
/// untrusted.
pub fn response_verdict(fields: Option<ResponseFields>, expected_id: &str, operation: Operation) -> (r: Result<bool, BackendError>)
    ensures
        match fields {
            None => r matches Err(f) && f.message@ == "ui-bridge-untrusted"@,
            Some(f) => if !(f.id matches Some(id) && id@ == expected_id@) {
                r == Ok::<bool, BackendError>(false)
            } else if f.ok {
                r == Ok::<bool, BackendError>(true)
            } else {
                r matches Err(e) && e.message@ == ui_error_reason(match f.reason {
                    Some(reason) => reason@,
                    None => "ui-provider-failed"@,
                })
            },
        },
        r matches Err(e) ==> e.capability == Some(operation.capability_spec()),
{
    proof {
        reveal_strlit("ui-bridge-untrusted");
    }
    let fields = match fields {
        Some(f) => f,
        None => {
            return Err(error(operation, "ui-bridge-untrusted"));
        },
    };
    let same = match &fields.id {
        Some(id) => crate::text::string_of(expected_id) == *id,
        None => false,
    };
    if !same {
        return Ok(false);
    }
    if fields.ok {
        return Ok(true);
    }
    match &fields.reason {
        Some(reason) => Err(error(operation, reason)),
        None => Err(error(operation, "ui-provider-failed")),
    }
}

/// A request whose reply failed is finished, so no cancellation follows it, unless the
/// failure was an untrusted reply.
pub fn finished_by_failure(failure: &BackendError) -> (b: bool)
    ensures
        b == (failure.message@ != "ui-bridge-untrusted"@),
{
    let m = crate::text::to_chars(&failure.message);
    !crate::text::equals_str(&m, "ui-bridge-untrusted")
}

/// The PNG file signature.
pub open spec fn png_signature() -> Seq<u8> {
    seq![0x89u8, 0x50u8, 0x4eu8, 0x47u8, 0x0du8, 0x0au8, 0x1au8, 0x0au8]
}

/// The screenshot a reply carries: the Base64 `png` field decoded, at most 8 MiB, starting
/// with the PNG signature; anything else is a failed capture.
pub fn screenshot_bytes(png: Option<&str>) -> (r: Result<Vec<u8>, BackendError>)
    ensures
        match png {
            None => r is Err,
            Some(text) => match spec_base64_decode(text@) {
                None => r is Err,
                Some(bytes) => if bytes.len() <= MAX_SCREENSHOT_BYTES && bytes.len() >= 8 && bytes.take(8) == png_signature() {
                    r matches Ok(b) && b@ == bytes
                } else {
                    r is Err
                },
            },
        },
        r matches Err(e) ==> e.message@ == "ui-capture-failed"@ && e.capability == Some(Operation::Screenshot.capability_spec()),
{
    proof {
        reveal_strlit("ui-capture-failed");
    }
    let text = match png {
        Some(t) => t,
        None => {
            return Err(error(Operation::Screenshot, "ui-capture-failed"));
        },
    };
    let bytes = match base64_decode(text) {
        Ok(b) => b,
        Err(_) => {
            return Err(error(Operation::Screenshot, "ui-capture-failed"));
        },
    };
    if bytes.len() > MAX_SCREENSHOT_BYTES || bytes.len() < 8 || bytes[0] != 0x89u8 || bytes[1] != 0x50u8 || bytes[2] != 0x4eu8
        || bytes[3] != 0x47u8 || bytes[4] != 0x0du8 || bytes[5] != 0x0au8 || bytes[6] != 0x1au8 || bytes[7] != 0x0au8 {
        proof {
            if bytes@.len() >= 8 && bytes@.take(8) == png_signature() {
                assert(bytes@.take(8)[0] == bytes@[0]);
                assert(bytes@.take(8)[7] == bytes@[7]);
            }
        }
        return Err(error(Operation::Screenshot, "ui-capture-failed"));
    }
    proof {
        assert(bytes@.take(8) =~= png_signature());
    }
    Ok(bytes)
}

} // verus!
