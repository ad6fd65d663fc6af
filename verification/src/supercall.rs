//! The supercall client: request marshalling and status decoding for the
//! fixed-ABI call into the kernel-resident patch mechanism.
//!
//! A logical request becomes exactly one physical call. The client owns the
//! two halves the verified core can do: building the request — credential
//! and path as independently owned, null-terminated buffers, each validated
//! against embedded null bytes before the boundary is ever reached — and
//! translating the signed status the mechanism returns into a structured
//! result that preserves the raw code verbatim.

use vstd::prelude::*;
use crate::codec::{encode_nul_terminated, encode_spec, nul_terminated, CBuf};
use crate::error::{CliError, ErrorSpec};
use vstd::utf8::encode_utf8;

verus! {

/// A fully marshalled kernel-patch-module load request: every field is an
/// owned, null-terminated buffer whose lifetime spans exactly the call.
#[derive(Debug)]
pub struct KpmLoadRequest {
    pub key: CBuf,
    pub path: CBuf,
    pub args: Option<CBuf>,
}

/// Spec-level mirror of `KpmLoadRequest`: the byte sequences the call will
/// see, terminators included.
pub struct KpmLoadRequestSpec {
    pub key: Seq<u8>,
    pub path: Seq<u8>,
    pub args: Option<Seq<u8>>,
}

impl View for KpmLoadRequest {
    type V = KpmLoadRequestSpec;

    open spec fn view(&self) -> KpmLoadRequestSpec {
        KpmLoadRequestSpec {
            key: self.key@,
            path: self.path@,
            args: match self.args {
                Some(a) => Some(a@),
                None => None,
            },
        }
    }
}

/// Every buffer of the request is well-formed: null-terminated, with no
/// embedded null byte.
pub open spec fn request_wf(r: KpmLoadRequestSpec) -> bool {
    &&& nul_terminated(r.key)
    &&& nul_terminated(r.path)
    &&& (r.args matches Some(a) ==> nul_terminated(a))
}

/// The request that marshalling `key`, `path` and `args` must produce, or
/// the input error that stops it: the credential is validated first, then
/// the path, then the optional extra arguments, and the first embedded
/// null byte found rejects the whole request.
pub open spec fn spec_kpm_request(key: Seq<char>, path: Seq<char>, args: Option<Seq<char>>) -> Result<
    KpmLoadRequestSpec,
    ErrorSpec,
> {
    if encode_utf8(key).contains(0u8) {
        Err(ErrorSpec::InvalidCredential)
    } else if encode_utf8(path).contains(0u8) {
        Err(ErrorSpec::InvalidPath)
    } else if args matches Some(a) && encode_utf8(a).contains(0u8) {
        Err(ErrorSpec::InvalidArgs)
    } else {
        Ok(
            KpmLoadRequestSpec {
                key: encode_spec(encode_utf8(key)),
                path: encode_spec(encode_utf8(path)),
                args: match args {
                    Some(a) => Some(encode_spec(encode_utf8(a))),
                    None => None,
                },
            },
        )
    }
}

/// Marshal a kernel-patch-module load request.
///
/// Succeeds exactly when neither the credential, nor the path, nor the
/// optional extra arguments contain an embedded null byte; the buffers
/// then carry the inputs' bytes unchanged, each followed by its
/// terminator. On failure no buffer leaves this function, so no degraded
/// call can ever be issued.
pub fn kpm_load_request(key: &str, path: &str, args: Option<&str>) -> (r: Result<
    KpmLoadRequest,
    CliError,
>)
    ensures
        match r {
            Ok(req) => {
                &&& spec_kpm_request(key@, path@, args.deep_view()) == Ok::<
                    KpmLoadRequestSpec,
                    ErrorSpec,
                >(req@)
                &&& request_wf(req@)
            },
            Err(e) => spec_kpm_request(key@, path@, args.deep_view()) == Err::<
                KpmLoadRequestSpec,
                ErrorSpec,
            >(e@),
        },
{
    let key_buf = match encode_nul_terminated(key.as_bytes()) {
        Some(b) => b,
        None => {
            return Err(CliError::InvalidCredential);
        },
    };
    let path_buf = match encode_nul_terminated(path.as_bytes()) {
        Some(b) => b,
        None => {
            return Err(CliError::InvalidPath);
        },
    };
    let args_buf = match args {
        Some(a) => match encode_nul_terminated(a.as_bytes()) {
            Some(b) => Some(b),
            None => {
                return Err(CliError::InvalidArgs);
            },
        },
        None => None,
    };
    Ok(KpmLoadRequest { key: key_buf, path: path_buf, args: args_buf })
}

/// The structured result a raw signed status decodes to: a negative status
/// is a definitive kernel-side rejection carrying the exact code; any
/// non-negative status is success.
pub open spec fn spec_status_outcome(code: i64) -> Result<(), ErrorSpec> {
    if code < 0 {
        Err(ErrorSpec::SupercallFailed { code })
    } else {
        Ok(())
    }
}

/// Decode the signed status returned by the privileged call.
///
/// A negative status yields `SupercallFailed` carrying that exact code —
/// the raw value is never discarded; a non-negative status yields success.
/// No retries: a rejection is definitive.
pub fn interpret_status(code: i64) -> (r: Result<(), CliError>)
    ensures
        code >= 0 ==> r is Ok,
        code < 0 ==> (r matches Err(e) && e@ == (ErrorSpec::SupercallFailed { code })),
        result_view(r) == spec_status_outcome(code),
{
    if code < 0 {
        Err(CliError::SupercallFailed { code })
    } else {
        Ok(())
    }
}

/// The spec-level value of a unit-or-error result.
pub open spec fn result_view(r: Result<(), CliError>) -> Result<(), ErrorSpec> {
    match r {
        Ok(()) => Ok(()),
        Err(e) => Err(e@),
    }
}

} // verus!
