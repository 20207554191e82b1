use vstd::prelude::*;

use crate::apps::{cell_selection, select_cell, AppRecord, CellId};
use crate::error::ServiceError;

verus! {

/// How long a call envelope stays valid after it is built: 300 seconds, in microseconds.
pub const CALL_VALIDITY_MICROS: i64 = 300_000_000;

/// A replay-protected, time-bounded request to run `fn_name` of `zome_name` on a cell.
#[derive(Debug, Clone, PartialEq, Eq)]
pub struct CallEnvelope {
    pub cell_id: CellId,
    pub zome_name: String,
    pub fn_name: String,
    pub payload: Vec<u8>,
    pub cap_secret: Option<Vec<u8>>,
    pub provenance: Vec<u8>,
    pub nonce: [u8; 32],
    /// Microseconds since the Unix epoch.
    pub expires_at: i64,
}

/// The encoding of the unit value that stands in for an absent payload (MessagePack `nil`).
pub open spec fn unit_payload() -> Seq<u8> {
    seq![0xc0u8]
}

/// The payload sent for an optional caller-supplied one.
pub open spec fn payload_or_unit(payload: Option<Vec<u8>>) -> Seq<u8> {
    match payload {
        Some(p) => p@,
        None => unit_payload(),
    }
}

/// An expiry `now + CALL_VALIDITY_MICROS` can be represented.
pub open spec fn expiry_fits(now: i64) -> bool {
    now <= i64::MAX - CALL_VALIDITY_MICROS
}

/// Encodes the unit value.
pub fn unit_payload_bytes() -> (r: Vec<u8>)
    ensures
        r@ == unit_payload(),
{
    let r = vec![0xc0u8];
    assert(r@ =~= unit_payload());
    r
}

/// The envelope's fields other than nonce and expiry are those that the
/// application, the selected cell and the caller's arguments give.
pub open spec fn addresses(
    e: CallEnvelope,
    app: AppRecord,
    cell: CellId,
    zome_name: String,
    fn_name: String,
    payload: Option<Vec<u8>>,
) -> bool {
    &&& e.cell_id == cell
    &&& e.zome_name == zome_name
    &&& e.fn_name == fn_name
    &&& e.payload@ == payload_or_unit(payload)
    &&& e.cap_secret is None
    &&& e.provenance == app.agent_pub_key
}

/// The cell that a call addresses, given the conductor's record of the
/// application (if any).
pub open spec fn call_target(app: Option<AppRecord>, app_id: Seq<char>, cell_name: Seq<char>) -> Result<
    CellId,
    ServiceError,
> {
    match app {
        None => Err(ServiceError::AppNotFound),
        Some(a) => cell_selection(a.cell_info@, app_id, cell_name),
    }
}

/// `r` is the envelope built for `cell` of `app` with nonce `nonce` at time
/// `now_micros`: it expires exactly `CALL_VALIDITY_MICROS` later, or the call
/// fails when that time cannot be represented.
pub open spec fn call_built(
    r: Result<CallEnvelope, ServiceError>,
    app: AppRecord,
    cell: CellId,
    zome_name: String,
    fn_name: String,
    payload: Option<Vec<u8>>,
    nonce: [u8; 32],
    now_micros: i64,
) -> bool {
    if expiry_fits(now_micros) {
        &&& r is Ok
        &&& addresses(r->Ok_0, app, cell, zome_name, fn_name, payload)
        &&& r->Ok_0.nonce == nonce
        &&& r->Ok_0.expires_at == now_micros + CALL_VALIDITY_MICROS
    } else {
        r == Err::<CallEnvelope, ServiceError>(ServiceError::ExpiryOutOfRange)
    }
}

/// Builds the envelope for a call, given the conductor's record of the
/// application (if any), a nonce and the current time in microseconds.
pub fn prepare_call(
    app: Option<AppRecord>,
    app_id: &String,
    cell_name: &String,
    zome_name: String,
    fn_name: String,
    payload: Option<Vec<u8>>,
    nonce: [u8; 32],
    now_micros: i64,
) -> (r: Result<CallEnvelope, ServiceError>)
    ensures
        match call_target(app, app_id@, cell_name@) {
            Err(e) => r == Err::<CallEnvelope, ServiceError>(e),
            Ok(cell) => call_built(r, app->0, cell, zome_name, fn_name, payload, nonce, now_micros),
        },
{
    let app = match app {
        Some(a) => a,
        None => return Err(ServiceError::AppNotFound),
    };
    let AppRecord { agent_pub_key: provenance, cell_info, .. } = app;
    let cell_id = match select_cell(cell_info, app_id, cell_name) {
        Ok(c) => c,
        Err(e) => return Err(e),
    };
    if now_micros > i64::MAX - CALL_VALIDITY_MICROS {
        return Err(ServiceError::ExpiryOutOfRange);
    }
    let payload_bytes = match payload {
        Some(p) => p,
        None => unit_payload_bytes(),
    };
    Ok(CallEnvelope {
        cell_id,
        zome_name,
        fn_name,
        payload: payload_bytes,
        cap_secret: None,
        provenance,
        nonce,
        expires_at: now_micros + CALL_VALIDITY_MICROS,
    })
}

/// Builds the envelope for a call from the outcome of the nonce draw and of
/// the clock read: after the lookups, a failed draw gives `NonceUnavailable`
/// and an unreadable clock `ClockUnavailable`.
pub fn assemble_call(
    app: Option<AppRecord>,
    app_id: &String,
    cell_name: &String,
    zome_name: String,
    fn_name: String,
    payload: Option<Vec<u8>>,
    nonce: Option<[u8; 32]>,
    now_micros: Option<i64>,
) -> (r: Result<CallEnvelope, ServiceError>)
    ensures
        match call_target(app, app_id@, cell_name@) {
            Err(e) => r == Err::<CallEnvelope, ServiceError>(e),
            Ok(cell) => match nonce {
                None => r == Err::<CallEnvelope, ServiceError>(ServiceError::NonceUnavailable),
                Some(n) => match now_micros {
                    None => r == Err::<CallEnvelope, ServiceError>(
                        ServiceError::ClockUnavailable,
                    ),
                    Some(t) => call_built(r, app->0, cell, zome_name, fn_name, payload, n, t),
                },
            },
        },
{
    let drawn = match nonce {
        Some(n) => n,
        None => [0u8; 32],
    };
    let now = match (nonce, now_micros) {
        (Some(_), Some(t)) => t,
        _ => 0,
    };
    let r = prepare_call(app, app_id, cell_name, zome_name, fn_name, payload, drawn, now);
    match r {
        Err(e) => Err(e),
        Ok(envelope) => {
            if nonce.is_none() {
                Err(ServiceError::NonceUnavailable)
            } else if now_micros.is_none() {
                Err(ServiceError::ClockUnavailable)
            } else {
                Ok(envelope)
            }
        },
    }
}

/// Relies on rand's `OsRng` through `Rng::try_fill`: fills 32 bytes from the
/// operating system's random source, or reports that the source failed.
#[verifier::external_body]
fn fresh_nonce() -> (r: Option<[u8; 32]>) {
    let mut nonce = [0u8; 32];
    match rand::Rng::try_fill(&mut rand::rngs::OsRng, &mut nonce) {
        Ok(()) => Some(nonce),
        Err(_) => None,
    }
}

/// Relies on std's `SystemTime::duration_since(UNIX_EPOCH)` on the current
/// time: the microseconds elapsed since the Unix epoch, or `None` when the
/// clock reads earlier than the epoch.
#[verifier::external_body]
fn micros_since_epoch() -> (r: Option<u128>) {
    std::time::SystemTime::now().duration_since(std::time::UNIX_EPOCH).ok().map(|d| d.as_micros())
}

/// The current time in microseconds since the Unix epoch, when the clock
/// gives one that an `i64` holds.
fn now_micros() -> (r: Option<i64>) {
    match micros_since_epoch() {
        Some(m) => {
            if m <= i64::MAX as u128 {
                Some(m as i64)
            } else {
                None
            }
        },
        None => None,
    }
}

/// Builds the envelope for a call with a fresh random nonce, expiring
/// `CALL_VALIDITY_MICROS` after the current time.
pub fn new_call(
    app: Option<AppRecord>,
    app_id: &String,
    cell_name: &String,
    zome_name: String,
    fn_name: String,
    payload: Option<Vec<u8>>,
) -> (r: Result<CallEnvelope, ServiceError>)
    ensures
        match call_target(app, app_id@, cell_name@) {
            Err(e) => r == Err::<CallEnvelope, ServiceError>(e),
            Ok(cell) => {
                &&& r is Ok ==> addresses(r->Ok_0, app->0, cell, zome_name, fn_name, payload)
                &&& r is Err ==> (r->Err_0 == ServiceError::NonceUnavailable || r->Err_0
                    == ServiceError::ClockUnavailable || r->Err_0
                    == ServiceError::ExpiryOutOfRange)
            },
        },
{
    let nonce = fresh_nonce();
    let now = now_micros();
    assemble_call(app, app_id, cell_name, zome_name, fn_name, payload, nonce, now)
}

/// Maps the result of signing an envelope onto the facade's error kinds,
/// keeping the key store's error as the cause.
pub fn signing_outcome<T>(signed: Result<T, String>) -> (r: Result<T, ServiceError>)
    ensures
        match signed {
            Ok(t) => r == Ok::<T, ServiceError>(t),
            Err(cause) => r == Err::<T, ServiceError>(ServiceError::SigningFailed(cause)),
        },
{
    match signed {
        Ok(t) => Ok(t),
        Err(cause) => Err(ServiceError::SigningFailed(cause)),
    }
}

/// Maps the result of dispatching a signed envelope onto the facade's error
/// kinds: a transport or validation fault is a rejection, an error raised by
/// the remote function is a failed call; each keeps its cause.
pub fn dispatch_outcome<T>(dispatched: Result<Result<T, String>, String>) -> (r: Result<
    T,
    ServiceError,
>)
    ensures
        match dispatched {
            Err(cause) => r == Err::<T, ServiceError>(ServiceError::CallRejected(cause)),
            Ok(Err(cause)) => r == Err::<T, ServiceError>(ServiceError::CallFailed(cause)),
            Ok(Ok(t)) => r == Ok::<T, ServiceError>(t),
        },
{
    match dispatched {
        Err(cause) => Err(ServiceError::CallRejected(cause)),
        Ok(Err(cause)) => Err(ServiceError::CallFailed(cause)),
        Ok(Ok(t)) => Ok(t),
    }
}

} // verus!
