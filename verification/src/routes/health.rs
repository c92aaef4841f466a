//! The `/api/health` liveness probe.

use crate::domain::wa::WaConnState;
use vstd::prelude::*;

verus! {

/// Health response: `ok` whenever the process can answer, with the cached
/// WhatsApp connection state beside it.
#[derive(Debug, Clone)]
pub struct HealthBody {
    pub ok: bool,
    pub wa: WaConnState,
}

/// The health answer for the current WhatsApp state: always `ok`.
pub fn health_body(wa: WaConnState) -> (b: HealthBody)
    ensures
        b.ok,
        b.wa == wa,
{
    HealthBody { ok: true, wa }
}

} // verus!
