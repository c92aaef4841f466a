//! Bodies of the `/api/whatsapp/*` endpoints.

use crate::domain::wa::WaConnState;
use vstd::prelude::*;

verus! {

/// `GET /api/whatsapp/state` response.
#[derive(Debug, Clone)]
pub struct StateBody {
    pub state: WaConnState,
}

/// `GET /api/whatsapp/qr` response.
#[derive(Debug, Clone)]
pub struct QrBody {
    pub qr: String,
}

} // verus!
