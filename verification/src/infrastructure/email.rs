//! Magic-code email transports: the stdout sink (dev + CI) and the SMTP
//! sender, and the choice between them. Delivery itself is `app/`'s part.

use crate::config::{EmailMode, Settings};
use vstd::prelude::*;

verus! {

/// Dev sink: logs `CODE email=... code=...` so scripts can grep for it.
#[derive(Debug, Clone, Copy)]
pub struct StdoutSender;

/// SMTP sender, a production sink: it never logs the code (no relay is
/// wired yet, so it only warns).
#[derive(Debug, Clone)]
pub struct SmtpSender {
    pub from: String,
}

/// The transport magic codes go out through.
#[derive(Debug, Clone)]
pub enum EmailTransport {
    Stdout(StdoutSender),
    Smtp(SmtpSender),
}

/// The chosen transport, and whether SMTP was asked for but fell back to
/// stdout for lack of a host (worth a warning).
#[derive(Debug, Clone)]
pub struct TransportChoice {
    pub transport: EmailTransport,
    pub fell_back: bool,
}

/// Pick the transport for `cfg.email_mode`; SMTP without a host falls back
/// to stdout.
pub fn build(cfg: &Settings) -> (r: TransportChoice)
    ensures
        cfg.email_mode == EmailMode::Stdout ==> (r.transport is Stdout && !r.fell_back),
        cfg.email_mode == EmailMode::Smtp && cfg.smtp.host@.len() == 0 ==> (r.transport is Stdout
            && r.fell_back),
        cfg.email_mode == EmailMode::Smtp && cfg.smtp.host@.len() > 0 ==> (
        r.transport matches EmailTransport::Smtp(s) && s.from@ == cfg.smtp.from@ && !r.fell_back),
{
    match cfg.email_mode {
        EmailMode::Stdout => TransportChoice {
            transport: EmailTransport::Stdout(StdoutSender),
            fell_back: false,
        },
        EmailMode::Smtp => {
            if cfg.smtp.host.as_str().unicode_len() == 0 {
                TransportChoice { transport: EmailTransport::Stdout(StdoutSender), fell_back: true }
            } else {
                TransportChoice {
                    transport: EmailTransport::Smtp(SmtpSender { from: cfg.smtp.from.clone() }),
                    fell_back: false,
                }
            }
        },
    }
}

/// The line the magic-code sink logs: `CODE email=<to> code=<code>`.
pub fn code_log_line(to: &str, code: &str) -> (r: String)
    ensures
        r@ == "CODE email="@ + to@ + " code="@ + code@,
{
    let mut r = String::from_str("CODE email=");
    r.append(to);
    r.append(" code=");
    r.append(code);
    r
}

} // verus!
