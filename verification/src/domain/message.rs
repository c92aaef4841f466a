//! Messages and their direction relative to the account bound to the
//! WhatsApp session.

use crate::text::{debug_quoted, str_debug, str_eq};
use vstd::prelude::*;

verus! {

/// Direction of a message relative to the account bound to the WA session.
#[derive(Debug, Clone, Copy, PartialEq, Eq, Structural)]
pub enum Direction {
    In,
    Out,
}

/// The stable DB tag of a direction.
pub open spec fn direction_tag(d: Direction) -> Seq<char> {
    match d {
        Direction::In => "in"@,
        Direction::Out => "out"@,
    }
}

/// What `Direction::from_db` gives for a stored tag.
pub open spec fn direction_from_tag(s: Seq<char>) -> Result<Direction, Seq<char>> {
    if s == "in"@ {
        Ok(Direction::In)
    } else if s == "out"@ {
        Ok(Direction::Out)
    } else {
        Err("invalid direction tag "@ + str_debug(s))
    }
}

impl Direction {
    /// Stable DB string ("in"|"out"). Matches the CHECK constraint on
    /// `messages.direction`.
    pub fn as_str(&self) -> (r: &'static str)
        ensures
            r@ == direction_tag(*self),
    {
        match self {
            Direction::In => "in",
            Direction::Out => "out",
        }
    }

    /// Reverse of [`Direction::as_str`], used when loading rows.
    pub fn from_db(s: &str) -> (r: Result<Direction, String>)
        ensures
            match r {
                Ok(d) => direction_from_tag(s@) == Ok::<Direction, Seq<char>>(d),
                Err(m) => direction_from_tag(s@) == Err::<Direction, Seq<char>>(m@),
            },
    {
        if str_eq(s, "in") {
            Ok(Direction::In)
        } else if str_eq(s, "out") {
            Ok(Direction::Out)
        } else {
            let mut m = String::from_str("invalid direction tag ");
            let q = debug_quoted(s);
            m.append(q.as_str());
            Err(m)
        }
    }
}

/// Every direction's tag reads back as that direction, and a tag that reads
/// back as a direction is that direction's tag.
pub proof fn direction_tag_roundtrip(d: Direction, s: Seq<char>)
    ensures
        direction_from_tag(direction_tag(d)) == Ok::<Direction, Seq<char>>(d),
        direction_from_tag(s) == Ok::<Direction, Seq<char>>(d) ==> s == direction_tag(d),
{
    reveal_strlit("in");
    reveal_strlit("out");
    assert("in"@ != "out"@) by {
        assert("in"@[0] != "out"@[0]);
    }
}

/// A persisted text message; `body` is at most 65 535 bytes. Ids are UUIDs
/// as 128-bit integers; `ts` is in microseconds since the Unix epoch.
#[derive(Debug, Clone)]
pub struct Message {
    pub id: u128,
    pub chat_id: u128,
    /// WA upstream message id, used to dedup inbound events.
    pub external_id: Option<String>,
    pub direction: Direction,
    pub body: String,
    pub reply_to_message_id: Option<u128>,
    pub forwarded_from_message_id: Option<u128>,
    pub ts: i64,
}

} // verus!
