//! Layout of the on-disk WhatsApp session blob. Saving is atomic: write
//! the temporary file, sync, rename over the final one (done in `app/`).

use vstd::prelude::*;

verus! {

/// Canonical filename for the on-disk WA session blob.
pub const SESSION_FILE: &'static str = "session.bin";

/// Temporary filename the blob is written to before the rename.
pub const SESSION_TMP: &'static str = "session.bin.tmp";

/// What `Path::new(base).join(leaf)` gives, as text.
pub uninterp spec fn path_joined(base: Seq<char>, leaf: Seq<char>) -> Seq<char>;

/// `Path::new(base).join(leaf)` as text (`base` and `leaf` are UTF-8, so
/// the result is). The result is named only: which separator `join`
/// inserts, and whether it inserts one, depend on the target platform
/// (`/` on Unix, `\\` on Windows, where drive prefixes also count), so no
/// clause on the text is stated.
#[verifier::external_body]
pub(crate) fn join_path(base: &str, leaf: &str) -> (r: String)
    ensures
        r@ == path_joined(base@, leaf@),
{
    std::path::Path::new(base).join(leaf).to_string_lossy().into_owned()
}

/// Path to the final session file within `dir`: `dir` joined with
/// `session.bin`.
pub fn session_path(dir: &str) -> (r: String)
    ensures
        r@ == path_joined(dir@, SESSION_FILE@),
{
    join_path(dir, SESSION_FILE)
}

/// Path to the temporary session file within `dir`: `dir` joined with
/// `session.bin.tmp`.
pub fn session_tmp_path(dir: &str) -> (r: String)
    ensures
        r@ == path_joined(dir@, SESSION_TMP@),
{
    join_path(dir, SESSION_TMP)
}

} // verus!
