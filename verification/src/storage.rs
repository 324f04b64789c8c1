//! Layout of a recording session on disk:
//!
//! ```text
//! {base_dir}/recordings/{session_id}/
//!   recording.json   (written on stop)
//!   shots/           (screenshots saved here during recording)
//! ```
//!
//! Paths are text with `/` as the separator.
use vstd::prelude::*;

use crate::stamps::is_v4_uuid_text;

verus! {

/// `base` with `part` appended as a further path component: an absolute
/// `part` replaces `base`; an empty `base` gives `part`; otherwise one `/`
/// stands between them.
pub open spec fn path_join(base: Seq<char>, part: Seq<char>) -> Seq<char> {
    if part.len() > 0 && part[0] == '/' {
        part
    } else if base.len() == 0 {
        part
    } else if base.last() == '/' {
        base + part
    } else {
        base + "/"@ + part
    }
}

/// Appends `part` to the path `base` as a further component.
pub fn join_path(base: &str, part: &str) -> (r: String)
    ensures
        r@ == path_join(base@, part@),
{
    let part_len: usize = part.unicode_len();
    if part_len > 0 && part.get_char(0) == '/' {
        return String::from_str(part);
    }
    let base_len: usize = base.unicode_len();
    if base_len == 0 {
        String::from_str(part)
    } else if base.get_char(base_len - 1) == '/' {
        String::from_str(base).concat(part)
    } else {
        String::from_str(base).concat("/").concat(part)
    }
}

/// The directory of session `session_id` under `base_dir`.
pub open spec fn session_dir_spec(base_dir: Seq<char>, session_id: Seq<char>) -> Seq<char> {
    path_join(path_join(base_dir, "recordings"@), session_id)
}

/// The path of the directory of session `session_id` under `base_dir`:
/// `{base_dir}/recordings/{session_id}`.
pub fn session_dir_path(base_dir: &str, session_id: &str) -> (r: String)
    ensures
        r@ == session_dir_spec(base_dir@, session_id@),
{
    let recordings = join_path(base_dir, "recordings");
    join_path(recordings.as_str(), session_id)
}

/// Return the path to the `shots/` subdirectory for a session.
pub fn shots_dir(session_dir: &str) -> (r: String)
    ensures
        r@ == path_join(session_dir@, "shots"@),
{
    join_path(session_dir, "shots")
}

/// The path of the session file `recording.json` in the session directory.
pub fn recording_json_path(session_dir: &str) -> (r: String)
    ensures
        r@ == path_join(session_dir@, "recording.json"@),
{
    join_path(session_dir, "recording.json")
}

/// The temporary file that `recording.json` is first written to, then renamed from.
pub fn recording_tmp_path(session_dir: &str) -> (r: String)
    ensures
        r@ == path_join(session_dir@, "recording.json.tmp"@),
{
    join_path(session_dir, "recording.json.tmp")
}

/// For a base directory written without a trailing `/` and a session
/// identifier drawn by the recorder, the session files lie at
/// `{base}/recordings/{id}/shots` and `{base}/recordings/{id}/recording.json`,
/// and the temporary file beside the latter.
pub proof fn law_session_layout(base: Seq<char>, id: Seq<char>)
    requires
        base.len() > 0,
        base.last() != '/',
        is_v4_uuid_text(id),
    ensures
        session_dir_spec(base, id) == base + "/"@ + "recordings"@ + "/"@ + id,
        path_join(session_dir_spec(base, id), "shots"@) == session_dir_spec(base, id) + "/"@
            + "shots"@,
        path_join(session_dir_spec(base, id), "recording.json"@) == session_dir_spec(base, id)
            + "/"@ + "recording.json"@,
        path_join(session_dir_spec(base, id), "recording.json.tmp"@) == session_dir_spec(
            base,
            id,
        ) + "/"@ + "recording.json.tmp"@,
{
    reveal_strlit("recordings");
    reveal_strlit("/");
    reveal_strlit("shots");
    reveal_strlit("recording.json");
    reveal_strlit("recording.json.tmp");
    let rec = base + "/"@ + "recordings"@;
    assert(path_join(base, "recordings"@) == rec);
    assert(rec.last() == 's');
    assert(crate::stamps::is_lower_hex_digit(id[0]));
    assert(crate::stamps::is_lower_hex_digit(id[35]));
    let dir = rec + "/"@ + id;
    assert(path_join(rec, id) == dir);
    assert(dir.last() == id[35]);
}

} // verus!
