//! Linux: the badge goes out as an `Update` signal of the Unity launcher
//! entry D-Bus interface, addressed by the application's `.desktop` file id.
use vstd::prelude::*;
use vstd::string::{StrSliceExecFns, StringExecFns};
use crate::outcome::{opt_string, opt_view, viewed_result};

verus! {

/// The suffix of a desktop entry file name.
pub open spec fn desktop_suffix() -> Seq<char> {
    ".desktop"@
}

/// `s` ends with `suffix`.
pub open spec fn has_suffix(s: Seq<char>, suffix: Seq<char>) -> bool {
    s.len() >= suffix.len() && s.subrange(s.len() - suffix.len(), s.len() as int) == suffix
}

/// The error when no desktop file id can be found.
pub open spec fn unresolved_message() -> Seq<char> {
    "Cannot resolve .desktop file id; set GAPPLICATION_ID in the Linux runner or launch from a .desktop entry"@
}

/// The desktop file id: the launched desktop file's name when it is one,
/// else the application id with `.desktop` appended when it is not empty.
pub open spec fn spec_desktop_id(file_name: Option<Seq<char>>, application_id: Option<Seq<char>>) -> Result<
    Seq<char>,
    Seq<char>,
> {
    if file_name is Some && has_suffix(file_name->0, desktop_suffix()) {
        Ok(file_name->0)
    } else if application_id is Some && application_id->0.len() > 0 {
        Ok(application_id->0 + desktop_suffix())
    } else {
        Err(unresolved_message())
    }
}

/// Whether `name` ends with `.desktop`.
pub fn is_desktop_file_name(name: &str) -> (r: bool)
    ensures
        r == has_suffix(name@, desktop_suffix()),
{
    let suffix = ".desktop";
    proof {
        reveal_strlit(".desktop");
    }
    let n = name.unicode_len();
    let m = suffix.unicode_len();
    if n < m {
        return false;
    }
    let mut k: usize = 0;
    while k < m
        invariant
            n == name@.len(),
            m == suffix@.len(),
            suffix@ == desktop_suffix(),
            m <= n,
            0 <= k <= m,
            forall|j: int| 0 <= j < k ==> name@[n - m + j] == suffix@[j],
        decreases m - k,
    {
        if name.get_char(n - m + k) != suffix.get_char(k) {
            assert(name@.subrange(n - m, n as int)[k as int] != suffix@[k as int]);
            return false;
        }
        k += 1;
    }
    assert(name@.subrange(n - m, n as int) =~= suffix@);
    true
}

/// The desktop file id from the launched desktop file's name and the
/// application id, whichever applies first.
pub fn desktop_id_from_file_name(file_name: Option<&str>, application_id: Option<&str>) -> (r: Result<
    String,
    String,
>)
    ensures
        viewed_result(r) == spec_desktop_id(opt_view(file_name), opt_view(application_id)),
{
    if let Some(name) = file_name {
        if is_desktop_file_name(name) {
            return Ok(name.to_string());
        }
    }
    if let Some(id) = application_id {
        if !id.is_empty() {
            let mut desktop_id = id.to_string();
            let suffix = ".desktop";
            desktop_id.append(suffix);
            return Ok(desktop_id);
        }
    }
    Err(
        "Cannot resolve .desktop file id; set GAPPLICATION_ID in the Linux runner or launch from a .desktop entry".to_string(),
    )
}

/// What is known of the final component of a path, whatever platform the
/// path is read on: it is not empty, not `.` or `..`, and stands in the path
/// as written; when the path has no `\`, it contains no `/` either.
pub open spec fn is_path_file_name(path: Seq<char>, name: Seq<char>) -> bool {
    &&& name.len() > 0
    &&& name != seq!['.']
    &&& name != seq!['.', '.']
    &&& !path.contains('\\') ==> !name.contains('/')
    &&& exists|i: int| 0 <= i && i + name.len() <= path.len() && #[trigger] path.subrange(i, i + name.len()) == name
}

/// `path` reads the same on every platform: it has no `\` or `:` and does
/// not start with `//`, so `/` is its only separator and it has no drive or
/// network prefix.
pub open spec fn is_plain_path(path: Seq<char>) -> bool {
    &&& !path.contains('\\')
    &&& !path.contains(':')
    &&& !(path.len() >= 2 && path[0] == '/' && path[1] == '/')
}

/// The index of the last `/` in `s`, or -1 when there is none.
pub open spec fn last_slash(s: Seq<char>) -> int
    decreases s.len(),
{
    if s.len() == 0 {
        -1
    } else if s.last() == '/' {
        s.len() - 1
    } else {
        last_slash(s.drop_last())
    }
}

/// The last `/`-separated part of `s` that is neither empty nor `.`, if any.
pub open spec fn last_named_part(s: Seq<char>) -> Option<Seq<char>>
    decreases s.len(),
{
    let k = last_slash(s);
    let part = s.subrange(k + 1, s.len() as int);
    if part.len() > 0 && part != seq!['.'] {
        Some(part)
    } else if k < 0 {
        None
    } else {
        proof {
            lemma_last_slash_bounds(s);
        }
        last_named_part(s.subrange(0, k))
    }
}

/// The final component of a plain path: its last part that is neither empty
/// nor `.`, or none when that part is `..` or there is no such part.
pub open spec fn plain_file_name(path: Seq<char>) -> Option<Seq<char>> {
    match last_named_part(path) {
        Some(part) => if part == seq!['.', '.'] {
            None
        } else {
            Some(part)
        },
        None => None,
    }
}

/// The last `/` lies inside the sequence.
pub proof fn lemma_last_slash_bounds(s: Seq<char>)
    ensures
        -1 <= last_slash(s) < s.len(),
        last_slash(s) >= 0 ==> s[last_slash(s)] == '/',
    decreases s.len(),
{
    if s.len() > 0 && s.last() != '/' {
        lemma_last_slash_bounds(s.drop_last());
    }
}

/// The final component of `path`, as text.
///
/// Trusted: calls `std::path::Path::file_name`, documented to return the
/// final component of the path when it is a normal file or directory name,
/// and `None` when the path ends in `..`; its documentation's examples read
/// `/usr/bin/` as `bin` and `foo.txt/.` as `foo.txt`. The contract claims
/// that a returned name is not empty, is not `.` or `..`, appears verbatim in
/// `path`, and has no `/` when the path has no `\` (under a Windows verbatim
/// prefix `/` is not a separator); and that for a plain path (no `\` or `:`,
/// no leading `//`) the result is the last `/`-separated part that is
/// neither empty nor `.`, or `None` when that part is `..` or there is none.
/// It does not say which component is returned for other paths, since the
/// separators and prefixes the standard library recognizes depend on the
/// platform.
#[verifier::external_body]
fn path_file_name(path: &str) -> (r: Option<String>)
    ensures
        r matches Some(name) ==> is_path_file_name(path@, name@),
        is_plain_path(path@) ==> opt_string(r) == plain_file_name(path@),
{
    match std::path::Path::new(path).file_name() {
        Some(name) => match name.to_str() {
            Some(text) => Some(text.to_string()),
            None => None,
        },
        None => None,
    }
}

/// What `resolve_desktop_id` may give: what the desktop file's name and the
/// application id decide, for the file name the launched desktop file path
/// has (none when no path is set). For a plain path that name is its final
/// component; for other paths, some name the path could have, or none.
pub open spec fn desktop_id_outcome(
    launched_desktop_file: Option<Seq<char>>,
    application_id: Option<Seq<char>>,
    r: Result<Seq<char>, Seq<char>>,
) -> bool {
    match launched_desktop_file {
        None => r == spec_desktop_id(None, application_id),
        Some(path) => if is_plain_path(path) {
            r == spec_desktop_id(plain_file_name(path), application_id)
        } else {
            r == spec_desktop_id(None, application_id) || exists|name: Seq<char>|
                is_path_file_name(path, name) && r == #[trigger] spec_desktop_id(
                    Some(name),
                    application_id,
                )
        },
    }
}

/// The desktop file id of the running application, from the
/// `GIO_LAUNCHED_DESKTOP_FILE` and `GAPPLICATION_ID` environment variables
/// (`None` when unset).
pub fn resolve_desktop_id(launched_desktop_file: Option<&str>, application_id: Option<&str>) -> (r:
    Result<String, String>)
    ensures
        desktop_id_outcome(opt_view(launched_desktop_file), opt_view(application_id), viewed_result(r)),
{
    match launched_desktop_file {
        Some(path) => {
            let name = path_file_name(path);
            match name {
                Some(n) => {
                    let r = desktop_id_from_file_name(Some(n.as_str()), application_id);
                    proof {
                        assert(is_path_file_name(path@, n@));
                    }
                    r
                },
                None => desktop_id_from_file_name(None, application_id),
            }
        },
        None => desktop_id_from_file_name(None, application_id),
    }
}

/// The `Update` signal for the launcher entry: the application URI and the
/// count property, shown only for a positive count.
pub struct LauncherUpdate {
    pub app_uri: String,
    pub count: Option<i64>,
    pub count_visible: bool,
}

/// The URI of the launcher entry of desktop file `desktop_id`.
pub open spec fn app_uri(desktop_id: Seq<char>) -> Seq<char> {
    "application://"@ + desktop_id
}

/// The count property for `count`: absent and hidden below one, otherwise at
/// most 99.
pub open spec fn spec_launcher_count(count: int) -> Option<i64> {
    if count <= 0 {
        None
    } else if count > 99 {
        Some(99)
    } else {
        Some(count as i64)
    }
}

/// The launcher entry update for `count`.
pub fn set_badge(count: i32, desktop_id: &str) -> (u: LauncherUpdate)
    ensures
        u.app_uri@ == app_uri(desktop_id@),
        u.count == spec_launcher_count(count as int),
        u.count_visible == (count > 0),
{
    let mut uri = "application://".to_string();
    uri.append(desktop_id);
    if count <= 0 {
        LauncherUpdate { app_uri: uri, count: None, count_visible: false }
    } else {
        let shown = if count < 99 {
            count
        } else {
            99
        };
        LauncherUpdate { app_uri: uri, count: Some(shown as i64), count_visible: true }
    }
}

/// The Unity launcher asks no permission for badges.
pub fn request_badge_permission() -> (r: Result<bool, String>)
    ensures
        r == Ok::<bool, String>(true),
{
    Ok(true)
}

/// The Unity launcher asks no permission for badges, so it is always granted.
pub fn is_badge_permission_granted() -> (r: Result<bool, String>)
    ensures
        r == Ok::<bool, String>(true),
{
    Ok(true)
}

} // verus!
