//! Executable bindings: how a path is recognised, and which paths can be
//! linked to a game.
use vstd::prelude::*;
use crate::error::{AppError, fails_with};
use crate::services::achievement::opt_text;
use crate::text::{has_suffix, lowercase, replaced, trimmed};

verus! {

/// The key an executable path is recognised by: trimmed, with `/` written as
/// `\`, lowercased.
pub open spec fn normalized_path(path: Seq<char>) -> Seq<char> {
    lowercase(replaced(trimmed(path), '/', "\\"@))
}

/// Normalize an executable path for recognition.
pub fn normalize_path(path: &str) -> (r: String)
    ensures
        r@ == normalized_path(path@),
        r@.len() == 0 <==> trimmed(path@).len() == 0,
{
    let t = crate::text::trim(path);
    let slashes = crate::text::replace_char(t, '/', "\\");
    proof {
        reveal_strlit("\\");
        if t@.len() > 0 {
            assert(slashes@.len() > 0);
        }
    }
    crate::text::to_lowercase(slashes.as_str())
}

/// Whether `part` occurs in `s` as a run of consecutive characters.
pub open spec fn is_part_of(part: Seq<char>, s: Seq<char>) -> bool {
    exists|i: int| 0 <= i && i + part.len() <= s.len() && #[trigger] s.subrange(i, i + part.len()) == part
}

/// A path of one plain component: not empty, without `/`, `\` or `:`, and
/// neither `.` nor `..`. Every platform reads it as a file name alone.
pub open spec fn plain_name(p: Seq<char>) -> bool {
    &&& p.len() > 0
    &&& !p.contains('/')
    &&& !p.contains('\\')
    &&& !p.contains(':')
    &&& p != "."@
    &&& p != ".."@
}

/// The text after the last `/` of a path; all of it when it has none.
pub open spec fn after_last_slash(p: Seq<char>) -> Seq<char>
    decreases p.len(),
{
    if p.len() == 0 {
        Seq::empty()
    } else if p.last() == '/' {
        Seq::empty()
    } else {
        after_last_slash(p.drop_last()).push(p.last())
    }
}

/// A path `p/q` whose last part `q` is a plain name, without `\` and not
/// starting with `//`: no platform reads a prefix or another separator in
/// it, so every platform takes `q` as its file name.
pub open spec fn slash_path(p: Seq<char>) -> bool {
    &&& p.contains('/')
    &&& !p.contains('\\')
    &&& !(p.len() >= 2 && p[0] == '/' && p[1] == '/')
    &&& plain_name(after_last_slash(p))
}

/// The file name that every platform reads from a path, where they agree:
/// a plain name itself, or the plain last part of a `/` path.
pub open spec fn agreed_name(p: Seq<char>) -> Option<Seq<char>> {
    if plain_name(p) {
        Some(p)
    } else if slash_path(p) {
        Some(after_last_slash(p))
    } else {
        None
    }
}

/// `Path::file_name`, as text: the last component of a path, which is never
/// empty and is a slice of the path. Where every platform reads the same
/// file name (`agreed_name`), that is the result, and the file name of a
/// path that starts with `/` holds no `/`. Which other characters separate
/// components depends on the platform, so for other paths which part it is
/// is not stated.
#[verifier::external_body]
fn file_name(path: &str) -> (r: Option<String>)
    ensures
        r matches Some(n) ==> n@.len() > 0 && is_part_of(n@, path@),
        r is None ==> agreed_name(path@) is None,
        r matches Some(n) ==> (agreed_name(path@) matches Some(a) ==> n@ == a),
        r matches Some(n) ==> (path@.len() > 0 && path@[0] == '/' ==> !n@.contains('/')),
{
    match std::path::Path::new(path).file_name() {
        Some(name) => match name.to_str() {
            Some(text) => Some(text.to_owned()),
            None => None,
        },
        None => None,
    }
}

/// A path ready to be linked to a game.
#[derive(Debug, Clone)]
pub struct BindingCandidate {
    pub executable_path: String,
    pub executable_name: String,
    pub executable_normalized: String,
}

/// Only a non-empty name that ends in `.exe`, in any case, is an executable.
pub fn check_executable_name(name: Option<String>) -> (r: Result<String, AppError>)
    ensures
        match opt_text(name) {
            None => fails_with(r, "invalid executable path"@),
            Some(n) => if n.len() == 0 {
                fails_with(r, "invalid executable path"@)
            } else if !has_suffix(lowercase(n), ".exe"@) {
                fails_with(r, "the selected process is not an executable"@)
            } else {
                r matches Ok(m) && m@ == n
            },
        },
{
    match name {
        Some(n) => {
            if n.as_str().is_empty() {
                return Err(AppError::validation("invalid executable path"));
            }
            let lower = crate::text::to_lowercase(n.as_str());
            if !crate::text::ends_with(lower.as_str(), ".exe") {
                return Err(AppError::validation("the selected process is not an executable"));
            }
            Ok(n)
        },
        None => Err(AppError::validation("invalid executable path")),
    }
}

/// Check a path the user picked: it must not be blank and must name an
/// executable. The candidate keeps the trimmed path and its normalized key.
/// A plain name, or a `/` path whose last part is a plain name, is decided
/// exactly. Which file name another path has is the platform's reading of
/// it: of such a path this states which answers can come back, that the
/// stored name is a non-empty part of the stored path, and that a path from
/// the root gives a name without `/`.
pub fn prepare_binding(executable_path: &str) -> (r: Result<BindingCandidate, AppError>)
    ensures
        trimmed(executable_path@).len() == 0 ==> fails_with(r, "executable path is required"@),
        trimmed(executable_path@).len() > 0 ==> r is Ok || fails_with(r, "invalid executable path"@)
            || fails_with(r, "the selected process is not an executable"@),
        agreed_name(trimmed(executable_path@)) matches Some(a) ==> if has_suffix(
            lowercase(a),
            ".exe"@,
        ) {
            r matches Ok(c) && c.executable_name@ == a
        } else {
            fails_with(r, "the selected process is not an executable"@)
        },
        r matches Ok(c) ==> c.executable_path@.len() > 0 && c.executable_path@[0] == '/'
            ==> !c.executable_name@.contains('/'),
        r matches Ok(c) ==> {
            &&& c.executable_path@ == trimmed(executable_path@)
            &&& c.executable_normalized@ == normalized_path(executable_path@)
            &&& c.executable_name@.len() > 0
            &&& is_part_of(c.executable_name@, c.executable_path@)
            &&& has_suffix(lowercase(c.executable_name@), ".exe"@)
        },
{
    let path = crate::text::trim(executable_path);
    if path.is_empty() {
        return Err(AppError::validation("executable path is required"));
    }
    let found = file_name(path);
    let name = check_executable_name(found)?;
    let normalized = normalize_path(path);
    proof {
        crate::text::lemma_trim_idempotent(executable_path@);
    }
    Ok(BindingCandidate {
        executable_path: path.to_owned(),
        executable_name: name,
        executable_normalized: normalized,
    })
}

/// An executable links to one game only.
pub fn check_binding_owner(owner: Option<i64>, game_id: i64) -> (r: Result<(), AppError>)
    ensures
        owner is None ==> r is Ok,
        owner == Some(game_id) ==> fails_with(r, "this executable is already linked to the game"@),
        (owner matches Some(o) && o != game_id) ==> fails_with(
            r,
            "this executable is linked to another game"@,
        ),
{
    match owner {
        Some(o) => if o == game_id {
            Err(AppError::validation("this executable is already linked to the game"))
        } else {
            Err(AppError::validation("this executable is linked to another game"))
        },
        None => Ok(()),
    }
}

/// Automatic tracking can be enabled only for a game with a linked executable.
pub fn check_can_enable(enabled: bool, binding_count: usize) -> (r: Result<(), AppError>)
    ensures
        enabled && binding_count == 0 ==> fails_with(
            r,
            "link at least one executable before enabling automatic tracking"@,
        ),
        !(enabled && binding_count == 0) ==> r is Ok,
{
    if enabled && binding_count == 0 {
        return Err(AppError::validation("link at least one executable before enabling automatic tracking"));
    }
    Ok(())
}

} // verus!
