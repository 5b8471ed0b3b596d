use vstd::prelude::*;

verus! {

/// Whether a canonical path is a drive root, the drive letter compared
/// without regard to case.
pub open spec fn spec_is_drive_root(s: Seq<char>) -> bool {
    ||| s == "C:\\"@
    ||| s == "c:\\"@
    ||| s == "C:/"@
    ||| s == "c:/"@
}

/// Whether a canonical path is protected from deletion: the filesystem
/// root always; on Windows any drive root; elsewhere the home directory,
/// when the environment names one.
pub open spec fn spec_protected(c: Seq<char>, home: Option<Seq<char>>, windows: bool) -> bool {
    ||| c == "/"@
    ||| if windows {
        spec_is_drive_root(c)
    } else {
        match home {
            Some(h) => c == h,
            None => false,
        }
    }
}

/// Whether a canonical path is protected even from a forced run: the
/// filesystem root, and on Windows any drive root.
pub open spec fn spec_force_protected(c: Seq<char>, windows: bool) -> bool {
    c == "/"@ || (windows && spec_is_drive_root(c))
}

fn is_root(canonical: &String) -> (r: bool)
    ensures
        r == (canonical@ == "/"@),
{
    let slash: String = "/".to_owned();
    *canonical == slash
}

fn is_drive_root(canonical: &String) -> (r: bool)
    ensures
        r == spec_is_drive_root(canonical@),
{
    let a: String = "C:\\".to_owned();
    let b: String = "c:\\".to_owned();
    let c: String = "C:/".to_owned();
    let d: String = "c:/".to_owned();
    *canonical == a || *canonical == b || *canonical == c || *canonical == d
}

/// The view of an optional borrowed path.
pub open spec fn opt_path_view(o: Option<&String>) -> Option<Seq<char>> {
    match o {
        Some(h) => Some(h@),
        None => None,
    }
}

/// The overridable safety guard, decided on canonical paths.  The caller
/// canonicalizes the target (and the home directory) first; a target that
/// cannot be canonicalized is treated as unprotected.
pub fn is_protected_canonical(
    canonical: &String,
    home_canonical: Option<&String>,
    windows: bool,
) -> (r: bool)
    ensures
        r == spec_protected(canonical@, opt_path_view(home_canonical), windows),
{
    if is_root(canonical) {
        return true;
    }
    if windows {
        return is_drive_root(canonical);
    }
    match home_canonical {
        Some(h) => *canonical == *h,
        None => false,
    }
}

/// The unconditional safety guard: refuses the filesystem root (and, on
/// Windows, a drive root) even when the run is forced.
pub fn is_force_protected_canonical(canonical: &String, windows: bool) -> (r: bool)
    ensures
        r == spec_force_protected(canonical@, windows),
{
    if is_root(canonical) {
        return true;
    }
    windows && is_drive_root(canonical)
}

/// Relies on dirs::home_dir: the home directory the environment names, if
/// any.  The result depends on the environment, so nothing is promised of
/// it.
#[verifier::external_body]
fn query_home_dir() -> Option<String> {
    dirs::home_dir().map(|p| p.to_string_lossy().into_owned())
}

/// The fallback applied when the environment names no home directory: the
/// filesystem root stands in.
pub fn home_or_root(home: Option<String>) -> (r: String)
    ensures
        match home {
            Some(h) => r == h,
            None => r@ == "/"@,
        },
{
    match home {
        Some(h) => h,
        None => "/".to_owned(),
    }
}

/// The home directory the protected-path guard compares against: what the
/// environment names, or the filesystem root if it names none.
pub fn get_home_dir() -> String {
    home_or_root(query_home_dir())
}

} // verus!
