//! Where the game keeps its mods, relative to the home directory, on each
//! supported platform.

use vstd::prelude::*;

use crate::select::texts;

verus! {

/// A platform with a known game directory layout.
#[derive(Clone, Copy, Debug, PartialEq, Eq, Structural)]
pub enum Platform {
    MacOs,
    Linux,
    Windows,
}

/// The platform that an operating-system name (as Rust's `std::env::consts::OS`
/// writes it) stands for.
pub open spec fn platform_named(name: Seq<char>) -> Option<Platform> {
    if name == "macos"@ {
        Some(Platform::MacOs)
    } else if name == "linux"@ {
        Some(Platform::Linux)
    } else if name == "windows"@ {
        Some(Platform::Windows)
    } else {
        None
    }
}

/// The mods directory below the home directory, one path component each.
pub open spec fn mods_dir_path(platform: Platform) -> Seq<Seq<char>> {
    match platform {
        Platform::MacOs => seq!["Library"@, "ApplicationSupport"@, "minecraft"@, "mods"@],
        Platform::Linux => seq![".minecraft"@, "mods"@],
        Platform::Windows => seq!["AppData"@, "Roaming"@, ".minecraft"@, "mods"@],
    }
}

/// Whether `a` and `b` hold the same characters.
fn same_text(a: &str, b: &str) -> (r: bool)
    ensures
        r == (a@ == b@),
{
    let n = a.unicode_len();
    if n != b.unicode_len() {
        return false;
    }
    let mut i: usize = 0;
    while i < n
        invariant
            n == a@.len(),
            n == b@.len(),
            i <= n,
            forall|k: int| 0 <= k < i ==> a@[k] == b@[k],
        decreases n - i,
    {
        if a.get_char(i) != b.get_char(i) {
            return false;
        }
        i = i + 1;
    }
    assert(a@ =~= b@);
    true
}

/// The platform that an operating-system name stands for, if it is one of
/// `macos`, `linux` and `windows`.
pub fn platform_from_name(name: &str) -> (r: Option<Platform>)
    ensures
        r == platform_named(name@),
{
    if same_text(name, "macos") {
        Some(Platform::MacOs)
    } else if same_text(name, "linux") {
        Some(Platform::Linux)
    } else if same_text(name, "windows") {
        Some(Platform::Windows)
    } else {
        None
    }
}

/// The path components of the mods directory below the home directory.
pub fn mods_dir_segments(platform: Platform) -> (r: Vec<String>)
    ensures
        texts(r@) == mods_dir_path(platform),
{
    let mut r: Vec<String> = Vec::new();
    match platform {
        Platform::MacOs => {
            r.push(String::from_str("Library"));
            r.push(String::from_str("ApplicationSupport"));
            r.push(String::from_str("minecraft"));
        },
        Platform::Linux => {
            r.push(String::from_str(".minecraft"));
        },
        Platform::Windows => {
            r.push(String::from_str("AppData"));
            r.push(String::from_str("Roaming"));
            r.push(String::from_str(".minecraft"));
        },
    }
    r.push(String::from_str("mods"));
    assert(texts(r@) =~= mods_dir_path(platform));
    r
}

} // verus!
