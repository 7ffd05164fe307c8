//! Picking the newest release of each feature line from a manifest.

use vstd::prelude::*;

use crate::manifest::{Version, VersionManifestV2, VersionType};
use crate::version::{feature_line, remove_semver_patch, VersionParseError};

verus! {

/// The character sequences that a list of strings holds.
pub open spec fn texts(v: Seq<String>) -> Seq<Seq<char>> {
    v.map_values(|s: String| s@)
}

/// The scan of `catalog` from position `n` on, with `chosen` picked so far
/// and `lines` their feature lines: it stops once `count` identifiers are
/// picked or the catalog ends, passes over versions that are not releases,
/// fails on the first release whose feature line cannot be read (giving its
/// identifier), and picks a release whose feature line is new.
pub open spec fn scan(
    count: nat,
    catalog: Seq<Version>,
    n: int,
    chosen: Seq<Seq<char>>,
    lines: Seq<Seq<char>>,
) -> Result<Seq<Seq<char>>, Seq<char>>
    decreases catalog.len() - n,
{
    if chosen.len() >= count || n >= catalog.len() || n < 0 {
        Ok(chosen)
    } else if catalog[n].version_type != VersionType::Release {
        scan(count, catalog, n + 1, chosen, lines)
    } else {
        match feature_line(catalog[n].id@) {
            None => Err(catalog[n].id@),
            Some(line) => if lines.contains(line) {
                scan(count, catalog, n + 1, chosen, lines)
            } else {
                scan(count, catalog, n + 1, chosen.push(catalog[n].id@), lines.push(line))
            },
        }
    }
}

/// The newest release of each feature line, at most `count` of them, in
/// catalog order; or the first unreadable release identifier met before
/// that many were found.
pub open spec fn latest_versions(count: nat, catalog: Seq<Version>) -> Result<
    Seq<Seq<char>>,
    Seq<char>,
> {
    scan(count, catalog, 0, seq![], seq![])
}

/// Whether `id` is the identifier of a release in `catalog`.
pub open spec fn is_release_in(catalog: Seq<Version>, id: Seq<char>) -> bool {
    exists|k: int|
        0 <= k < catalog.len() && #[trigger] catalog[k].id@ == id && catalog[k].version_type
            == VersionType::Release
}

/// Whether `lines` holds the text of `line`.
fn contains_text(lines: &Vec<String>, line: &String) -> (r: bool)
    ensures
        r == texts(lines@).contains(line@),
{
    let mut i: usize = 0;
    while i < lines.len()
        invariant
            i <= lines.len(),
            forall|k: int| 0 <= k < i ==> lines@[k]@ != line@,
        decreases lines.len() - i,
    {
        if lines[i] == *line {
            assert(texts(lines@)[i as int] == line@);
            return true;
        }
        i = i + 1;
    }
    assert(!texts(lines@).contains(line@)) by {
        if texts(lines@).contains(line@) {
            let k = choose|k: int| 0 <= k < texts(lines@).len() && texts(lines@)[k] == line@;
            assert(lines@[k]@ == line@);
        }
    }
    false
}

/// Records the release `id` with feature line `line` unless a release of
/// that line was recorded already: `chosen` holds the recorded identifiers,
/// `seen` their feature lines.
pub fn admit_release(chosen: &mut Vec<String>, seen: &mut Vec<String>, id: &String, line: String)
    ensures
        texts(old(seen)@).contains(line@) ==> final(chosen)@ == old(chosen)@ && final(seen)@ == old(
            seen,
        )@,
        !texts(old(seen)@).contains(line@) ==> final(chosen)@ == old(chosen)@.push(*id)
            && final(seen)@ == old(seen)@.push(line),
{
    if !contains_text(seen, &line) {
        chosen.push(id.clone());
        seen.push(line);
    }
}

/// At most `count` of the newest versions of the manifest: for each feature
/// line, the first release of it in the manifest's order. Versions that are
/// not releases are passed over; a release identifier met before `count`
/// were found that cannot be read as a version fails the whole call.
pub fn get_latest_mc_versions(count: usize, version_manifest: VersionManifestV2) -> (r: Result<
    Vec<String>,
    VersionParseError,
>)
    ensures
        match r {
            Ok(list) => latest_versions(count as nat, version_manifest.versions@) == Ok::<
                Seq<Seq<char>>,
                Seq<char>,
            >(texts(list@)),
            Err(e) => latest_versions(count as nat, version_manifest.versions@) == Err::<
                Seq<Seq<char>>,
                Seq<char>,
            >(e.input@),
        },
        count == 0 ==> r is Ok && r->Ok_0@.len() == 0,
        version_manifest.versions@.len() == 0 ==> r is Ok && r->Ok_0@.len() == 0,
        r is Ok ==> r->Ok_0@.len() <= count,
        r is Ok ==> forall|a: int|
            0 <= a < r->Ok_0@.len() ==> is_release_in(
                version_manifest.versions@,
                #[trigger] r->Ok_0@[a]@,
            ),
        r is Ok ==> forall|a: int, b: int|
            0 <= a < b < r->Ok_0@.len() ==> feature_line(#[trigger] r->Ok_0@[a]@) is Some
                && feature_line(r->Ok_0@[a]@) != feature_line(#[trigger] r->Ok_0@[b]@),
{
    let versions = version_manifest.versions;
    let ghost catalog = versions@;
    let mut chosen: Vec<String> = Vec::new();
    let mut lines: Vec<String> = Vec::new();
    let mut i: usize = 0;
    assert(texts(chosen@) =~= seq![]);
    assert(texts(lines@) =~= seq![]);
    while i < versions.len() && chosen.len() < count
        invariant
            versions@ == catalog,
            catalog == version_manifest.versions@,
            i <= versions.len(),
            chosen.len() <= count,
            lines.len() == chosen.len(),
            latest_versions(count as nat, catalog) == scan(
                count as nat,
                catalog,
                i as int,
                texts(chosen@),
                texts(lines@),
            ),
            forall|a: int|
                0 <= a < chosen.len() ==> feature_line(#[trigger] chosen@[a]@) == Some(
                    lines@[a]@,
                ),
            forall|a: int, b: int|
                0 <= a < b < lines.len() ==> #[trigger] lines@[a]@ != #[trigger] lines@[b]@,
            forall|a: int|
                0 <= a < chosen.len() ==> is_release_in(catalog, #[trigger] chosen@[a]@),
        decreases versions.len() - i,
    {
        let version = &versions[i];
        if version.version_type == VersionType::Release {
            let line = match remove_semver_patch(version.id.as_str()) {
                Ok(line) => line,
                Err(e) => {
                    assert(texts(chosen@).len() == chosen.len());
                    assert(scan(count as nat, catalog, i as int, texts(chosen@), texts(lines@))
                        == Err::<Seq<Seq<char>>, Seq<char>>(e.input@));
                    return Err(e);
                },
            };
            let ghost old_chosen = chosen@;
            let ghost old_lines = lines@;
            admit_release(&mut chosen, &mut lines, &version.id, line);
            proof {
                if chosen.len() > old_chosen.len() {
                    assert(texts(chosen@) =~= texts(old_chosen).push(catalog[i as int].id@));
                    assert(texts(lines@) =~= texts(old_lines).push(lines@.last()@));
                    assert forall|a: int|
                        0 <= a < chosen.len() implies is_release_in(
                        catalog,
                        #[trigger] chosen@[a]@,
                    ) by {
                        if a == chosen.len() - 1 {
                            assert(catalog[i as int].id@ == chosen@[a]@);
                        } else {
                            assert(chosen@[a] == old_chosen[a]);
                        }
                    }
                    assert forall|a: int, b: int|
                        0 <= a < b < lines.len() implies #[trigger] lines@[a]@
                        != #[trigger] lines@[b]@ by {
                        if b == lines.len() - 1 {
                            assert(texts(old_lines)[a] == lines@[a]@);
                        }
                    }
                }
            }
        }
        i = i + 1;
    }
    Ok(chosen)
}

} // verus!
