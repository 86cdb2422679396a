//! Where the schema extraction left its description files, and how the latest
//! build is found among the build directories.
use vstd::prelude::*;
use vstd::string::*;

verus! {

#[derive(Debug, PartialEq)]
pub enum CompileError {
    /// Reading or writing a file failed; the failure's message.
    IoError(String),
    /// A description file or the contract could not be (de)serialized.
    SerdeError(String),
    /// There is no `target/<profile>/build` directory.
    NoBuildFound,
    /// A file pattern is malformed.
    PatternError(String),
    /// A path that matched a pattern could not be read.
    GlobError(String),
    /// A directory entry's name is not UTF-8.
    InvalidFileName,
    /// No build directory belongs to the crate.
    NoBuildFolderFound,
}

/// One entry of the build directory: its name, where that name is UTF-8, and
/// when it was last modified, in nanoseconds after the Unix epoch (0 for a time
/// not after the epoch).
#[derive(Debug, PartialEq)]
pub struct BuildDirEntry {
    pub name: Option<String>,
    pub modified_nanos: u128,
}

pub open spec fn is_prefix(p: Seq<char>, s: Seq<char>) -> bool {
    p.len() <= s.len() && s.subrange(0, p.len() as int) == p
}

/// The build directory of a profile.
pub open spec fn build_folder_path(release: bool) -> Seq<char> {
    "target/"@ + (if release {
        "release"@
    } else {
        "debug"@
    }) + "/build"@
}

/// The output directory of build directory `name` under `folder`.
pub open spec fn out_dir_path(folder: Seq<char>, name: Seq<char>) -> Seq<char> {
    folder + "/"@ + name + "/out"@
}

/// The pattern of the `kind` description files of `target` under `out_dir`.
pub open spec fn signature_pattern(out_dir: Seq<char>, target: Seq<char>, kind: Seq<char>) -> Seq<
    char,
> {
    out_dir + "/lirpc-"@ + target + "/"@ + kind + "-*.json"@
}

/// Going through `entries` in order: the latest modification time seen so far
/// among the directories whose name starts with `crate_name`, and the first
/// directory that had it; an entry whose name is not UTF-8 is an error.
pub open spec fn scan_builds(entries: Seq<BuildDirEntry>, crate_name: Seq<char>) -> Result<
    (u128, Option<String>),
    CompileError,
>
    decreases entries.len(),
{
    if entries.len() == 0 {
        Ok((0, None))
    } else {
        match scan_builds(entries.drop_last(), crate_name) {
            Err(e) => Err(e),
            Ok((latest, found)) => match entries.last().name {
                None => Err(CompileError::InvalidFileName),
                Some(name) => if is_prefix(crate_name, name@) && entries.last().modified_nanos
                    > latest {
                    Ok((entries.last().modified_nanos, Some(name)))
                } else {
                    Ok((latest, found))
                },
            },
        }
    }
}

/// Whether `s` starts with `p`.
pub fn starts_with(s: &String, p: &String) -> (r: bool)
    ensures
        r == is_prefix(p@, s@),
{
    let n = s.as_str().unicode_len();
    let m = p.as_str().unicode_len();
    if m > n {
        return false;
    }
    let mut i: usize = 0;
    while i < m
        invariant
            m == p@.len(),
            n == s@.len(),
            m <= n,
            i <= m,
            forall|j: int| 0 <= j < i ==> s@[j] == p@[j],
        decreases m - i,
    {
        if s.as_str().get_char(i) != p.as_str().get_char(i) {
            assert(s@.subrange(0, m as int)[i as int] != p@[i as int]);
            return false;
        }
        i = i + 1;
    }
    assert(s@.subrange(0, m as int) =~= p@);
    true
}

/// The build directory of the release or the debug profile.
pub fn build_folder(release: bool) -> (r: String)
    ensures
        r@ == build_folder_path(release),
{
    let profile = if release {
        "release"
    } else {
        "debug"
    };
    "target/".to_owned().concat(profile).concat("/build")
}

/// The pattern that the `kind` description files (`type` or `method`) of
/// `target_name` match under `out_dir`.
pub fn signature_glob(out_dir: &String, target_name: &String, kind: &str) -> (r: String)
    ensures
        r@ == signature_pattern(out_dir@, target_name@, kind@),
{
    out_dir.clone().concat("/lirpc-").concat(target_name.as_str()).concat("/").concat(kind).concat(
        "-*.json",
    )
}

/// The output directory of the crate's latest build under `folder`: of the
/// entries whose name starts with `crate_name`, the one modified last (the
/// first of them on a tie). An entry whose name is not UTF-8 fails the search.
pub fn latest_out_dir(folder: &String, entries: &Vec<BuildDirEntry>, crate_name: &String) -> (r:
    Result<String, CompileError>)
    ensures
        match scan_builds(entries@, crate_name@) {
            Err(e) => r == Err::<String, CompileError>(e),
            Ok((_, None)) => r == Err::<String, CompileError>(CompileError::NoBuildFolderFound),
            Ok((_, Some(name))) => r matches Ok(dir) && dir@ == out_dir_path(folder@, name@),
        },
{
    let mut latest: u128 = 0;
    let mut found: Option<String> = None;
    let mut i: usize = 0;
    while i < entries.len()
        invariant
            i <= entries@.len(),
            scan_builds(entries@.take(i as int), crate_name@) == Ok::<
                (u128, Option<String>),
                CompileError,
            >((latest, found)),
        decreases entries@.len() - i,
    {
        assert(entries@.take(i + 1).drop_last() =~= entries@.take(i as int));
        let entry = &entries[i];
        match &entry.name {
            None => {
                proof {
                    lemma_scan_error_stays(entries@, crate_name@, i + 1);
                }
                return Err(CompileError::InvalidFileName);
            },
            Some(name) => {
                if starts_with(name, crate_name) && entry.modified_nanos > latest {
                    latest = entry.modified_nanos;
                    found = Some(name.clone());
                }
            },
        }
        i = i + 1;
    }
    assert(entries@.take(i as int) =~= entries@);
    match found {
        Some(name) => Ok(folder.clone().concat("/").concat(name.as_str()).concat("/out")),
        None => Err(CompileError::NoBuildFolderFound),
    }
}

/// Once the search has failed on a prefix of the entries, it fails the same way
/// on all of them.
proof fn lemma_scan_error_stays(entries: Seq<BuildDirEntry>, crate_name: Seq<char>, k: int)
    requires
        0 <= k <= entries.len(),
        scan_builds(entries.take(k), crate_name) is Err,
    ensures
        scan_builds(entries, crate_name) == scan_builds(entries.take(k), crate_name),
    decreases entries.len() - k,
{
    if k < entries.len() {
        assert(entries.take(k + 1).drop_last() =~= entries.take(k));
        lemma_scan_error_stays(entries, crate_name, k + 1);
    } else {
        assert(entries.take(k) =~= entries);
    }
}

} // verus!
