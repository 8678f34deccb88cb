//! The registry of installable software and the download of an installer.
use vstd::prelude::*;

use crate::paths::{joined_path, path_join};
use crate::text::{ascii_lower, eq_ignore_ascii_case_seq, str_eq};
use vstd::utf8::is_ascii_chars;

verus! {

/// One entry of the registry: the name users type, the name shown, where the
/// installer is fetched from and the file it is saved as.
#[derive(Clone, Copy, Debug, PartialEq, Eq)]
pub struct PackageInfo {
    pub name: &'static str,
    pub display_name: &'static str,
    pub url: &'static str,
    pub filename: &'static str,
}

/// A registry entry as text.
pub struct PackageView {
    pub name: Seq<char>,
    pub display_name: Seq<char>,
    pub url: Seq<char>,
    pub filename: Seq<char>,
}

impl View for PackageInfo {
    type V = PackageView;

    open spec fn view(&self) -> PackageView {
        PackageView {
            name: self.name@,
            display_name: self.display_name@,
            url: self.url@,
            filename: self.filename@,
        }
    }
}

/// The registry, in order.
pub open spec fn registry() -> Seq<PackageView> {
    seq![
        PackageView {
            name: "python"@,
            display_name: "Python 3"@,
            url: "https://www.python.org/ftp/python/3.12.7/python-3.12.7-amd64.exe"@,
            filename: "python-3.12.7-amd64.exe"@,
        },
        PackageView {
            name: "git"@,
            display_name: "Git"@,
            url: "https://github.com/git-for-windows/git/releases/download/v2.47.1.windows.2/Git-2.47.1.2-64-bit.exe"@,
            filename: "Git-2.47.1.2-64-bit.exe"@,
        },
        PackageView {
            name: "nodejs"@,
            display_name: "Node.js LTS"@,
            url: "https://nodejs.org/dist/v22.12.0/node-v22.12.0-x64.msi"@,
            filename: "node-v22.12.0-x64.msi"@,
        },
        PackageView {
            name: "node"@,
            display_name: "Node.js LTS"@,
            url: "https://nodejs.org/dist/v22.12.0/node-v22.12.0-x64.msi"@,
            filename: "node-v22.12.0-x64.msi"@,
        },
        PackageView {
            name: "vscode"@,
            display_name: "Visual Studio Code"@,
            url: "https://update.code.visualstudio.com/latest/win32-x64/stable"@,
            filename: "VSCodeSetup-x64.exe"@,
        },
        PackageView {
            name: "ffmpeg"@,
            display_name: "FFmpeg"@,
            url: "https://www.gyan.dev/ffmpeg/builds/ffmpeg-release-essentials.zip"@,
            filename: "ffmpeg-release-essentials.zip"@,
        },
        PackageView {
            name: "7zip"@,
            display_name: "7-Zip"@,
            url: "https://www.7-zip.org/a/7z2409-x64.exe"@,
            filename: "7z2409-x64.exe"@,
        },
        PackageView {
            name: "vlc"@,
            display_name: "VLC Media Player"@,
            url: "https://get.videolan.org/vlc/3.0.21/win64/vlc-3.0.21-win64.exe"@,
            filename: "vlc-3.0.21-win64.exe"@,
        },
        PackageView {
            name: "rust"@,
            display_name: "Rust (rustup)"@,
            url: "https://static.rust-lang.org/rustup/dist/x86_64-pc-windows-msvc/rustup-init.exe"@,
            filename: "rustup-init.exe"@,
        },
    ]
}

/// The views of a list of entries.
pub open spec fn packages_view(v: Seq<PackageInfo>) -> Seq<PackageView> {
    v.map_values(|p: PackageInfo| p@)
}

/// The registry's entries.
pub fn packages() -> (r: Vec<PackageInfo>)
    ensures
        packages_view(r@) == registry(),
{
    let r = vec![
        PackageInfo {
            name: "python",
            display_name: "Python 3",
            url: "https://www.python.org/ftp/python/3.12.7/python-3.12.7-amd64.exe",
            filename: "python-3.12.7-amd64.exe",
        },
        PackageInfo {
            name: "git",
            display_name: "Git",
            url: "https://github.com/git-for-windows/git/releases/download/v2.47.1.windows.2/Git-2.47.1.2-64-bit.exe",
            filename: "Git-2.47.1.2-64-bit.exe",
        },
        PackageInfo {
            name: "nodejs",
            display_name: "Node.js LTS",
            url: "https://nodejs.org/dist/v22.12.0/node-v22.12.0-x64.msi",
            filename: "node-v22.12.0-x64.msi",
        },
        PackageInfo {
            name: "node",
            display_name: "Node.js LTS",
            url: "https://nodejs.org/dist/v22.12.0/node-v22.12.0-x64.msi",
            filename: "node-v22.12.0-x64.msi",
        },
        PackageInfo {
            name: "vscode",
            display_name: "Visual Studio Code",
            url: "https://update.code.visualstudio.com/latest/win32-x64/stable",
            filename: "VSCodeSetup-x64.exe",
        },
        PackageInfo {
            name: "ffmpeg",
            display_name: "FFmpeg",
            url: "https://www.gyan.dev/ffmpeg/builds/ffmpeg-release-essentials.zip",
            filename: "ffmpeg-release-essentials.zip",
        },
        PackageInfo {
            name: "7zip",
            display_name: "7-Zip",
            url: "https://www.7-zip.org/a/7z2409-x64.exe",
            filename: "7z2409-x64.exe",
        },
        PackageInfo {
            name: "vlc",
            display_name: "VLC Media Player",
            url: "https://get.videolan.org/vlc/3.0.21/win64/vlc-3.0.21-win64.exe",
            filename: "vlc-3.0.21-win64.exe",
        },
        PackageInfo {
            name: "rust",
            display_name: "Rust (rustup)",
            url: "https://static.rust-lang.org/rustup/dist/x86_64-pc-windows-msvc/rustup-init.exe",
            filename: "rustup-init.exe",
        },
    ];
    assert(packages_view(r@) =~= registry());
    r
}

/// What `str::to_lowercase` gives: the Unicode lower-case form of a text.
/// Unicode's case rules take pages, so the result is only named here.
pub uninterp spec fn lowercased(s: Seq<char>) -> Seq<char>;

/// Calls `str::to_lowercase`.  The contract claims that the result is
/// `lowercased` of the argument and, for ASCII text, the ASCII lower-casing
/// (Unicode lower-cases `A`..`Z` to `a`..`z` and leaves the other ASCII
/// chars alone); what non-ASCII text becomes is left to the name.
#[verifier::external_body]
fn to_lowercase(s: &str) -> (r: String)
    ensures
        r@ == lowercased(s@),
        is_ascii_chars(s@) ==> r@ == s@.map_values(|c: char| ascii_lower(c)),
{
    s.to_lowercase()
}

/// The first entry of `entries` whose name is `name`.
pub open spec fn first_named(entries: Seq<PackageView>, name: Seq<char>) -> Option<PackageView>
    decreases entries.len(),
{
    if entries.len() == 0 {
        None
    } else if entries[0].name == name {
        Some(entries[0])
    } else {
        first_named(entries.drop_first(), name)
    }
}

/// The view of an optional entry.
pub open spec fn opt_package_view(p: Option<PackageInfo>) -> Option<PackageView> {
    match p {
        Some(info) => Some(info@),
        None => None,
    }
}

/// The registry entry whose name is exactly `name`, if any.
pub fn find_package_named(name: &str) -> (r: Option<PackageInfo>)
    ensures
        opt_package_view(r) == first_named(registry(), name@),
{
    let all = packages();
    let n = all.len();
    let mut i: usize = 0;
    assert(registry().subrange(0, n as int) =~= registry());
    while i < n
        invariant
            packages_view(all@) == registry(),
            n == all@.len(),
            i <= n,
            first_named(registry(), name@) == first_named(registry().subrange(i as int, n as int), name@),
        decreases n - i,
    {
        let p = all[i];
        let ghost rest = registry().subrange(i as int, n as int);
        assert(rest[0] == p@);
        if str_eq(p.name, name) {
            return Some(p);
        }
        assert(rest.drop_first() =~= registry().subrange(i + 1, n as int));
        i = i + 1;
    }
    None
}

/// The registry entry for what the user typed, compared case-insensitively
/// (the input is lower-cased first).
pub fn find_package(query: &str) -> (r: Option<PackageInfo>)
    ensures
        opt_package_view(r) == first_named(registry(), lowercased(query@)),
        is_ascii_chars(query@) ==> opt_package_view(r) == first_named(
            registry(),
            ascii_lowercased(query@),
        ),
{
    let q = to_lowercase(query);
    find_package_named(q.as_str())
}

/// The entries of `entries` whose display name is not in `seen` and did not
/// come up earlier, in order.
pub open spec fn distinct_by_display(entries: Seq<PackageView>, seen: Seq<Seq<char>>) -> Seq<PackageView>
    decreases entries.len(),
{
    if entries.len() == 0 {
        Seq::empty()
    } else if seen.contains(entries[0].display_name) {
        distinct_by_display(entries.drop_first(), seen)
    } else {
        seq![entries[0]] + distinct_by_display(entries.drop_first(), seen.push(entries[0].display_name))
    }
}

/// The display names of a list of entries.
pub open spec fn display_names(entries: Seq<PackageView>) -> Seq<Seq<char>> {
    entries.map_values(|p: PackageView| p.display_name)
}

/// Is `name` among `seen`?
fn seen_contains(seen: &Vec<&'static str>, name: &str) -> (b: bool)
    ensures
        b == seen@.map_values(|s: &'static str| s@).contains(name@),
{
    let mut i: usize = 0;
    while i < seen.len()
        invariant
            i <= seen@.len(),
            forall|k: int| 0 <= k < i ==> seen@[k]@ != name@,
        decreases seen@.len() - i,
    {
        if str_eq(seen[i], name) {
            assert(seen@.map_values(|s: &'static str| s@)[i as int] == name@);
            return true;
        }
        i = i + 1;
    }
    let ghost names = seen@.map_values(|s: &'static str| s@);
    assert forall|k: int| 0 <= k < names.len() implies #[trigger] names[k] != name@ by {
        assert(names[k] == seen@[k]@);
    }
    false
}

/// The entries to list for the user: one per display name, the first of
/// each, in registry order (`node` and `nodejs` show once).
pub fn available_packages() -> (r: Vec<PackageInfo>)
    ensures
        packages_view(r@) == distinct_by_display(registry(), Seq::empty()),
{
    let all = packages();
    let n = all.len();
    let mut out: Vec<PackageInfo> = Vec::new();
    let mut seen: Vec<&'static str> = Vec::new();
    let mut i: usize = 0;
    assert(registry().subrange(0, n as int) =~= registry());
    assert(packages_view(out@) =~= Seq::<PackageView>::empty());
    assert(display_names(packages_view(out@)) =~= Seq::<Seq<char>>::empty());
    assert(packages_view(out@) + distinct_by_display(registry(), Seq::empty()) =~= distinct_by_display(
        registry(),
        Seq::empty(),
    ));
    assert(seen@.map_values(|s: &'static str| s@) =~= display_names(packages_view(out@)));
    while i < n
        invariant
            packages_view(all@) == registry(),
            n == all@.len(),
            i <= n,
            seen@.map_values(|s: &'static str| s@) == display_names(packages_view(out@)),
            distinct_by_display(registry(), Seq::empty()) == packages_view(out@)
                + distinct_by_display(
                registry().subrange(i as int, n as int),
                display_names(packages_view(out@)),
            ),
        decreases n - i,
    {
        let p = all[i];
        let ghost rest = registry().subrange(i as int, n as int);
        let ghost shown = display_names(packages_view(out@));
        assert(rest[0] == p@);
        assert(rest.drop_first() =~= registry().subrange(i + 1, n as int));
        let ghost before = packages_view(out@);
        let ghost seen_before = seen@;
        if !seen_contains(&seen, p.display_name) {
            out.push(p);
            seen.push(p.display_name);
            assert(packages_view(out@) =~= before.push(p@));
            assert(display_names(packages_view(out@)) =~= shown.push(p@.display_name));
            assert(seen@.map_values(|s: &'static str| s@) =~= seen_before.map_values(
                |s: &'static str| s@,
            ).push(p.display_name@));
            assert(before + (seq![p@] + distinct_by_display(rest.drop_first(), shown.push(p@.display_name)))
                =~= before.push(p@) + distinct_by_display(rest.drop_first(), shown.push(p@.display_name)));
        }
        i = i + 1;
    }
    assert(packages_view(out@) + Seq::<PackageView>::empty() =~= packages_view(out@));
    out
}

/// What the lookup answers: the entry found carries the name looked for; no
/// answer means that no entry carries it.
pub proof fn lemma_first_named(entries: Seq<PackageView>, name: Seq<char>)
    ensures
        first_named(entries, name) matches Some(p) ==> p.name == name && entries.contains(p),
        first_named(entries, name) is None ==> forall|i: int|
            0 <= i < entries.len() ==> #[trigger] entries[i].name != name,
    decreases entries.len(),
{
    if entries.len() > 0 {
        if entries[0].name == name {
            assert(entries[0] == entries[0]);
            assert(entries.contains(entries[0]));
        } else {
            lemma_first_named(entries.drop_first(), name);
            if let Some(p) = first_named(entries, name) {
                let k = choose|k: int| 0 <= k < entries.drop_first().len() && entries.drop_first()[k] == p;
                assert(entries[k + 1] == p);
            } else {
                assert forall|i: int| 0 <= i < entries.len() implies #[trigger] entries[i].name != name by {
                    if i > 0 {
                        assert(entries[i] == entries.drop_first()[i - 1]);
                    }
                }
            }
        }
    }
}

/// Looking up a package ignores case the way lower-casing does: two queries
/// with the same lower-case form find the same entry, and an entry found
/// carries the query's lower-case form as its name.
pub proof fn law_lookup_is_case_insensitive(q1: Seq<char>, q2: Seq<char>)
    requires
        lowercased(q1) == lowercased(q2),
    ensures
        first_named(registry(), lowercased(q1)) == first_named(registry(), lowercased(q2)),
        first_named(registry(), lowercased(q1)) matches Some(p) ==> p.name == lowercased(q1),
{
    lemma_first_named(registry(), lowercased(q1));
}

/// The list shown to the user names each display name once, never one in
/// `seen`, leaves out no display name of `entries` outside `seen`, and takes
/// every item from `entries`.
pub proof fn law_distinct_by_display(entries: Seq<PackageView>, seen: Seq<Seq<char>>)
    ensures
        display_names(distinct_by_display(entries, seen)).no_duplicates(),
        forall|i: int|
            0 <= i < distinct_by_display(entries, seen).len() ==> !seen.contains(
                #[trigger] distinct_by_display(entries, seen)[i].display_name,
            ) && entries.contains(distinct_by_display(entries, seen)[i]),
        forall|j: int|
            0 <= j < entries.len() && !seen.contains(#[trigger] entries[j].display_name)
                ==> display_names(distinct_by_display(entries, seen)).contains(
                entries[j].display_name,
            ),
    decreases entries.len(),
{
    if entries.len() > 0 {
        let e = entries[0];
        let tail = entries.drop_first();
        if seen.contains(e.display_name) {
            law_distinct_by_display(tail, seen);
            let r = distinct_by_display(entries, seen);
            assert(r == distinct_by_display(tail, seen));
            assert forall|i: int| 0 <= i < r.len() implies !seen.contains(#[trigger] r[i].display_name)
                && entries.contains(r[i]) by {
                assert(!seen.contains(distinct_by_display(tail, seen)[i].display_name));
                assert(tail.contains(r[i]));
                let k = choose|k: int| 0 <= k < tail.len() && tail[k] == r[i];
                assert(entries[k + 1] == r[i]);
            }
            assert forall|j: int| 0 <= j < entries.len() && !seen.contains(
                #[trigger] entries[j].display_name,
            ) implies display_names(r).contains(entries[j].display_name) by {
                assert(j != 0);
                assert(entries[j] == tail[j - 1]);
            }
        } else {
            let seen2 = seen.push(e.display_name);
            law_distinct_by_display(tail, seen2);
            let rest = distinct_by_display(tail, seen2);
            let r = distinct_by_display(entries, seen);
            assert(r == seq![e] + rest);
            let names = display_names(r);
            let rest_names = display_names(rest);
            assert(names =~= seq![e.display_name] + rest_names);
            assert forall|i: int| 0 <= i < rest.len() implies #[trigger] rest[i].display_name
                != e.display_name by {
                assert(seen2.contains(e.display_name)) by {
                    assert(seen2[seen2.len() - 1] == e.display_name);
                }
            }
            assert forall|a: int, b: int| 0 <= a < names.len() && 0 <= b < names.len() && a != b
                implies names[a] != names[b] by {
                if a > 0 && b > 0 {
                    assert(names[a] == rest_names[a - 1]);
                    assert(names[b] == rest_names[b - 1]);
                } else if a == 0 {
                    assert(names[b] == rest[b - 1].display_name);
                } else {
                    assert(names[a] == rest[a - 1].display_name);
                }
            }
            assert forall|i: int| 0 <= i < r.len() implies !seen.contains(#[trigger] r[i].display_name)
                && entries.contains(r[i]) by {
                if i == 0 {
                    assert(entries[0] == r[0]);
                } else {
                    assert(r[i] == rest[i - 1]);
                    assert(!seen2.contains(rest[i - 1].display_name));
                    if seen.contains(r[i].display_name) {
                        let k = choose|k: int| 0 <= k < seen.len() && seen[k] == r[i].display_name;
                        assert(seen2[k] == seen[k]);
                    }
                    let k = choose|k: int| 0 <= k < tail.len() && tail[k] == r[i];
                    assert(entries[k + 1] == r[i]);
                }
            }
            assert forall|j: int| 0 <= j < entries.len() && !seen.contains(
                #[trigger] entries[j].display_name,
            ) implies names.contains(entries[j].display_name) by {
                if entries[j].display_name == e.display_name {
                    assert(names[0] == e.display_name);
                } else {
                    assert(entries[j] == tail[j - 1]);
                    if seen2.contains(tail[j - 1].display_name) {
                        let k = choose|k: int| 0 <= k < seen2.len() && seen2[k] == tail[j - 1].display_name;
                        if k < seen.len() {
                            assert(seen[k] == seen2[k]);
                        }
                    }
                    let k = choose|k: int| 0 <= k < rest_names.len() && rest_names[k]
                        == entries[j].display_name;
                    assert(names[k + 1] == rest_names[k]);
                }
            }
        }
    }
}

/// The folder an installer is saved in: the download folder, else the
/// current folder, else the empty path.
pub open spec fn install_dir_spec(download_dir: Option<Seq<char>>, current_dir: Option<Seq<char>>) -> Seq<
    char,
> {
    match download_dir {
        Some(d) => d,
        None => match current_dir {
            Some(c) => c,
            None => Seq::empty(),
        },
    }
}

/// The folder an installer is saved in, given the download folder and the
/// current folder (each `None` where it could not be found).
pub fn install_dir(download_dir: Option<&str>, current_dir: Option<&str>) -> (r: String)
    ensures
        r@ == install_dir_spec(crate::paths::opt_view(download_dir), crate::paths::opt_view(current_dir)),
{
    match download_dir {
        Some(d) => String::from_str(d),
        None => match current_dir {
            Some(c) => String::from_str(c),
            None => String::new(),
        },
    }
}

/// Where the installer of `pkg` is saved, given the download folder and the
/// current folder (each `None` where it could not be found).
pub fn installer_path(pkg: &PackageInfo, download_dir: Option<&str>, current_dir: Option<&str>) -> (r:
    String)
    ensures
        r@ == joined_path(
            install_dir_spec(crate::paths::opt_view(download_dir), crate::paths::opt_view(current_dir)),
            pkg.filename@,
        ),
{
    let dir = install_dir(download_dir, current_dir);
    path_join(dir.as_str(), pkg.filename)
}

/// What to do after one read of an installer's body.
#[derive(Debug, PartialEq, Eq)]
pub enum TransferStep {
    /// Write the `len` bytes read, then show `position` bytes done.
    Write { len: usize, position: u64 },
    /// The body has ended.
    Finished,
}

/// Counts the bytes of an installer as they are written.
pub struct TransferProgress {
    received: u64,
}

impl TransferProgress {
    /// The bytes counted so far.
    pub closed spec fn received(&self) -> u64 {
        self.received
    }

    /// Nothing counted yet.
    pub fn new() -> (r: Self)
        ensures
            r.received() == 0,
    {
        TransferProgress { received: 0 }
    }

    /// The bytes counted so far.
    pub fn total(&self) -> (n: u64)
        ensures
            n == self.received(),
    {
        self.received
    }

    /// Takes one read's byte count: nothing read ends the body; otherwise the
    /// bytes are to be written and counted.
    pub fn on_read(&mut self, count: usize) -> (step: TransferStep)
        requires
            old(self).received() + count <= u64::MAX,
        ensures
            count == 0 ==> step is Finished && final(self).received() == old(self).received(),
            count > 0 ==> final(self).received() == old(self).received() + count && step == (
            TransferStep::Write { len: count, position: final(self).received() }),
    {
        if count == 0 {
            return TransferStep::Finished;
        }
        self.received = self.received + count as u64;
        TransferStep::Write { len: count, position: self.received }
    }
}

/// What lower-casing gives for ASCII text, as a fact callers can use.
pub open spec fn ascii_lowercased(s: Seq<char>) -> Seq<char> {
    s.map_values(|c: char| ascii_lower(c))
}

/// Two ASCII texts equal up to ASCII letter case have the same ASCII
/// lower-casing.
proof fn lemma_ascii_lowercased_eq(a: Seq<char>, b: Seq<char>)
    requires
        eq_ignore_ascii_case_seq(a, b),
    ensures
        ascii_lowercased(a) == ascii_lowercased(b),
{
    assert(ascii_lowercased(a) =~= ascii_lowercased(b));
}

/// The lookup ignores ASCII letter case: for two ASCII queries that differ
/// only in the case of their letters (such as `PYTHON` and `python`),
/// `find_package` finds the same entry (its contract gives, for an ASCII
/// query, the entry named by the query's ASCII lower-casing).
pub proof fn law_lookup_ignores_ascii_case(q1: Seq<char>, q2: Seq<char>)
    requires
        eq_ignore_ascii_case_seq(q1, q2),
    ensures
        first_named(registry(), ascii_lowercased(q1)) == first_named(registry(), ascii_lowercased(q2)),
{
    lemma_ascii_lowercased_eq(q1, q2);
}

/// Every registry name is ASCII and already lower-case.
proof fn lemma_registry_names_lower_case()
    ensures
        forall|k: int|
            0 <= k < registry().len() ==> is_ascii_chars(#[trigger] registry()[k].name)
                && ascii_lowercased(registry()[k].name) == registry()[k].name,
{
    reveal_strlit("python");
    reveal_strlit("git");
    reveal_strlit("nodejs");
    reveal_strlit("node");
    reveal_strlit("vscode");
    reveal_strlit("ffmpeg");
    reveal_strlit("7zip");
    reveal_strlit("vlc");
    reveal_strlit("rust");
    assert forall|k: int| 0 <= k < registry().len() implies is_ascii_chars(
        #[trigger] registry()[k].name,
    ) && ascii_lowercased(registry()[k].name) == registry()[k].name by {
        let n = registry()[k].name;
        assert(ascii_lowercased(n) =~= n);
    }
}

/// Every name in the listing shown to users is ASCII, so `find_package`
/// looks it up by its ASCII lower-casing, and that finds an entry carrying
/// the same name.
pub proof fn law_listed_names_are_found(i: int)
    requires
        0 <= i < distinct_by_display(registry(), Seq::empty()).len(),
    ensures
        is_ascii_chars(distinct_by_display(registry(), Seq::empty())[i].name),
        first_named(
            registry(),
            ascii_lowercased(distinct_by_display(registry(), Seq::empty())[i].name),
        ) matches Some(p) && p.name == distinct_by_display(registry(), Seq::empty())[i].name,
{
    let listing = distinct_by_display(registry(), Seq::empty());
    let entry = listing[i];
    law_distinct_by_display(registry(), Seq::empty());
    assert(!Seq::<Seq<char>>::empty().contains(listing[i].display_name));
    assert(registry().contains(entry));
    let k = choose|k: int| 0 <= k < registry().len() && registry()[k] == entry;
    lemma_registry_names_lower_case();
    assert(is_ascii_chars(registry()[k].name));
    assert(ascii_lowercased(entry.name) == entry.name);
    lemma_first_named(registry(), entry.name);
    assert(registry()[k].name == entry.name);
}

/// A known download folder is always where installers go, whatever the
/// current folder is; the current folder is used only without a download
/// folder, and with neither the installer lands in the working folder.
pub proof fn law_download_folder_comes_first(d: Seq<char>, current: Option<Seq<char>>, c: Seq<char>)
    ensures
        install_dir_spec(Some(d), current) == d,
        install_dir_spec(Some(d), None) == install_dir_spec(Some(d), Some(c)),
        install_dir_spec(None, Some(c)) == c,
        install_dir_spec(None, None) == Seq::<char>::empty(),
{
}

/// The registry in the order users see it: each name with its file, and
/// `node` and `nodejs` fetching the same installer.
pub proof fn law_registry_contents()
    ensures
        registry().len() == 9,
        registry()[0].name == "python"@ && registry()[0].filename == "python-3.12.7-amd64.exe"@,
        registry()[1].name == "git"@ && registry()[1].filename == "Git-2.47.1.2-64-bit.exe"@,
        registry()[2].name == "nodejs"@ && registry()[3].name == "node"@,
        registry()[2].url == registry()[3].url && registry()[2].display_name
            == registry()[3].display_name,
        registry()[4].name == "vscode"@ && registry()[4].filename == "VSCodeSetup-x64.exe"@,
        registry()[5].name == "ffmpeg"@ && registry()[5].filename == "ffmpeg-release-essentials.zip"@,
        registry()[6].name == "7zip"@ && registry()[6].filename == "7z2409-x64.exe"@,
        registry()[7].name == "vlc"@ && registry()[7].filename == "vlc-3.0.21-win64.exe"@,
        registry()[8].name == "rust"@ && registry()[8].filename == "rustup-init.exe"@,
{
}

/// A name that some entry carries finds the first such entry.
pub proof fn law_lookup_finds_first_carrier(name: Seq<char>, k: int)
    requires
        0 <= k < registry().len(),
        registry()[k].name == name,
        forall|j: int| 0 <= j < k ==> registry()[j].name != name,
    ensures
        first_named(registry(), name) == Some(registry()[k]),
{
    lemma_first_named_at(registry(), name, k);
}

proof fn lemma_first_named_at(entries: Seq<PackageView>, name: Seq<char>, k: int)
    requires
        0 <= k < entries.len(),
        entries[k].name == name,
        forall|j: int| 0 <= j < k ==> entries[j].name != name,
    ensures
        first_named(entries, name) == Some(entries[k]),
    decreases k,
{
    if k > 0 {
        let tail = entries.drop_first();
        assert forall|j: int| 0 <= j < k - 1 implies tail[j].name != name by {
            assert(tail[j] == entries[j + 1]);
        }
        lemma_first_named_at(tail, name, k - 1);
    }
}

/// A name that no registry entry carries finds nothing.
pub proof fn law_lookup_misses_unknown_names(name: Seq<char>)
    requires
        forall|j: int| 0 <= j < registry().len() ==> registry()[j].name != name,
    ensures
        first_named(registry(), name) is None,
{
    lemma_first_named(registry(), name);
    if let Some(p) = first_named(registry(), name) {
        let k = choose|k: int| 0 <= k < registry().len() && registry()[k] == p;
        assert(registry()[k].name == name);
    }
}

} // verus!
