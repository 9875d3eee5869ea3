//! What is asked of a workspace: whether it depends on a crate, by the
//! packages that `cargo metadata` lists, and whether a pattern is found in
//! its files.

use crate::text::{ends_with, has_suffix, opt_text, same_text, texts};
use crate::when::{GrepCondition, GrepView};
use vstd::prelude::*;

verus! {

/// A package as `cargo metadata` lists it: its identifier, its name, and
/// the names of the crates it depends on.
#[derive(Debug)]
pub struct Package {
    pub id: String,
    pub name: String,
    pub dependencies: Vec<String>,
}

/// The packages of a workspace and of all it depends on.
#[derive(Debug)]
pub struct Metadata {
    /// The identifiers of the packages that are members of the workspace.
    pub workspace_members: Vec<String>,
    /// All packages.
    pub packages: Vec<Package>,
}

/// The mathematical value of a [`Package`].
pub struct PackageView {
    pub id: Seq<char>,
    pub name: Seq<char>,
    pub dependencies: Seq<Seq<char>>,
}

/// The mathematical value of a [`Metadata`].
pub struct MetadataView {
    pub workspace_members: Seq<Seq<char>>,
    pub packages: Seq<PackageView>,
}

impl View for Package {
    type V = PackageView;

    open spec fn view(&self) -> PackageView {
        PackageView { id: self.id@, name: self.name@, dependencies: texts(self.dependencies@) }
    }
}

/// The values of a list of packages.
pub open spec fn packages_view(v: Seq<Package>) -> Seq<PackageView> {
    Seq::new(v.len(), |i: int| v[i]@)
}

impl View for Metadata {
    type V = MetadataView;

    open spec fn view(&self) -> MetadataView {
        MetadataView {
            workspace_members: texts(self.workspace_members@),
            packages: packages_view(self.packages@),
        }
    }
}

/// The value of optional metadata.
pub open spec fn opt_metadata_view(m: Option<Metadata>) -> Option<MetadataView> {
    match m {
        Some(m) => Some(m@),
        None => None,
    }
}

/// The ending of the name of a battery pack: a crate that stands for the
/// crates it depends on.
pub open spec fn battery_pack_suffix() -> Seq<char> {
    "-battery-pack"@
}

/// How many of the first `n` packages have not been visited.
pub open spec fn unvisited_upto(visited: Seq<bool>, n: int) -> nat
    decreases n,
{
    if n <= 0 || n > visited.len() {
        0
    } else if visited[n - 1] {
        unvisited_upto(visited, n - 1)
    } else {
        unvisited_upto(visited, n - 1) + 1
    }
}

/// How many packages have not been visited.
pub open spec fn unvisited(visited: Seq<bool>) -> nat {
    unvisited_upto(visited, visited.len() as int)
}

/// The packages visited once those with the identifier `id` are.
pub open spec fn visit(packages: Seq<PackageView>, visited: Seq<bool>, id: Seq<char>) -> Seq<bool> {
    Seq::new(
        visited.len(),
        |i: int| visited[i] || (0 <= i < packages.len() && packages[i].id == id),
    )
}

/// The place of the first package at or after `start` that is named
/// `name`, or the number of packages.
pub open spec fn package_named(packages: Seq<PackageView>, name: Seq<char>, start: int) -> int
    decreases packages.len() - start,
{
    if start < 0 || start >= packages.len() {
        packages.len() as int
    } else if packages[start].name == name {
        start
    } else {
        package_named(packages, name, start + 1)
    }
}

/// The place of the first package at or after `start` whose identifier is
/// `id`, or the number of packages.
pub open spec fn package_with_id(packages: Seq<PackageView>, id: Seq<char>, start: int) -> int
    decreases packages.len() - start,
{
    if start < 0 || start >= packages.len() {
        packages.len() as int
    } else if packages[start].id == id {
        start
    } else {
        package_with_id(packages, id, start + 1)
    }
}

/// What a search of dependencies gives: whether the crate was found, and
/// the packages visited by then.
pub struct Search {
    pub found: bool,
    pub visited: Seq<bool>,
}

/// Whether `crate_name` is among the dependencies `deps` from `from` on.
/// A dependency that is a battery pack is looked into: the first package
/// of its name is searched in turn, unless a package with that package's
/// identifier was visited before. Each package is visited once, so the
/// search ends.
pub open spec fn depends(
    packages: Seq<PackageView>,
    deps: Seq<Seq<char>>,
    from: int,
    crate_name: Seq<char>,
    visited: Seq<bool>,
) -> Search
    decreases unvisited(visited), deps.len() - from,
{
    if from < 0 || from >= deps.len() || visited.len() != packages.len() {
        Search { found: false, visited }
    } else if deps[from] == crate_name {
        Search { found: true, visited }
    } else if !has_suffix(deps[from], battery_pack_suffix()) {
        depends(packages, deps, from + 1, crate_name, visited)
    } else {
        let at = package_named(packages, deps[from], 0);
        if 0 <= at < packages.len() && !visited[at] {
            let entered = visit(packages, visited, packages[at].id);
            if unvisited(entered) < unvisited(visited) {
                let inner = depends(packages, packages[at].dependencies, 0, crate_name, entered);
                if inner.found {
                    inner
                } else if unvisited(inner.visited) <= unvisited(entered) {
                    depends(packages, deps, from + 1, crate_name, inner.visited)
                } else {
                    inner
                }
            } else {
                Search { found: false, visited }
            }
        } else {
            depends(packages, deps, from + 1, crate_name, visited)
        }
    }
}

/// Whether one of the workspace's members from `from` on depends on
/// `crate_name`. A member that is not among the packages is passed over.
pub open spec fn members_depend(
    metadata: MetadataView,
    from: int,
    crate_name: Seq<char>,
    visited: Seq<bool>,
) -> bool
    decreases metadata.workspace_members.len() - from,
{
    if from < 0 || from >= metadata.workspace_members.len() {
        false
    } else {
        let at = package_with_id(metadata.packages, metadata.workspace_members[from], 0);
        if 0 <= at < metadata.packages.len() {
            let search = depends(
                metadata.packages,
                metadata.packages[at].dependencies,
                0,
                crate_name,
                visited,
            );
            search.found || members_depend(metadata, from + 1, crate_name, search.visited)
        } else {
            members_depend(metadata, from + 1, crate_name, visited)
        }
    }
}

/// No package visited, of `n`.
pub open spec fn none_visited(n: nat) -> Seq<bool> {
    Seq::new(n, |i: int| false)
}

/// Whether a workspace uses a crate: the metadata could be had, and a
/// member of the workspace depends on the crate, directly or through
/// battery packs.
pub open spec fn uses_crate(metadata: Option<MetadataView>, crate_name: Seq<char>) -> bool {
    match metadata {
        Some(m) => members_depend(m, 0, crate_name, none_visited(m.packages.len())),
        None => false,
    }
}

/// Visiting more packages leaves no more unvisited; visiting one that was
/// not visited leaves fewer.
pub proof fn visiting_leaves_fewer(before: Seq<bool>, after: Seq<bool>, n: int)
    requires
        before.len() == after.len(),
        0 <= n <= before.len(),
        forall|i: int| 0 <= i < before.len() && before[i] ==> after[i],
    ensures
        unvisited_upto(after, n) <= unvisited_upto(before, n),
        forall|j: int|
            0 <= j < n && !before[j] && after[j] ==> unvisited_upto(after, n) < unvisited_upto(
                before,
                n,
            ),
    decreases n,
{
    if n > 0 {
        visiting_leaves_fewer(before, after, n - 1);
    }
}

/// Entering a package that was not visited leaves fewer packages
/// unvisited.
pub proof fn entering_leaves_fewer(packages: Seq<PackageView>, visited: Seq<bool>, at: int)
    requires
        visited.len() == packages.len(),
        0 <= at < packages.len(),
        !visited[at],
    ensures
        unvisited(visit(packages, visited, packages[at].id)) < unvisited(visited),
        visit(packages, visited, packages[at].id).len() == visited.len(),
{
    let entered = visit(packages, visited, packages[at].id);
    visiting_leaves_fewer(visited, entered, visited.len() as int);
    assert(!visited[at] && entered[at]);
}

/// A search never forgets a visit: it leaves as many packages as before,
/// and no more of them unvisited. So the search goes on by its rule for as
/// long as there is a dependency left to look at.
pub proof fn search_keeps_visits(
    packages: Seq<PackageView>,
    deps: Seq<Seq<char>>,
    from: int,
    crate_name: Seq<char>,
    visited: Seq<bool>,
)
    requires
        visited.len() == packages.len(),
    ensures
        depends(packages, deps, from, crate_name, visited).visited.len() == visited.len(),
        unvisited(depends(packages, deps, from, crate_name, visited).visited) <= unvisited(visited),
    decreases unvisited(visited), deps.len() - from,
{
    if from < 0 || from >= deps.len() {
    } else if deps[from] == crate_name {
    } else if !has_suffix(deps[from], battery_pack_suffix()) {
        search_keeps_visits(packages, deps, from + 1, crate_name, visited);
    } else {
        let at = package_named(packages, deps[from], 0);
        package_search_finds(packages, deps[from], 0);
        if 0 <= at < packages.len() && !visited[at] {
            let entered = visit(packages, visited, packages[at].id);
            entering_leaves_fewer(packages, visited, at);
            search_keeps_visits(packages, packages[at].dependencies, 0, crate_name, entered);
            let inner = depends(packages, packages[at].dependencies, 0, crate_name, entered);
            if !inner.found {
                search_keeps_visits(packages, deps, from + 1, crate_name, inner.visited);
            }
        } else {
            search_keeps_visits(packages, deps, from + 1, crate_name, visited);
        }
    }
}

/// A package found by name, or by identifier, lies among the packages and
/// has that name, or identifier.
pub proof fn package_search_finds(packages: Seq<PackageView>, key: Seq<char>, start: int)
    requires
        0 <= start <= packages.len(),
    ensures
        start <= package_named(packages, key, start) <= packages.len(),
        start <= package_with_id(packages, key, start) <= packages.len(),
    decreases packages.len() - start,
{
    if start < packages.len() {
        package_search_finds(packages, key, start + 1);
    }
}

/// The place of the first package that is named `name`.
fn find_package_by_name(packages: &Vec<Package>, name: &str) -> (r: Option<usize>)
    ensures
        match r {
            Some(i) => i == package_named(packages_view(packages@), name@, 0) && i
                < packages@.len(),
            None => package_named(packages_view(packages@), name@, 0) == packages@.len(),
        },
{
    let ghost views = packages_view(packages@);
    let mut i: usize = 0;
    while i < packages.len()
        invariant
            i <= packages.len(),
            views == packages_view(packages@),
            package_named(views, name@, 0) == package_named(views, name@, i as int),
        decreases packages.len() - i,
    {
        if same_text(packages[i].name.as_str(), name) {
            return Some(i);
        }
        i += 1;
    }
    None
}

/// The place of the first package whose identifier is `id`.
fn find_package_by_id(packages: &Vec<Package>, id: &str) -> (r: Option<usize>)
    ensures
        match r {
            Some(i) => i == package_with_id(packages_view(packages@), id@, 0) && i
                < packages@.len(),
            None => package_with_id(packages_view(packages@), id@, 0) == packages@.len(),
        },
{
    let ghost views = packages_view(packages@);
    let mut i: usize = 0;
    while i < packages.len()
        invariant
            i <= packages.len(),
            views == packages_view(packages@),
            package_with_id(views, id@, 0) == package_with_id(views, id@, i as int),
        decreases packages.len() - i,
    {
        if same_text(packages[i].id.as_str(), id) {
            return Some(i);
        }
        i += 1;
    }
    None
}

/// Marks the packages with the identifier `id` as visited.
fn mark_visited(packages: &Vec<Package>, visited: &mut Vec<bool>, id: &str)
    requires
        old(visited)@.len() == packages@.len(),
    ensures
        final(visited)@ == visit(packages_view(packages@), old(visited)@, id@),
{
    let ghost before = visited@;
    let ghost views = packages_view(packages@);
    let mut i: usize = 0;
    while i < packages.len()
        invariant
            i <= packages.len(),
            visited@.len() == packages@.len(),
            before.len() == packages@.len(),
            views == packages_view(packages@),
            forall|k: int|
                0 <= k < i ==> (#[trigger] visited@[k]) == (before[k] || views[k].id == id@),
            forall|k: int| i <= k < visited@.len() ==> (#[trigger] visited@[k]) == before[k],
        decreases packages.len() - i,
    {
        proof {
            assert(views[i as int].id == packages@[i as int].id@);
        }
        if same_text(packages[i].id.as_str(), id) {
            visited.set(i, true);
        }
        i += 1;
    }
    proof {
        assert(visited@ =~= visit(views, before, id@));
    }
}

/// Whether the package at `package` depends on `crate_name`, directly or
/// through battery packs that were not visited before.
fn has_dependency_recursive(
    metadata: &Metadata,
    package: usize,
    crate_name: &str,
    visited: &mut Vec<bool>,
) -> (r: bool)
    requires
        package < metadata.packages@.len(),
        old(visited)@.len() == metadata.packages@.len(),
    ensures
        (Search { found: r, visited: final(visited)@ }) == depends(
            metadata@.packages,
            metadata@.packages[package as int].dependencies,
            0,
            crate_name@,
            old(visited)@,
        ),
        final(visited)@.len() == old(visited)@.len(),
        unvisited(final(visited)@) <= unvisited(old(visited)@),
    decreases unvisited(old(visited)@),
{
    let ghost packages = metadata@.packages;
    let ghost deps = packages[package as int].dependencies;
    let ghost start = visited@;
    let dependencies = &metadata.packages[package].dependencies;
    proof {
        assert(deps == texts(dependencies@));
    }
    let mut i: usize = 0;
    while i < dependencies.len()
        invariant
            i <= dependencies.len(),
            package < metadata.packages@.len(),
            packages == metadata@.packages,
            deps == texts(dependencies@),
            deps == packages[package as int].dependencies,
            start == old(visited)@,
            visited@.len() == packages.len(),
            unvisited(visited@) <= unvisited(start),
            depends(packages, deps, 0, crate_name@, start) == depends(
                packages,
                deps,
                i as int,
                crate_name@,
                visited@,
            ),
        decreases dependencies.len() - i,
    {
        let dep = dependencies[i].as_str();
        proof {
            assert(deps[i as int] == dependencies@[i as int]@);
        }
        if same_text(dep, crate_name) {
            return true;
        }
        if ends_with(dep, "-battery-pack") {
            match find_package_by_name(&metadata.packages, dep) {
                Some(at) => {
                    if !visited[at] {
                        let ghost before = visited@;
                        mark_visited(&metadata.packages, visited, metadata.packages[at].id.as_str());
                        proof {
                            visiting_leaves_fewer(before, visited@, before.len() as int);
                            assert(!before[at as int] && visited@[at as int]);
                            assert(packages[at as int].dependencies == texts(
                                metadata.packages@[at as int].dependencies@,
                            ));
                        }
                        if has_dependency_recursive(metadata, at, crate_name, visited) {
                            return true;
                        }
                    }
                },
                None => {},
            }
        }
        i += 1;
    }
    false
}

/// Whether the workspace uses `crate_name`: a member of the workspace
/// depends on it, directly or through battery packs. Where the metadata
/// could not be had, no crate counts as used.
pub fn is_using_crate(metadata: &Option<Metadata>, crate_name: &str) -> (r: bool)
    ensures
        r == uses_crate(opt_metadata_view(*metadata), crate_name@),
{
    let m = match metadata {
        Some(m) => m,
        None => {
            return false;
        },
    };
    let mut visited: Vec<bool> = Vec::new();
    let mut k: usize = 0;
    while k < m.packages.len()
        invariant
            k <= m.packages.len(),
            visited@.len() == k,
            forall|j: int| 0 <= j < k ==> !visited@[j],
        decreases m.packages.len() - k,
    {
        visited.push(false);
        k += 1;
    }
    proof {
        assert(visited@ =~= none_visited(m@.packages.len()));
    }
    let ghost start = visited@;
    let mut i: usize = 0;
    while i < m.workspace_members.len()
        invariant
            i <= m.workspace_members.len(),
            visited@.len() == m.packages@.len(),
            opt_metadata_view(*metadata) == Some(m@),
            start == none_visited(m@.packages.len()),
            members_depend(m@, 0, crate_name@, start) == members_depend(
                m@,
                i as int,
                crate_name@,
                visited@,
            ),
        decreases m.workspace_members.len() - i,
    {
        proof {
            assert(m@.workspace_members[i as int] == m.workspace_members@[i as int]@);
        }
        match find_package_by_id(&m.packages, m.workspace_members[i].as_str()) {
            Some(at) => {
                let ghost before = visited@;
                let found = has_dependency_recursive(m, at, crate_name, &mut visited);
                proof {
                    let search = depends(
                        m@.packages,
                        m@.packages[at as int].dependencies,
                        0,
                        crate_name@,
                        before,
                    );
                    assert(search.found == found && search.visited == visited@);
                    assert(members_depend(m@, i as int, crate_name@, before) == (found
                        || members_depend(m@, i + 1, crate_name@, visited@)));
                }
                if found {
                    return true;
                }
            },
            None => {},
        }
        i += 1;
    }
    false
}

/// A file of the workspace: its path below the root, and what it holds
/// where that could be read as text.
#[derive(Debug)]
pub struct SourceFile {
    pub path: String,
    pub contents: Option<String>,
}

/// The mathematical value of a [`SourceFile`].
pub struct FileView {
    pub path: Seq<char>,
    pub contents: Option<Seq<char>>,
}

impl View for SourceFile {
    type V = FileView;

    open spec fn view(&self) -> FileView {
        FileView { path: self.path@, contents: opt_text(self.contents) }
    }
}

/// The values of a list of files.
pub open spec fn files_view(v: Seq<SourceFile>) -> Seq<FileView> {
    Seq::new(v.len(), |i: int| v[i]@)
}

/// Whether the regular expression `pattern` matches somewhere in
/// `haystack`, as the `regex` crate tells it; nothing where `pattern` is no
/// regular expression.
pub uninterp spec fn regex_found(pattern: Seq<char>, haystack: Seq<char>) -> Option<bool>;

/// Whether the glob `pattern` matches `path`, as the `glob` crate tells it;
/// nothing where `pattern` is no glob.
pub uninterp spec fn glob_matches(pattern: Seq<char>, path: Seq<char>) -> Option<bool>;

/// `regex::Regex::new` and, on what it made, `Regex::is_match`: whether
/// the pattern matches anywhere in the haystack, or nothing where the
/// pattern does not compile. The outcome depends on the two texts alone;
/// the library gives it the name [`regex_found`].
#[verifier::external_body]
pub(crate) fn regex_is_match(pattern: &str, haystack: &str) -> (r: Option<bool>)
    ensures
        r == regex_found(pattern@, haystack@),
{
    regex::Regex::new(pattern).ok().map(|re| re.is_match(haystack))
}

/// `glob::Pattern::new` and, on what it made, `Pattern::matches_path`:
/// whether the glob matches the path, or nothing where the glob does not
/// compile. The outcome depends on the two texts alone; the library gives
/// it the name [`glob_matches`].
#[verifier::external_body]
fn glob_matches_path(pattern: &str, path: &str) -> (r: Option<bool>)
    ensures
        r == glob_matches(pattern@, path@),
{
    glob::Pattern::new(pattern).ok().map(|g| g.matches_path(std::path::Path::new(path)))
}

/// The glob of a pattern: its own, or every file where it has none.
pub open spec fn glob_of(g: GrepView) -> Seq<char> {
    match g.path {
        Some(p) => p,
        None => "**/*"@,
    }
}

/// Whether the pattern is found in one file: the glob matches the file's
/// path, the file could be read, and the pattern matches what it holds.
pub open spec fn found_in(g: GrepView, file: FileView) -> bool {
    &&& glob_matches(glob_of(g), file.path) == Some(true)
    &&& file.contents matches Some(text)
    &&& regex_found(g.pattern, text) == Some(true)
}

/// Whether the pattern is found in one of the first `n` files.
pub open spec fn found_among(g: GrepView, files: Seq<FileView>, n: int) -> bool
    decreases n,
{
    if n <= 0 || n > files.len() {
        false
    } else {
        found_among(g, files, n - 1) || found_in(g, files[n - 1])
    }
}

/// Whether the pattern is found in the files.
pub open spec fn grep_found(g: GrepView, files: Seq<FileView>) -> bool {
    found_among(g, files, files.len() as int)
}

/// A pattern found among the first `n` files is found among more.
pub proof fn found_among_stays(g: GrepView, files: Seq<FileView>, n: int, m: int)
    requires
        0 <= n <= m <= files.len(),
        found_among(g, files, n),
    ensures
        found_among(g, files, m),
    decreases m - n,
{
    if n < m {
        found_among_stays(g, files, n, m - 1);
    }
}

/// Whether the pattern is found in one file, given whether the glob matches
/// its path and whether the pattern matches what it holds.
pub fn file_matches(glob: Option<bool>, readable: bool, regex: Option<bool>) -> (r: bool)
    ensures
        r == (glob == Some(true) && readable && regex == Some(true)),
{
    match (glob, regex) {
        (Some(true), Some(true)) => readable,
        _ => false,
    }
}

/// Whether the pattern of `grep` is found in `files`.
pub fn grep_files(grep: &GrepCondition, files: &Vec<SourceFile>) -> (r: bool)
    ensures
        r == grep_found(grep@, files_view(files@)),
{
    let ghost views = files_view(files@);
    let mut i: usize = 0;
    while i < files.len()
        invariant
            i <= files.len(),
            views == files_view(files@),
            !found_among(grep@, views, i as int),
        decreases files.len() - i,
    {
        let file = &files[i];
        let glob = match &grep.path {
            Some(p) => glob_matches_path(p.as_str(), file.path.as_str()),
            None => glob_matches_path("**/*", file.path.as_str()),
        };
        let found = match &file.contents {
            Some(text) => file_matches(
                glob,
                true,
                regex_is_match(grep.pattern.as_str(), text.as_str()),
            ),
            None => false,
        };
        proof {
            assert(views[i as int] == files@[i as int]@);
            assert(found == found_in(grep@, views[i as int]));
        }
        if found {
            proof {
                found_among_stays(grep@, views, i + 1, views.len() as int);
            }
            return true;
        }
        i += 1;
    }
    false
}

} // verus!
