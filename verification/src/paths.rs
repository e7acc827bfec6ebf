//! Paths the launcher works with, and where its files are looked for.
//!
//! A path is a root given by the host (a directory it resolved) followed by
//! components appended with `join`; the host turns it into a native path by
//! pushing each component onto the root. All components used here are
//! relative, so joining only ever appends.

use vstd::prelude::*;

verus! {

/// Mathematical model of a [`LaunchPath`].
pub struct PathModel {
    pub root: Seq<char>,
    pub parts: Seq<Seq<char>>,
}

impl PathModel {
    /// The path with one more component.
    pub open spec fn join(self, part: Seq<char>) -> PathModel {
        PathModel { root: self.root, parts: self.parts.push(part) }
    }

    /// The path with two more components.
    pub open spec fn join2(self, a: Seq<char>, b: Seq<char>) -> PathModel {
        self.join(a).join(b)
    }

    /// The path with three more components.
    pub open spec fn join3(self, a: Seq<char>, b: Seq<char>, c: Seq<char>) -> PathModel {
        self.join(a).join(b).join(c)
    }
}

/// A root directory followed by relative components.
pub struct LaunchPath {
    pub root: String,
    pub parts: Vec<String>,
}

impl View for LaunchPath {
    type V = PathModel;

    open spec fn view(&self) -> PathModel {
        PathModel { root: self.root@, parts: self.parts@.map_values(|p: String| p@) }
    }
}

/// The models of a sequence of paths.
pub open spec fn path_models(paths: Seq<LaunchPath>) -> Seq<PathModel> {
    paths.map_values(|p: LaunchPath| p@)
}

impl LaunchPath {
    /// The path made of `root` alone.
    pub fn new(root: String) -> (p: LaunchPath)
        ensures
            p@ == (PathModel { root: root@, parts: Seq::empty() }),
    {
        let p = LaunchPath { root, parts: Vec::new() };
        assert(p@.parts == Seq::<Seq<char>>::empty());
        p
    }

    /// A copy of this path.
    pub fn duplicate(&self) -> (p: LaunchPath)
        ensures
            p@ == self@,
    {
        let mut parts: Vec<String> = Vec::new();
        let n = self.parts.len();
        for i in 0..n
            invariant
                n == self.parts@.len(),
                parts@ == self.parts@.subrange(0, i as int),
        {
            parts.push(self.parts[i].clone());
            assert(parts@ == self.parts@.subrange(0, i + 1));
        }
        assert(parts@ == self.parts@);
        LaunchPath { root: self.root.clone(), parts }
    }

    /// This path with `part` appended as one more component.
    pub fn join(&self, part: &str) -> (p: LaunchPath)
        ensures
            p@ == self@.join(part@),
    {
        let mut p = self.duplicate();
        let ghost before = p.parts@;
        p.parts.push(String::from_str(part));
        assert(p.parts@.map_values(|q: String| q@) == before.map_values(|q: String| q@).push(
            part@,
        ));
        p
    }
}

/// The operating system family, which decides executable names.
#[derive(Clone, Copy, PartialEq, Eq, Structural, Debug)]
pub enum Platform {
    Windows,
    Unix,
}

/// The executables of the bundled PostgreSQL distribution.
#[derive(Clone, Copy, PartialEq, Eq, Structural, Debug)]
pub enum PgTool {
    Initdb,
    Postgres,
    Psql,
}

/// The base name of a PostgreSQL tool.
pub open spec fn tool_name(tool: PgTool) -> Seq<char> {
    match tool {
        PgTool::Initdb => "initdb"@,
        PgTool::Postgres => "postgres"@,
        PgTool::Psql => "psql"@,
    }
}

/// The file name of an executable called `name`: `name.exe` on Windows.
pub open spec fn executable_file(name: Seq<char>, platform: Platform) -> Seq<char> {
    match platform {
        Platform::Windows => name + ".exe"@,
        Platform::Unix => name,
    }
}

/// The base name of a PostgreSQL tool (`initdb`, `postgres`, `psql`).
pub fn pg_tool_name(tool: PgTool) -> (name: String)
    ensures
        name@ == tool_name(tool),
{
    match tool {
        PgTool::Initdb => String::from_str("initdb"),
        PgTool::Postgres => String::from_str("postgres"),
        PgTool::Psql => String::from_str("psql"),
    }
}

/// The file name of a PostgreSQL tool on `platform`.
pub fn pg_tool_file(tool: PgTool, platform: Platform) -> (file: String)
    ensures
        file@ == executable_file(tool_name(tool), platform),
{
    let name = pg_tool_name(tool);
    match platform {
        Platform::Windows => name.concat(".exe"),
        Platform::Unix => name,
    }
}

/// `base/pgsql`: the bundled PostgreSQL distribution.
pub open spec fn pg_resource_dir(base: PathModel) -> PathModel {
    base.join("pgsql"@)
}

/// `resource/bin/<tool file>`.
pub open spec fn pg_binary(resource: PathModel, tool: PgTool, platform: Platform) -> PathModel {
    resource.join2("bin"@, executable_file(tool_name(tool), platform))
}

/// `base/pgsql/bin`: the directory whose presence marks a base directory.
pub open spec fn pg_bin_dir(base: PathModel) -> PathModel {
    base.join2("pgsql"@, "bin"@)
}

/// The bundled PostgreSQL distribution under `base`.
pub fn resource_dir_of(base: &LaunchPath) -> (p: LaunchPath)
    ensures
        p@ == pg_resource_dir(base@),
{
    base.join("pgsql")
}

/// The executable of `tool` in the distribution at `resource`.
pub fn binary_path(resource: &LaunchPath, tool: PgTool, platform: Platform) -> (p: LaunchPath)
    ensures
        p@ == pg_binary(resource@, tool, platform),
{
    let file = pg_tool_file(tool, platform);
    resource.join("bin").join(file.as_str())
}

/// `base/bin`: the directory of the sidecar binaries.
pub open spec fn sidecar_bin_dir(base: PathModel) -> PathModel {
    base.join("bin"@)
}

/// The directory of the sidecar binaries under `candidate`, the second of
/// the two directories a base directory must contain.
pub fn sidecar_bin_probe(candidate: &LaunchPath) -> (p: LaunchPath)
    ensures
        p@ == sidecar_bin_dir(candidate@),
{
    candidate.join("bin")
}

/// The PostgreSQL binaries' directory under `candidate`, the first of the
/// two directories a base directory must contain.
pub fn base_dir_probe(candidate: &LaunchPath) -> (p: LaunchPath)
    ensures
        p@ == pg_bin_dir(candidate@),
{
    candidate.join("pgsql").join("bin")
}

/// The index of the first flag that is set among the first `n`, a flag
/// missing from `flags` counting as unset.
pub open spec fn first_set(flags: Seq<bool>, n: int) -> Option<int> {
    if exists|i: int| 0 <= i < n && i < flags.len() && flags[i] {
        Some(choose|i: int| 0 <= i < n && i < flags.len() && flags[i] && (forall|j: int| 0 <= j < i ==> !flags[j]))
    } else {
        None
    }
}

/// The index of the first set flag among the first `n`.
pub fn first_set_index(flags: &[bool], n: usize) -> (r: Option<usize>)
    ensures
        r matches Some(i) ==> first_set(flags@, n as int) == Some(i as int),
        r is None ==> first_set(flags@, n as int) is None,
        r matches Some(i) ==> i < n && i < flags@.len() && flags@[i as int] && forall|j: int|
            0 <= j < i ==> !flags@[j],
        r is None ==> forall|j: int| 0 <= j < n && j < flags@.len() ==> !flags@[j],
{
    let len = flags.len();
    let limit = if n < len { n } else { len };
    for i in 0..limit
        invariant
            len == flags@.len(),
            limit <= n,
            limit <= len,
            limit == n || limit == len,
            forall|j: int| 0 <= j < i ==> !flags@[j],
    {
        if flags[i] {
            let ghost w = i as int;
            assert(0 <= w < n && w < flags@.len() && flags@[w] && (forall|j: int|
                0 <= j < w ==> !flags@[j]));
            proof {
                let c = choose|k: int|
                    0 <= k < n && k < flags@.len() && flags@[k] && (forall|j: int|
                        0 <= j < k ==> !flags@[j]);
                assert(c == w) by {
                    if c < w {
                        assert(!flags@[c]);
                    } else if w < c {
                        assert(!flags@[w]);
                    }
                }
            }
            return Some(i);
        }
    }
    None
}


/// Where a base-directory candidate comes from, in the order they are tried.
#[derive(Clone, Copy, PartialEq, Eq, Structural, Debug)]
pub enum BaseDirOrigin {
    /// The crate directory recorded at build time (development runs).
    ManifestDir,
    /// A directory relative to the working directory; the host resolves it
    /// to a canonical path when it is chosen.
    WorkingDir,
    /// The application's resource directory (release builds).
    ResourceDir,
}

/// A directory that may hold `pgsql/bin`.
pub struct BaseDirCandidate {
    pub path: LaunchPath,
    pub origin: BaseDirOrigin,
}

/// The model of a candidate: its path and origin.
pub open spec fn candidate_model(c: BaseDirCandidate) -> (PathModel, BaseDirOrigin) {
    (c.path@, c.origin)
}

/// The models of a sequence of candidates.
pub open spec fn candidate_models(cs: Seq<BaseDirCandidate>) -> Seq<(PathModel, BaseDirOrigin)> {
    cs.map_values(|c: BaseDirCandidate| candidate_model(c))
}

/// The base-directory candidates in the order they are tried: the build-time
/// crate directory, then `cwd/src-tauri`, `cwd` and `cwd/../TAURI/src-tauri`,
/// then the resource directory.
pub open spec fn base_dir_candidate_list(
    manifest: Option<PathModel>,
    cwd: PathModel,
    resource: Option<PathModel>,
) -> Seq<(PathModel, BaseDirOrigin)> {
    let head = match manifest {
        Some(m) => seq![(m, BaseDirOrigin::ManifestDir)],
        None => Seq::empty(),
    };
    let middle = seq![
        (cwd.join("src-tauri"@), BaseDirOrigin::WorkingDir),
        (cwd, BaseDirOrigin::WorkingDir),
        (cwd.join3(".."@, "TAURI"@, "src-tauri"@), BaseDirOrigin::WorkingDir),
    ];
    let tail = match resource {
        Some(r) => seq![(r, BaseDirOrigin::ResourceDir)],
        None => Seq::empty(),
    };
    head + middle + tail
}

/// The candidates are the given directories themselves and three places
/// around the working directory, nothing else: the build-time crate
/// directory as given (first, when given), then `cwd/src-tauri`, `cwd` and
/// `cwd/../TAURI/src-tauri`, then the resource directory as given (last,
/// when given).
pub proof fn lemma_base_dir_candidates_are_the_given_directories(
    manifest: Option<PathModel>,
    cwd: PathModel,
    resource: Option<PathModel>,
)
    ensures
        ({
            let cs = base_dir_candidate_list(manifest, cwd, resource);
            let h: int = if manifest is Some {
                1
            } else {
                0
            };
            &&& cs.len() == h + 3 + if resource is Some {
                1int
            } else {
                0int
            }
            &&& manifest matches Some(m) ==> cs[0] == (m, BaseDirOrigin::ManifestDir)
            &&& cs[h] == (PathModel { root: cwd.root, parts: cwd.parts + seq!["src-tauri"@] },
            BaseDirOrigin::WorkingDir)
            &&& cs[h + 1] == (cwd, BaseDirOrigin::WorkingDir)
            &&& cs[h + 2] == (PathModel {
                root: cwd.root,
                parts: cwd.parts + seq![".."@, "TAURI"@, "src-tauri"@],
            }, BaseDirOrigin::WorkingDir)
            &&& resource matches Some(r) ==> cs.last() == (r, BaseDirOrigin::ResourceDir)
        }),
{
    let cs = base_dir_candidate_list(manifest, cwd, resource);
    let h: int = if manifest is Some {
        1
    } else {
        0
    };
    assert(cs[h].0.parts == cwd.parts + seq!["src-tauri"@]);
    assert(cs[h + 2].0.parts == cwd.parts + seq![".."@, "TAURI"@, "src-tauri"@]);
}

fn push_candidate(v: &mut Vec<BaseDirCandidate>, path: LaunchPath, origin: BaseDirOrigin)
    ensures
        candidate_models(final(v)@) == candidate_models(old(v)@).push((path@, origin)),
{
    let ghost before = v@;
    v.push(BaseDirCandidate { path, origin });
    assert(candidate_models(v@) == candidate_models(before).push((path@, origin)));
}

/// The base-directory candidates, in the order they are tried.
pub fn base_dir_candidates(
    manifest_dir: Option<&LaunchPath>,
    cwd: &LaunchPath,
    resource_dir: Option<&LaunchPath>,
) -> (v: Vec<BaseDirCandidate>)
    ensures
        candidate_models(v@) == base_dir_candidate_list(
            match manifest_dir {
                Some(m) => Some(m@),
                None => None,
            },
            cwd@,
            match resource_dir {
                Some(r) => Some(r@),
                None => None,
            },
        ),
        v@.len() >= 3,
        manifest_dir matches Some(m) ==> v@[0].path@ == m@ && v@[0].origin
            == BaseDirOrigin::ManifestDir,
        resource_dir matches Some(r) ==> v@.last().path@ == r@ && v@.last().origin
            == BaseDirOrigin::ResourceDir,
{
    proof {
        lemma_base_dir_candidates_are_the_given_directories(
            match manifest_dir {
                Some(m) => Some(m@),
                None => None,
            },
            cwd@,
            match resource_dir {
                Some(r) => Some(r@),
                None => None,
            },
        );
    }
    let mut v: Vec<BaseDirCandidate> = Vec::new();
    assert(candidate_models(v@) == Seq::<(PathModel, BaseDirOrigin)>::empty());
    match manifest_dir {
        Some(m) => push_candidate(&mut v, m.duplicate(), BaseDirOrigin::ManifestDir),
        None => {},
    }
    push_candidate(&mut v, cwd.join("src-tauri"), BaseDirOrigin::WorkingDir);
    push_candidate(&mut v, cwd.duplicate(), BaseDirOrigin::WorkingDir);
    push_candidate(&mut v, cwd.join("..").join("TAURI").join("src-tauri"), BaseDirOrigin::WorkingDir);
    match resource_dir {
        Some(r) => push_candidate(&mut v, r.duplicate(), BaseDirOrigin::ResourceDir),
        None => {},
    }
    v
}

/// The flags of the candidates that have both directories: entry `i` is set
/// when both `a[i]` and `b[i]` are; a flag missing from either counts as
/// unset.
pub open spec fn both_set(a: Seq<bool>, b: Seq<bool>) -> Seq<bool> {
    let n = if a.len() <= b.len() {
        a.len()
    } else {
        b.len()
    };
    Seq::new(n, |i: int| a[i] && b[i])
}

/// Picks the base directory, which contains both `pgsql/bin` and the
/// sidecars' `bin/`: the first candidate for which both hold, where
/// `pg_bin_exists[i]` tells whether `candidates[i]`'s PostgreSQL probe
/// ([`base_dir_probe`]) exists and `sidecar_bin_exists[i]` whether its
/// sidecar probe ([`sidecar_bin_probe`]) exists. `None` when no candidate
/// has both.
pub fn resolve_base_dir(
    candidates: &Vec<BaseDirCandidate>,
    pg_bin_exists: &[bool],
    sidecar_bin_exists: &[bool],
) -> (r: Option<BaseDirCandidate>)
    ensures
        match first_set(both_set(pg_bin_exists@, sidecar_bin_exists@), candidates@.len() as int) {
            Some(i) => r matches Some(c) && candidate_model(c) == candidate_model(candidates@[i])
                && pg_bin_exists@[i] && sidecar_bin_exists@[i],
            None => r is None,
        },
{
    let n = if pg_bin_exists.len() <= sidecar_bin_exists.len() {
        pg_bin_exists.len()
    } else {
        sidecar_bin_exists.len()
    };
    let mut both: Vec<bool> = Vec::new();
    for i in 0..n
        invariant
            n <= pg_bin_exists@.len(),
            n <= sidecar_bin_exists@.len(),
            n == both_set(pg_bin_exists@, sidecar_bin_exists@).len(),
            both@ == both_set(pg_bin_exists@, sidecar_bin_exists@).subrange(0, i as int),
    {
        both.push(pg_bin_exists[i] && sidecar_bin_exists[i]);
        assert(both@ == both_set(pg_bin_exists@, sidecar_bin_exists@).subrange(0, i + 1));
    }
    assert(both@ == both_set(pg_bin_exists@, sidecar_bin_exists@));
    match first_set_index(both.as_slice(), candidates.len()) {
        Some(i) => {
            let c = &candidates[i];
            Some(BaseDirCandidate { path: c.path.duplicate(), origin: c.origin })
        },
        None => None,
    }
}

/// What the host prints before the chosen base directory.
pub open spec fn origin_note(origin: BaseDirOrigin) -> Seq<char> {
    match origin {
        BaseDirOrigin::ManifestDir => "[paths] Using CARGO_MANIFEST_DIR: "@,
        BaseDirOrigin::WorkingDir => "[paths] Using CWD-relative: "@,
        BaseDirOrigin::ResourceDir => "[paths] Using resource_dir: "@,
    }
}

/// The console note printed before the chosen base directory's path.
pub fn base_dir_note(origin: BaseDirOrigin) -> (s: String)
    ensures
        s@ == origin_note(origin),
{
    match origin {
        BaseDirOrigin::ManifestDir => String::from_str("[paths] Using CARGO_MANIFEST_DIR: "),
        BaseDirOrigin::WorkingDir => String::from_str("[paths] Using CWD-relative: "),
        BaseDirOrigin::ResourceDir => String::from_str("[paths] Using resource_dir: "),
    }
}

/// `dir/../../MIGRATION`: the migration folder, a sibling of `TAURI/` when
/// `dir` is `.../TAURI/src-tauri`.
pub open spec fn migration_dir_of(dir: PathModel) -> PathModel {
    dir.join3(".."@, ".."@, "MIGRATION"@)
}

/// The migration-folder candidates: the one next to the base directory,
/// then the one next to the build-time crate directory.
pub open spec fn migration_candidate_list(base: PathModel, manifest: Option<PathModel>) -> Seq<
    PathModel,
> {
    match manifest {
        Some(m) => seq![migration_dir_of(base), migration_dir_of(m)],
        None => seq![migration_dir_of(base)],
    }
}

/// The migration folder: the first candidate that exists, else the one next
/// to the base directory.
pub open spec fn chosen_migration_dir(
    base: PathModel,
    manifest: Option<PathModel>,
    exists: Seq<bool>,
) -> PathModel {
    let cs = migration_candidate_list(base, manifest);
    match first_set(exists, cs.len() as int) {
        Some(i) => cs[i],
        None => cs[0],
    }
}

/// The migration-folder candidates, in the order they are tried.
pub fn migration_dir_candidates(base_dir: &LaunchPath, manifest_dir: Option<&LaunchPath>) -> (v:
    Vec<LaunchPath>)
    ensures
        path_models(v@) == migration_candidate_list(
            base_dir@,
            match manifest_dir {
                Some(m) => Some(m@),
                None => None,
            },
        ),
{
    let mut v: Vec<LaunchPath> = Vec::new();
    v.push(base_dir.join("..").join("..").join("MIGRATION"));
    match manifest_dir {
        Some(m) => {
            v.push(m.join("..").join("..").join("MIGRATION"));
        },
        None => {},
    }
    assert(path_models(v@) == migration_candidate_list(
        base_dir@,
        match manifest_dir {
            Some(m) => Some(m@),
            None => None,
        },
    ));
    v
}

/// Resolves the migration folder: the first candidate of
/// [`migration_dir_candidates`] that exists (`exists[i]` for candidate `i`),
/// else `base_dir/../../MIGRATION`.
pub fn resolve_migration_dir(
    base_dir: &LaunchPath,
    manifest_dir: Option<&LaunchPath>,
    exists: &[bool],
) -> (r: LaunchPath)
    ensures
        r@ == chosen_migration_dir(
            base_dir@,
            match manifest_dir {
                Some(m) => Some(m@),
                None => None,
            },
            exists@,
        ),
{
    let cs = migration_dir_candidates(base_dir, manifest_dir);
    assert(path_models(cs@).len() == cs@.len());
    match first_set_index(exists, cs.len()) {
        Some(i) => {
            assert(cs@[i as int]@ == path_models(cs@)[i as int]);
            cs[i].duplicate()
        },
        None => {
            assert(cs@[0]@ == path_models(cs@)[0]);
            cs[0].duplicate()
        },
    }
}

/// Whatever exists, the migration folder is a `MIGRATION` directory two
/// levels above the base directory or above the build-time crate directory;
/// when neither exists it is the one above the base directory.
pub proof fn lemma_migration_dir_location(
    base: PathModel,
    manifest: Option<PathModel>,
    exists: Seq<bool>,
)
    ensures
        chosen_migration_dir(base, manifest, exists) == migration_dir_of(base) || (manifest
            matches Some(m) && chosen_migration_dir(base, manifest, exists) == migration_dir_of(m)),
        chosen_migration_dir(base, manifest, exists).parts.last() == "MIGRATION"@,
        (forall|i: int| 0 <= i < exists.len() ==> !exists[i]) ==> chosen_migration_dir(
            base,
            manifest,
            exists,
        ) == migration_dir_of(base),
{
    let cs = migration_candidate_list(base, manifest);
    match first_set(exists, cs.len() as int) {
        Some(i) => {
            if exists|k: int| 0 <= k < cs.len() && k < exists.len() && exists[k] {
                let k0 = choose|k: int| 0 <= k < cs.len() && k < exists.len() && exists[k];
                lemma_first_set_is_first(exists, cs.len() as int, k0);
            }
        },
        None => {},
    }
}

/// When some flag among the first `n` is set, `first_set` names the first
/// such flag.
pub proof fn lemma_first_set_is_first(flags: Seq<bool>, n: int, k: int)
    requires
        0 <= k < n,
        k < flags.len(),
        flags[k],
    ensures
        first_set(flags, n) matches Some(i) && 0 <= i <= k && flags[i] && (forall|j: int|
            0 <= j < i ==> !flags[j]),
    decreases k,
{
    if exists|j: int| 0 <= j < k && flags[j] {
        let j = choose|j: int| 0 <= j < k && flags[j];
        lemma_first_set_is_first(flags, n, j);
    } else {
        assert(0 <= k < n && k < flags.len() && flags[k] && (forall|j: int|
            0 <= j < k ==> !flags[j]));
    }
}


/// `first_set` names the first set flag among the first `n`, and is `None`
/// exactly when none of them is set.
pub proof fn lemma_first_set_spec(flags: Seq<bool>, n: int)
    ensures
        match first_set(flags, n) {
            Some(i) => 0 <= i < n && i < flags.len() && flags[i] && forall|j: int|
                0 <= j < i ==> !flags[j],
            None => forall|j: int| 0 <= j < n && j < flags.len() ==> !flags[j],
        },
{
    if exists|k: int| 0 <= k < n && k < flags.len() && flags[k] {
        let k = choose|k: int| 0 <= k < n && k < flags.len() && flags[k];
        lemma_first_set_is_first(flags, n, k);
    }
}

/// The base directory is looked for in a fixed order of preference: when
/// the build-time crate directory holds both `pgsql/bin` and `bin/`
/// (`has_both[0]`) it is chosen whatever else exists, and the resource
/// directory is chosen only when no other candidate holds both.
pub proof fn lemma_base_dir_preference(
    manifest: Option<PathModel>,
    cwd: PathModel,
    resource: Option<PathModel>,
    has_both: Seq<bool>,
)
    ensures
        ({
            let cs = base_dir_candidate_list(manifest, cwd, resource);
            &&& manifest is Some && has_both.len() > 0 && has_both[0] ==> first_set(
                has_both,
                cs.len() as int,
            ) == Some(0int) && cs[0] == (manifest->0, BaseDirOrigin::ManifestDir)
            &&& forall|i: int|
                #![trigger cs[i]]
                first_set(has_both, cs.len() as int) == Some(i) && cs[i].1
                    == BaseDirOrigin::ResourceDir ==> forall|j: int|
                    0 <= j < i ==> !has_both[j] && cs[j].1 != BaseDirOrigin::ResourceDir
        }),
{
    let cs = base_dir_candidate_list(manifest, cwd, resource);
    lemma_first_set_spec(has_both, cs.len() as int);
}

} // verus!
