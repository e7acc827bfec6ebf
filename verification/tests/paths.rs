use std::path::PathBuf;

use windmill_launcher::paths::base_dir_candidates;
use windmill_launcher::paths::base_dir_note;
use windmill_launcher::paths::base_dir_probe;
use windmill_launcher::paths::binary_path;
use windmill_launcher::paths::first_set_index;
use windmill_launcher::paths::migration_dir_candidates;
use windmill_launcher::paths::resolve_base_dir;
use windmill_launcher::paths::resolve_migration_dir;
use windmill_launcher::paths::resource_dir_of;
use windmill_launcher::paths::sidecar_bin_probe;
use windmill_launcher::paths::BaseDirOrigin;
use windmill_launcher::paths::LaunchPath;
use windmill_launcher::paths::PgTool;
use windmill_launcher::paths::Platform;

fn native(p: &LaunchPath) -> PathBuf {
    let mut b = PathBuf::from(p.root.as_str());
    for part in &p.parts {
        b.push(part);
    }
    b
}

fn path(root: &str) -> LaunchPath {
    LaunchPath::new(root.to_string())
}

fn parts(p: &LaunchPath) -> Vec<&str> {
    p.parts.iter().map(|s| s.as_str()).collect()
}

#[test]
fn test_resolve_migration_dir_structure() {
    // The migration dir should be derived relative to base_dir
    let base = path("/fake/launcher/TAURI/src-tauri");
    let migration = resolve_migration_dir(&base, None, &[]);
    // Should go up 2 levels from src-tauri to launcher, then into MIGRATION
    assert!(native(&migration).to_string_lossy().contains("MIGRATION"));
}

#[test]
fn test_binary_path_construction() {
    let base = path("/fake/base");
    let resource_dir = resource_dir_of(&base);

    let initdb_exe = binary_path(&resource_dir, PgTool::Initdb, Platform::Windows);
    assert!(native(&initdb_exe).to_string_lossy().ends_with("initdb.exe"));
    assert!(native(&initdb_exe).to_string_lossy().contains("pgsql"));
    assert!(native(&initdb_exe).to_string_lossy().contains("bin"));

    let initdb = binary_path(&resource_dir, PgTool::Initdb, Platform::Unix);
    assert!(native(&initdb).to_string_lossy().ends_with("initdb"));
    assert!(native(&initdb).to_string_lossy().contains("pgsql"));
    assert!(native(&initdb).to_string_lossy().contains("bin"));
}

#[test]
fn binary_paths_of_each_tool() {
    let resource_dir = resource_dir_of(&path("/opt/app"));
    let postgres = binary_path(&resource_dir, PgTool::Postgres, Platform::Unix);
    assert_eq!(native(&postgres), PathBuf::from("/opt/app/pgsql/bin/postgres"));
    let psql = binary_path(&resource_dir, PgTool::Psql, Platform::Windows);
    assert_eq!(parts(&psql), vec!["pgsql", "bin", "psql.exe"]);
}

#[test]
fn migration_dir_is_two_levels_up() {
    let base = path("/fake/launcher/TAURI/src-tauri");
    let migration = resolve_migration_dir(&base, None, &[false]);
    assert_eq!(parts(&migration), vec!["..", "..", "MIGRATION"]);
    assert_eq!(migration.root, "/fake/launcher/TAURI/src-tauri");
}

#[test]
fn migration_dir_prefers_the_first_that_exists() {
    let base = path("/base");
    let dev = path("/dev/src-tauri");
    let cands = migration_dir_candidates(&base, Some(&dev));
    assert_eq!(cands.len(), 2);
    assert_eq!(cands[1].root, "/dev/src-tauri");

    let chosen = resolve_migration_dir(&base, Some(&dev), &[false, true]);
    assert_eq!(chosen.root, "/dev/src-tauri");
    let chosen = resolve_migration_dir(&base, Some(&dev), &[true, true]);
    assert_eq!(chosen.root, "/base");
    let chosen = resolve_migration_dir(&base, Some(&dev), &[false, false]);
    assert_eq!(chosen.root, "/base");
}

#[test]
fn base_dir_candidates_in_order() {
    let manifest = path("/src/launcher/TAURI/src-tauri");
    let cwd = path("/work");
    let resource = path("/usr/lib/app");
    let cands = base_dir_candidates(Some(&manifest), &cwd, Some(&resource));
    assert_eq!(cands.len(), 5);
    assert_eq!(cands[0].origin, BaseDirOrigin::ManifestDir);
    assert_eq!(cands[0].path.root, "/src/launcher/TAURI/src-tauri");
    assert_eq!(parts(&cands[1].path), vec!["src-tauri"]);
    assert!(cands[2].path.parts.is_empty());
    assert_eq!(parts(&cands[3].path), vec!["..", "TAURI", "src-tauri"]);
    assert_eq!(cands[4].origin, BaseDirOrigin::ResourceDir);

    let only_cwd = base_dir_candidates(None, &cwd, None);
    assert_eq!(only_cwd.len(), 3);
    assert!(only_cwd.iter().all(|c| c.origin == BaseDirOrigin::WorkingDir));
}

#[test]
fn base_dir_is_first_candidate_with_binaries() {
    let cwd = path("/work");
    let resource = path("/usr/lib/app");
    let cands = base_dir_candidates(None, &cwd, Some(&resource));
    let all = [true, true, true, true];
    let chosen = resolve_base_dir(&cands, &[false, false, false, true], &all).unwrap();
    assert_eq!(chosen.origin, BaseDirOrigin::ResourceDir);
    assert_eq!(chosen.path.root, "/usr/lib/app");
    let chosen = resolve_base_dir(&cands, &[false, true, true, true], &all).unwrap();
    assert_eq!(chosen.origin, BaseDirOrigin::WorkingDir);
    assert!(chosen.path.parts.is_empty());
    assert!(resolve_base_dir(&cands, &[false, false, false, false], &all).is_none());
    assert!(resolve_base_dir(&cands, &[], &all).is_none());
}

#[test]
fn base_dir_needs_both_binary_directories() {
    let cwd = path("/work");
    let cands = base_dir_candidates(None, &cwd, None);
    // pgsql/bin without the sidecars' bin/ does not make a base directory.
    let chosen = resolve_base_dir(&cands, &[true, true, false], &[false, true, true]).unwrap();
    assert!(chosen.path.parts.is_empty());
    assert!(resolve_base_dir(&cands, &[true, false, true], &[false, true, false]).is_none());
    assert!(resolve_base_dir(&cands, &[true, true, true], &[true]).unwrap().path.parts == vec!["src-tauri".to_string()]);
    assert!(resolve_base_dir(&cands, &[true, true, true], &[false]).is_none());
}

#[test]
fn base_dir_probe_and_notes() {
    let probe = base_dir_probe(&path("/x"));
    assert_eq!(native(&probe), PathBuf::from("/x/pgsql/bin"));
    let sidecars = sidecar_bin_probe(&path("/x"));
    assert_eq!(native(&sidecars), PathBuf::from("/x/bin"));
    assert_eq!(base_dir_note(BaseDirOrigin::ManifestDir), "[paths] Using CARGO_MANIFEST_DIR: ");
    assert_eq!(base_dir_note(BaseDirOrigin::WorkingDir), "[paths] Using CWD-relative: ");
    assert_eq!(base_dir_note(BaseDirOrigin::ResourceDir), "[paths] Using resource_dir: ");
}

#[test]
fn first_set_index_limits() {
    assert_eq!(first_set_index(&[false, true, true], 3), Some(1));
    assert_eq!(first_set_index(&[false, true, true], 1), None);
    assert_eq!(first_set_index(&[true], 5), Some(0));
    assert_eq!(first_set_index(&[], 5), None);
}
