//! Which detect manifest is in use.
use std::cell::RefCell;
use std::collections::HashMap;
use std::sync::Arc;

use engine_core::nodes::terminal::manifest_source::{
    override_path_of, warning, BadOverride, ManifestOrigin, ManifestSource, Resolution,
};
use engine_core::time::Timestamp;
use sha2::Digest;

const EMBEDDED: &str = "name = \"embedded\"\nrule one\nrule two\n";

const PATH: &str = "/etc/detect.toml";

fn sha256_hex(s: &str) -> String {
    format!("{:x}", sha2::Sha256::digest(s.as_bytes()))
}

#[derive(Debug, PartialEq)]
struct Manifest {
    name: String,
    rules: usize,
}

/// A manifest is its name in quotes on the first line, then a rule per line.
fn compile(source: &str) -> Result<Manifest, String> {
    let mut lines = source.lines();
    let name = lines
        .next()
        .and_then(|line| line.strip_prefix("name = \""))
        .and_then(|rest| rest.strip_suffix('"'))
        .ok_or_else(|| "no name".to_string())?;
    Ok(Manifest {
        name: name.to_string(),
        rules: lines.count(),
    })
}

fn valid_manifest(name: &str) -> String {
    format!("name = \"{name}\"\nrule spinner\n")
}

/// A disk: each file's text and when it last changed, and how often a file was
/// looked at and read.
#[derive(Default)]
struct Disk {
    files: HashMap<String, (String, i64)>,
    stats: RefCell<usize>,
    reads: RefCell<usize>,
}

impl Disk {
    fn write(&mut self, path: &str, text: &str, mtime: i64) {
        self.files.insert(path.to_string(), (text.to_string(), mtime));
    }

    fn resolve(&self, source: &mut ManifestSource<Manifest>) -> Resolution<Manifest> {
        source.resolve(
            |path: &str| {
                *self.stats.borrow_mut() += 1;
                match self.files.get(path) {
                    Some((_, mtime)) => Ok(Timestamp::from_unix(*mtime, 0)),
                    None => Err("no such file".to_string()),
                }
            },
            |path: &str| {
                *self.reads.borrow_mut() += 1;
                match self.files.get(path) {
                    Some((text, _)) if !text.is_empty() => Ok(text.clone()),
                    _ => Err("unreadable".to_string()),
                }
            },
            compile,
            EMBEDDED,
        )
    }
}

#[test]
fn no_override_resolves_the_embedded_const() {
    let disk = Disk::default();
    let mut source = ManifestSource::new(None);
    let out = disk.resolve(&mut source);
    assert_eq!(out.resolved.origin, ManifestOrigin::Embedded);
    assert_eq!(out.resolved.digest, sha256_hex(EMBEDDED));
    assert_eq!(out.resolved.manifest.name, "embedded");
    assert_eq!(out.warning, None);
    assert_eq!(*disk.stats.borrow(), 0);
}

#[test]
fn no_override_is_byte_identical_to_reading_the_embedded_const_directly() {
    let disk = Disk::default();
    let mut source = ManifestSource::new(None);
    let resolved = disk.resolve(&mut source).resolved;
    let direct = compile(EMBEDDED).expect("the built-in source compiles");
    assert_eq!(*resolved.manifest, direct);
}

#[test]
fn override_file_resolves_instead_of_the_embedded_const() {
    let mut disk = Disk::default();
    let text = valid_manifest("override-manifest");
    disk.write(PATH, &text, 1);
    let mut source = ManifestSource::new(Some(PATH.to_string()));
    let out = disk.resolve(&mut source);
    assert_eq!(out.resolved.origin, ManifestOrigin::Override(PATH.to_string()));
    assert_eq!(out.resolved.manifest.name, "override-manifest");
    assert_eq!(out.resolved.digest, sha256_hex(&text));
    assert_eq!(out.warning, None);
}

#[test]
fn editing_the_override_file_changes_the_next_resolve_with_no_rebuild() {
    let mut disk = Disk::default();
    disk.write(PATH, &valid_manifest("first-version"), 1);
    let mut source = ManifestSource::new(Some(PATH.to_string()));
    let first = disk.resolve(&mut source).resolved;
    assert_eq!(first.manifest.name, "first-version");

    disk.write(PATH, &valid_manifest("second-version"), 2);
    let second = disk.resolve(&mut source).resolved;
    assert_eq!(second.manifest.name, "second-version");
    assert_ne!(first.digest, second.digest);
}

#[test]
fn unchanged_mtime_returns_the_cached_compile_without_recompiling() {
    let mut disk = Disk::default();
    disk.write(PATH, &valid_manifest("cached-version"), 1);
    let mut source = ManifestSource::new(Some(PATH.to_string()));
    let first = disk.resolve(&mut source).resolved;
    let second = disk.resolve(&mut source).resolved;
    assert_eq!(first.digest, second.digest);
    assert!(Arc::ptr_eq(&first.manifest, &second.manifest));
    assert_eq!(*disk.reads.borrow(), 1);
    assert_eq!(*disk.stats.borrow(), 2);
}

#[test]
fn malformed_override_keeps_the_last_good_manifest_and_does_not_error() {
    let mut disk = Disk::default();
    disk.write(PATH, &valid_manifest("good-version"), 1);
    let mut source = ManifestSource::new(Some(PATH.to_string()));
    let good = disk.resolve(&mut source).resolved;
    assert_eq!(good.manifest.name, "good-version");

    disk.write(PATH, "name = \"broken\n[[rules", 2);
    let after = disk.resolve(&mut source);
    assert_eq!(after.resolved.manifest.name, "good-version");
    assert_eq!(after.resolved.digest, good.digest);
    assert_eq!(after.resolved.origin, ManifestOrigin::Override(PATH.to_string()));
    assert_eq!(
        after.warning.as_deref(),
        Some(
            "terminal::manifest_source: WARNING override manifest at '/etc/detect.toml' failed to \
             compile (no name); keeping the last-good compiled override manifest"
        )
    );
}

#[test]
fn malformed_override_with_no_prior_good_falls_back_to_embedded() {
    let mut disk = Disk::default();
    disk.write(PATH, "not [ valid", 1);
    let mut source = ManifestSource::new(Some(PATH.to_string()));
    let out = disk.resolve(&mut source);
    assert_eq!(out.resolved.origin, ManifestOrigin::Embedded);
    assert_eq!(out.resolved.digest, sha256_hex(EMBEDDED));
    assert!(out.warning.is_some());
}

#[test]
fn missing_override_path_falls_back_to_embedded() {
    let disk = Disk::default();
    let mut source = ManifestSource::new(Some(PATH.to_string()));
    let out = disk.resolve(&mut source);
    assert_eq!(out.resolved.origin, ManifestOrigin::Embedded);
    assert_eq!(
        out.warning.as_deref(),
        Some(
            "terminal::manifest_source: WARNING override manifest path '/etc/detect.toml' has no \
             metadata (no such file); no last-good override manifest yet; falling back to the \
             embedded manifest"
        )
    );
}

#[test]
fn a_file_that_cannot_be_read_is_told() {
    let mut disk = Disk::default();
    disk.write(PATH, "", 1);
    let mut source = ManifestSource::new(Some(PATH.to_string()));
    let out = disk.resolve(&mut source);
    assert_eq!(
        out.warning,
        Some(warning(BadOverride::Unreadable, PATH, "unreadable", false))
    );
    assert_eq!(out.resolved.origin, ManifestOrigin::Embedded);
}

#[test]
fn the_built_in_manifest_is_compiled_once() {
    let disk = Disk::default();
    let mut source = ManifestSource::new(None);
    let first = disk.resolve(&mut source).resolved;
    let second = disk.resolve(&mut source).resolved;
    assert!(Arc::ptr_eq(&first.manifest, &second.manifest));
}

#[test]
fn from_env_with_unset_var_has_no_override() {
    assert_eq!(override_path_of(None), None);
}

#[test]
fn from_env_with_empty_var_has_no_override() {
    assert_eq!(override_path_of(Some("   ".to_string())), None);
    assert_eq!(override_path_of(Some(String::new())), None);
}

#[test]
fn from_env_with_set_var_resolves_the_override_path() {
    let path = override_path_of(Some(" /etc/detect.toml\n".to_string()));
    assert_eq!(path.as_deref(), Some(PATH));

    let mut disk = Disk::default();
    disk.write(PATH, &valid_manifest("env-configured"), 1);
    let mut source = ManifestSource::new(path);
    let out = disk.resolve(&mut source);
    assert_eq!(out.resolved.manifest.name, "env-configured");
    assert_eq!(out.resolved.origin, ManifestOrigin::Override(PATH.to_string()));
}
