use clash_service_ipc::assets::{
    canonical_regular_file, open_verified_source, validate_core_path, FileProbe, RuntimeAsset,
    RuntimeBundle, MAX_RUNTIME_ASSETS, MAX_RUNTIME_YAML_BYTES,
};
use clash_service_ipc::error::{ServiceError, ServiceErrorCode};
use clash_service_ipc::layout::{
    begin_layout, copy_limit, layout_work, materialize_runtime, LayoutEvent, LayoutProgress,
    LayoutWork, OpenedSource,
};
use clash_service_ipc::native::Platform;
use clash_service_ipc::paths::{application_bundle_root, PathPart, ServicePath};
use clash_service_ipc::prepare::{
    prepare_runtime, GenerationPaths, PrepareEvent, RuntimePreparation,
};
use clash_service_ipc::runtime::{
    create_runtime_generation, generation_name, names_runtime, snapshot_stale_runtime_directories,
    CreationOutcome, GenerationStep, PreparedRuntime, RuntimeEntry,
};
use clash_service_ipc::session::{AuthenticatedOwner, OwnerIdentity};
use std::collections::{BTreeMap, BTreeSet};

const OWNER_ROOT: &str = "/state/owner";

/// A disk in memory: its files, its directories, and the next generation.
struct Disk {
    platform: Platform,
    files: BTreeMap<String, Vec<u8>>,
    directories: BTreeSet<String>,
    sequence: u64,
    grows_while_copied: bool,
    failing: Option<&'static str>,
}

fn path_of(text: &str) -> ServicePath {
    let mut parts = Vec::new();
    if text.starts_with('/') {
        parts.push(PathPart::RootDir);
    }
    for name in text.split('/').filter(|name| !name.is_empty()) {
        parts.push(match name {
            ".." => PathPart::ParentDir,
            name => PathPart::Normal(name.to_string()),
        });
    }
    ServicePath { parts }
}

fn disk() -> Disk {
    let mut files = BTreeMap::new();
    files.insert("/app/mihomo".to_string(), b"mock core".to_vec());
    files.insert("/app/asset".to_string(), b"safe".to_vec());
    files.insert(
        "/app/providers/source.yaml".to_string(),
        b"proxies: []\n".to_vec(),
    );
    files.insert(
        "/app/legacy-provider.yaml".to_string(),
        b"proxies: []\n".to_vec(),
    );
    files.insert("/elsewhere/asset".to_string(), b"foreign".to_vec());
    Disk {
        platform: Platform::Linux,
        files,
        directories: BTreeSet::new(),
        sequence: 0,
        grows_while_copied: false,
        failing: None,
    }
}

fn test_owner() -> AuthenticatedOwner {
    AuthenticatedOwner {
        key: "1000".to_string(),
        identity: OwnerIdentity::Unix {
            uid: 1000,
            gid: 1000,
        },
        app_data_root: path_of("/app"),
    }
}

impl Disk {
    fn canonical(&self, label: &str, text: &str) -> Result<ServicePath, ServiceError> {
        let probe = if self.files.contains_key(text) {
            FileProbe::Found {
                is_symlink: false,
                is_file: true,
            }
        } else {
            FileProbe::Unavailable("not found".to_string())
        };
        canonical_regular_file(label, text.starts_with('/'), &probe, Ok(path_of(text)))
    }

    fn fails(&self, operation: &str) -> bool {
        self.failing == Some(operation)
    }

    fn outcome(&self, operation: &str) -> LayoutEvent {
        if self.fails(operation) {
            LayoutEvent::Failed("disk full".to_string())
        } else {
            LayoutEvent::Done
        }
    }

    fn materialize(
        &mut self,
        owner: &AuthenticatedOwner,
        bundle: &RuntimeBundle,
        runtime: &str,
    ) -> Result<(), ServiceError> {
        let bundle_root = application_bundle_root(self.platform, &path_of(&bundle.core_path));
        let mut layout = begin_layout(self.platform, bundle)?;
        let mut opened = String::new();
        let mut open_target = String::new();
        let mut config = String::new();
        loop {
            let event = match layout_work(&layout, bundle, runtime) {
                LayoutWork::SecureRuntime { runtime: secured } => {
                    assert_eq!(secured, runtime);
                    LayoutEvent::Done
                }
                LayoutWork::OpenSource { source } => {
                    opened = source.to_string();
                    let asset = &bundle.assets[layout.index];
                    let requested = path_of(source);
                    let canonical = self.canonical("runtime asset", source);
                    match open_verified_source(owner, &bundle_root, &requested, canonical) {
                        Err(error) => LayoutEvent::Rejected(error),
                        Ok(_) => LayoutEvent::Opened(OpenedSource {
                            shown: format!("{source:?}"),
                            target: format!("{:?}", format!("{runtime}/{}", asset.destination)),
                            length: self.files[source].len() as u64,
                        }),
                    }
                }
                LayoutWork::CreateParent { target } => {
                    assert!(target.starts_with(runtime));
                    self.outcome("create parent")
                }
                LayoutWork::CreateTarget { target } => {
                    open_target = target;
                    self.outcome("create target")
                }
                LayoutWork::CopySource { limit } => {
                    let mut bytes = self.files[&opened].clone();
                    if self.grows_while_copied {
                        bytes.push(0);
                    }
                    bytes.truncate(limit as usize);
                    let copied = bytes.len() as u64;
                    self.files.insert(open_target.clone(), bytes);
                    if self.fails("copy") {
                        LayoutEvent::Failed("disk full".to_string())
                    } else {
                        LayoutEvent::Copied(copied)
                    }
                }
                LayoutWork::SyncTarget => self.outcome("sync target"),
                LayoutWork::CreateConfig { path } => {
                    config = path;
                    self.outcome("create config")
                }
                LayoutWork::WriteConfig { bytes } => {
                    self.files.insert(config.clone(), bytes.to_vec());
                    self.outcome("write config")
                }
                LayoutWork::SyncConfig => self.outcome("sync config"),
            };
            match materialize_runtime(layout, bundle, event) {
                LayoutProgress::Continue(next) => layout = next,
                LayoutProgress::Complete => return Ok(()),
                LayoutProgress::Refused(error) => return Err(error),
            }
        }
    }

    fn create_generation(&mut self) -> Result<String, ServiceError> {
        let mut attempts = 0;
        loop {
            let name = generation_name(42, 1_700_000_000_000, self.sequence);
            self.sequence += 1;
            let runtime = format!("{OWNER_ROOT}/{name}");
            let outcome = if self.directories.insert(runtime.clone()) {
                CreationOutcome::Created
            } else {
                CreationOutcome::AlreadyExists
            };
            match create_runtime_generation(attempts, &format!("{runtime:?}"), outcome) {
                GenerationStep::Created => return Ok(runtime),
                GenerationStep::TryAnother { attempts: next } => attempts = next,
                GenerationStep::Refused(error) => return Err(error),
            }
        }
    }

    fn remove_directory(&mut self, directory: &str) {
        self.directories.remove(directory);
        let separators = ['/', '\\'];
        self.files.retain(|path, _| match path.strip_prefix(directory) {
            Some(below) => !below.starts_with(separators),
            None => true,
        });
    }

    fn entries(&self) -> Vec<RuntimeEntry> {
        self.directories
            .iter()
            .map(|directory| RuntimeEntry {
                path: path_of(directory),
                name: directory.rsplit('/').next().unwrap_or("").to_string(),
            })
            .collect()
    }

    fn stale(&self, active: &str) -> Vec<String> {
        let directories: Vec<String> = self.directories.iter().cloned().collect();
        snapshot_stale_runtime_directories(&self.entries(), &path_of(active))
            .into_iter()
            .map(|position| directories[position].clone())
            .collect()
    }

    fn prepare(
        &mut self,
        owner: &AuthenticatedOwner,
        bundle: &RuntimeBundle,
    ) -> Result<PreparedRuntime, ServiceError> {
        let mut pending = RuntimePreparation::ValidateCore;
        let mut steps = 0;
        loop {
            steps += 1;
            assert!(steps <= 10);
            let failing = |operation: &str| {
                if self.failing == Some(operation) {
                    PrepareEvent::Failed("disk full".to_string())
                } else {
                    PrepareEvent::Done
                }
            };
            let event = match &pending {
                RuntimePreparation::ValidateCore => {
                    let canonical = self.canonical("core", &bundle.core_path);
                    match validate_core_path(self.platform, false, owner, canonical) {
                        Ok(_) => PrepareEvent::Done,
                        Err(error) => PrepareEvent::Rejected(error),
                    }
                }
                RuntimePreparation::SecureOwnerState => failing("secure state"),
                RuntimePreparation::PersistIdentity => failing("persist identity"),
                RuntimePreparation::PrepareIpcDirectory => PrepareEvent::Done,
                RuntimePreparation::CreateLogs => failing("create logs"),
                RuntimePreparation::SecureLogs => PrepareEvent::Done,
                RuntimePreparation::CreateGeneration => match self.create_generation() {
                    Ok(runtime) => PrepareEvent::Created(GenerationPaths {
                        platform: self.platform,
                        core_path: bundle.core_path.clone(),
                        core_ipc_path: "/run/core.sock".to_string(),
                        runtime,
                        logs: "/state/owner/logs".to_string(),
                    }),
                    Err(error) => PrepareEvent::Rejected(error),
                },
                RuntimePreparation::Materialize { prepared } => {
                    let runtime = prepared.runtime.clone();
                    match self.materialize(owner, bundle, &runtime) {
                        Ok(()) => PrepareEvent::Done,
                        Err(error) => PrepareEvent::Rejected(error),
                    }
                }
                RuntimePreparation::DiscardRejected { prepared, .. } => {
                    assert!(prepared.is_unused());
                    let runtime = prepared.runtime.clone();
                    self.remove_directory(&runtime);
                    PrepareEvent::Done
                }
                RuntimePreparation::SnapshotStale { prepared } => {
                    PrepareEvent::Snapshot(self.stale(&prepared.runtime))
                }
                RuntimePreparation::Finished { .. } => unreachable!(),
            };
            pending = prepare_runtime(pending, event);
            if let RuntimePreparation::Finished { result } = pending {
                return result;
            }
        }
    }

    fn generation_count(&self) -> usize {
        self.directories
            .iter()
            .filter(|directory| directory.contains("/runtime.generation-"))
            .count()
    }
}

fn asset(source: &str, destination: &str) -> RuntimeAsset {
    RuntimeAsset {
        source: source.to_string(),
        destination: destination.to_string(),
    }
}

fn bundle(yaml: &str, assets: Vec<RuntimeAsset>) -> RuntimeBundle {
    RuntimeBundle {
        yaml: yaml.to_string(),
        assets,
        core_path: "/app/mihomo".to_string(),
    }
}

#[test]
fn materializes_yaml_and_assets_below_owner_runtime() {
    let mut disk = disk();
    let owner = test_owner();
    let bundle = bundle(
        "mode: rule\n",
        vec![asset("/app/providers/source.yaml", "providers/copied.yaml")],
    );

    let prepared = disk.prepare(&owner, &bundle).expect("must be laid out");

    let core = &prepared.clash_config().core_config;
    assert_eq!(disk.files[&core.config_path], b"mode: rule\n");
    assert_eq!(
        disk.files[&format!("{}/providers/copied.yaml", core.config_dir)],
        b"proxies: []\n"
    );
    assert!(prepared.is_unused());
    assert_eq!(core.core_path, "/app/mihomo");
    assert_eq!(core.core_ipc_path, "/run/core.sock");
    assert_eq!(prepared.clash_config().log_config.directory, "/state/owner/logs");
}

#[test]
fn prepared_assets_survive_legacy_source_cleanup() {
    let mut disk = disk();
    let owner = test_owner();
    let bundle = bundle(
        "mode: rule\n",
        vec![asset("/app/legacy-provider.yaml", "providers/copied.yaml")],
    );

    let prepared = disk.prepare(&owner, &bundle).expect("must be laid out");
    disk.files.remove("/app/legacy-provider.yaml");

    let core = &prepared.clash_config().core_config;
    assert_eq!(
        disk.files[&format!("{}/providers/copied.yaml", core.config_dir)],
        b"proxies: []\n"
    );
}

#[test]
fn rejects_traversal_without_replacing_existing_runtime() {
    let mut disk = disk();
    let owner = test_owner();
    let prepared = disk
        .prepare(&owner, &bundle("mode: rule\n", vec![]))
        .expect("must be laid out");
    let invalid = bundle("mode: global\n", vec![asset("/app/asset", "../escape")]);

    let error = disk
        .prepare(&owner, &invalid)
        .expect_err("traversal must fail");

    assert_eq!(error.code, ServiceErrorCode::InvalidRuntimeAsset);
    assert_eq!(
        disk.files[&prepared.clash_config().core_config.config_path],
        b"mode: rule\n"
    );
    assert_eq!(
        disk.generation_count(),
        1,
        "rejected runtime left a partial generation behind"
    );
}

#[test]
fn assets_rejected_limits_and_duplicate_destinations_leave_no_generation() {
    leaves_no_generation(
        Platform::Linux,
        ["providers/duplicate.yaml", "providers/duplicate.yaml"],
    );
    leaves_no_generation(
        Platform::Windows,
        ["Providers/Duplicate.yaml", "providers/duplicate.yaml"],
    );
}

fn leaves_no_generation(platform: Platform, duplicates: [&str; 2]) {
    let mut disk = disk();
    disk.platform = platform;
    let owner = test_owner();
    disk.prepare(&owner, &bundle("mode: rule\n", vec![]))
        .expect("must be laid out");
    let invalid_bundles = [
        bundle(&"x".repeat(MAX_RUNTIME_YAML_BYTES + 1), vec![]),
        bundle(
            "mode: rule\n",
            (0..=MAX_RUNTIME_ASSETS)
                .map(|index| asset("/app/asset", &format!("providers/{index}.yaml")))
                .collect(),
        ),
        bundle(
            "mode: rule\n",
            vec![
                asset("/app/asset", duplicates[0]),
                asset("/app/asset", duplicates[1]),
            ],
        ),
    ];

    for invalid in invalid_bundles {
        let error = disk
            .prepare(&owner, &invalid)
            .expect_err("invalid runtime bundle must be rejected");
        assert_eq!(error.code, ServiceErrorCode::InvalidRuntimeAsset);
    }

    assert_eq!(
        disk.generation_count(),
        1,
        "rejected bundles left a partial runtime generation behind"
    );
}

#[test]
fn stale_snapshot_never_collects_a_later_generation() {
    let mut disk = disk();
    let active = format!("{OWNER_ROOT}/runtime.generation-active");
    let stale = format!("{OWNER_ROOT}/runtime.generation-stale");
    let later = format!("{OWNER_ROOT}/runtime.generation-later");
    disk.directories.insert(active.clone());
    disk.directories.insert(stale.clone());
    disk.directories.insert(format!("{OWNER_ROOT}/logs"));

    let stale_paths = disk.stale(&active);
    disk.directories.insert(later.clone());
    for path in stale_paths {
        disk.remove_directory(&path);
    }

    assert!(disk.directories.contains(&active));
    assert!(disk.directories.contains(&later));
    assert!(!disk.directories.contains(&stale));

    for path in disk.stale(&later) {
        disk.remove_directory(&path);
    }
    assert!(disk.directories.contains(&later));
    assert!(!disk.directories.contains(&active));
    assert!(disk.directories.contains(&format!("{OWNER_ROOT}/logs")));
}

#[test]
fn new_generation_makes_the_older_ones_stale() {
    let mut disk = disk();
    let owner = test_owner();
    let first = disk
        .prepare(&owner, &bundle("mode: rule\n", vec![]))
        .expect("must be laid out");
    let mut second = disk
        .prepare(&owner, &bundle("mode: rule\n", vec![]))
        .expect("must be laid out");
    assert_eq!(second.stale_runtime_paths, [first.runtime.clone()]);
    assert_eq!(second.commit(), [first.runtime]);
    assert!(second.stale_runtime_paths.is_empty());
    assert!(names_runtime(&generation_name(1, 2, 3)));
}

#[test]
fn refused_layouts_have_exact_messages() {
    let owner = test_owner();
    let message = |assets, failing, grows| {
        let mut disk = disk();
        disk.failing = failing;
        disk.grows_while_copied = grows;
        let error = disk
            .prepare(&owner, &bundle("mode: rule\n", assets))
            .expect_err("must be refused");
        assert_eq!(error.code, ServiceErrorCode::InvalidRuntimeAsset);
        assert_eq!(disk.generation_count(), 0);
        error.message
    };
    let one = || vec![asset("/app/asset", "a.yaml")];
    assert_eq!(
        message(vec![asset("/app/asset", "../escape")], None, false),
        "runtime asset destination must be a non-traversing relative path"
    );
    assert_eq!(
        message(
            vec![asset("/app/asset", "a.yaml"), asset("/app/asset", "a.yaml")],
            None,
            false
        ),
        "runtime asset destination is duplicated: \"a.yaml\""
    );
    assert_eq!(
        message(vec![asset("/elsewhere/asset", "a.yaml")], None, false),
        "runtime asset is outside the authenticated application roots"
    );
    assert_eq!(
        message(vec![asset("/app/missing", "a.yaml")], None, false),
        "runtime asset is unavailable: not found"
    );
    assert_eq!(
        message(vec![asset("app/asset", "a.yaml")], None, false),
        "runtime asset path must be absolute"
    );
    assert_eq!(
        message(one(), None, true),
        "runtime asset \"/app/asset\" changed while it was being copied"
    );
    assert_eq!(
        message(one(), Some("create parent"), false),
        "failed to create runtime asset directory: disk full"
    );
    assert!(message(one(), Some("create target"), false)
        .starts_with("failed to create runtime asset target \"/state/owner/runtime.generation-"));
    assert_eq!(
        message(one(), Some("copy"), false),
        "failed to copy runtime asset \"/app/asset\": disk full"
    );
    assert!(message(one(), Some("sync target"), false).ends_with("/a.yaml\": disk full"));
    assert_eq!(
        message(one(), Some("create config"), false),
        "failed to create runtime config: disk full"
    );
    assert_eq!(
        message(one(), Some("write config"), false),
        "failed to write runtime config: disk full"
    );
    assert_eq!(
        message(one(), Some("sync config"), false),
        "failed to sync runtime config: disk full"
    );
    assert_eq!(
        message(vec![], Some("secure state"), false),
        "failed to secure owner state root: disk full"
    );
    assert_eq!(
        message(vec![], Some("persist identity"), false),
        "failed to persist owner identity: disk full"
    );
    assert_eq!(
        message(vec![], Some("create logs"), false),
        "failed to create owner log directory: disk full"
    );
}

#[test]
fn case_tells_destinations_apart_off_windows() {
    let mut disk = disk();
    let both = bundle(
        "mode: rule\n",
        vec![
            asset("/app/asset", "Providers/Duplicate.yaml"),
            asset("/app/asset", "providers/duplicate.yaml"),
        ],
    );
    assert!(disk.prepare(&test_owner(), &both).is_ok());
    disk.platform = Platform::Windows;
    assert_eq!(
        disk.prepare(&test_owner(), &both)
            .expect_err("one destination")
            .message,
        "runtime asset destination is duplicated: \"providers/duplicate.yaml\""
    );
}

#[test]
fn steps_of_a_layout_know_what_they_work_on() {
    let one = bundle("mode: rule\n", vec![asset("/app/asset", "providers/a.yaml")]);
    let done = || LayoutEvent::Done;
    let events = vec![
        done(),
        LayoutEvent::Opened(OpenedSource {
            shown: "\"a\"".to_string(),
            target: "\"b\"".to_string(),
            length: 4,
        }),
        done(),
        done(),
        LayoutEvent::Copied(4),
        done(),
        done(),
        done(),
        done(),
    ];
    let mut works = Vec::new();
    let mut layout = begin_layout(Platform::Windows, &one).expect("within limits");
    for event in events {
        works.push(match layout_work(&layout, &one, r"C:\run") {
            LayoutWork::SecureRuntime { runtime } => format!("secure {runtime}"),
            LayoutWork::OpenSource { source } => format!("open {source}"),
            LayoutWork::CreateParent { target } => format!("parent {target}"),
            LayoutWork::CreateTarget { target } => format!("target {target}"),
            LayoutWork::CopySource { limit } => format!("copy {limit}"),
            LayoutWork::SyncTarget => "sync".to_string(),
            LayoutWork::CreateConfig { path } => format!("config {path}"),
            LayoutWork::WriteConfig { bytes } => format!("write {}", bytes.len()),
            LayoutWork::SyncConfig => "sync config".to_string(),
        });
        match materialize_runtime(layout, &one, event) {
            LayoutProgress::Continue(next) => layout = next,
            LayoutProgress::Complete => break,
            LayoutProgress::Refused(error) => panic!("{}", error.message),
        }
    }
    assert_eq!(
        works,
        [
            r"secure C:\run",
            "open /app/asset",
            r"parent C:\run\providers/a.yaml",
            r"target C:\run\providers/a.yaml",
            "copy 134217729",
            "sync",
            r"config C:\run\config.yaml",
            "write 11",
            "sync config",
        ]
    );
}

#[test]
fn limits_have_exact_messages() {
    let mut disk = disk();
    let owner = test_owner();
    assert_eq!(
        disk.prepare(&owner, &bundle(&"x".repeat(MAX_RUNTIME_YAML_BYTES + 1), vec![]))
            .expect_err("too long")
            .message,
        "runtime YAML exceeds the 8388608-byte limit"
    );
    let many = (0..=MAX_RUNTIME_ASSETS)
        .map(|index| asset("/app/asset", &format!("{index}")))
        .collect();
    assert_eq!(
        disk.prepare(&owner, &bundle("", many))
            .expect_err("too many")
            .message,
        "runtime asset count exceeds the 512-asset limit"
    );
    let most = (0..MAX_RUNTIME_ASSETS)
        .map(|index| asset("/app/asset", &format!("{index}")))
        .collect();
    assert!(disk.prepare(&owner, &bundle("", most)).is_ok());
}

#[test]
fn oversized_sources_are_refused_when_they_are_opened() {
    let big = bundle("", vec![asset("/app/asset", "a"), asset("/app/asset", "b"), asset("/app/asset", "c")]);
    let source = |length| {
        LayoutEvent::Opened(OpenedSource {
            shown: "\"big\"".to_string(),
            target: "\"target\"".to_string(),
            length,
        })
    };
    let step = |layout, event| match materialize_runtime(layout, &big, event) {
        LayoutProgress::Continue(next) => Ok(next),
        LayoutProgress::Refused(error) => Err(error.message),
        LayoutProgress::Complete => panic!("not complete"),
    };
    let layout = begin_layout(Platform::Linux, &big).expect("within limits");
    let layout = step(layout, LayoutEvent::Done).expect("first asset");
    assert_eq!(
        step(layout, source(134_217_729)).expect_err("too large"),
        "runtime asset \"big\": exceeds the per-file size limit"
    );

    let mut layout = begin_layout(Platform::Linux, &big).expect("within limits");
    layout = step(layout, LayoutEvent::Done).expect("first asset");
    for _ in 0..2 {
        layout = step(layout, source(134_217_728)).expect("within limits");
        layout = step(layout, LayoutEvent::Done).expect("parent");
        layout = step(layout, LayoutEvent::Done).expect("target");
        assert_eq!(copy_limit(&layout), 134_217_729);
        layout = step(layout, LayoutEvent::Copied(134_217_728)).expect("copied");
        layout = step(layout, LayoutEvent::Done).expect("next asset");
    }
    assert_eq!(
        step(layout, source(1)).expect_err("too large"),
        "runtime asset \"big\": exceeds the aggregate size limit"
    );
}
