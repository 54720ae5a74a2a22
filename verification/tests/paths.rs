use clash_service_ipc::assets::{
    canonical_regular_file, open_verified_source, validate_core_path, validate_destination,
    FileProbe,
};
use clash_service_ipc::error::ServiceErrorCode;
use clash_service_ipc::native::Platform;
use clash_service_ipc::paths::{
    application_bundle_root, macos_allows_core, windows_paths_equal, PathPart, ServicePath,
};
use clash_service_ipc::session::{AuthenticatedOwner, OwnerIdentity};

fn absolute(text: &str) -> ServicePath {
    let mut parts = vec![PathPart::RootDir];
    for name in text.split('/').filter(|name| !name.is_empty()) {
        parts.push(PathPart::Normal(name.to_string()));
    }
    ServicePath { parts }
}

fn owner(app_data_root: &str) -> AuthenticatedOwner {
    AuthenticatedOwner {
        key: "1".to_string(),
        identity: OwnerIdentity::Unix { uid: 1, gid: 1 },
        app_data_root: absolute(app_data_root),
    }
}

#[test]
fn parents_and_names_follow_the_components() {
    let path = absolute("/a/b");
    assert!(path.parent().expect("parent").same(&absolute("/a")));
    assert_eq!(path.file_name().map(String::as_str), Some("b"));
    assert!(absolute("/").parent().is_none());
    assert!(absolute("/").file_name().is_none());
    assert!(ServicePath { parts: Vec::new() }.parent().is_none());
    assert!(path.starts_with(&absolute("/a")));
    assert!(!absolute("/ab").starts_with(&absolute("/a")));
    assert!(path.clone().same(&path));
    let drive = ServicePath {
        parts: vec![PathPart::Prefix("C:".to_string())],
    };
    assert!(drive.parent().is_none());
}

#[test]
fn bundle_root_is_the_innermost_app_on_macos() {
    let core = absolute("/Applications/Outer.app/Contents/Inner.app/mihomo");
    assert!(application_bundle_root(Platform::Macos, &core)
        .expect("bundle")
        .same(&absolute("/Applications/Outer.app/Contents/Inner.app")));
    assert!(application_bundle_root(Platform::Macos, &absolute("/usr/bin/.app/mihomo")).is_none());
    assert!(application_bundle_root(Platform::Macos, &absolute("/usr/bin/mihomo")).is_none());
    assert!(application_bundle_root(Platform::Linux, &core)
        .expect("directory")
        .same(&absolute("/Applications/Outer.app/Contents/Inner.app")));
    assert!(application_bundle_root(Platform::Windows, &absolute("/")).is_none());
}

#[test]
fn macos_cores_lie_below_applications() {
    let data = absolute("/Users/me/Library/Application Support/app");
    assert!(macos_allows_core(&data, &absolute("/Applications/App.app/core")));
    assert!(macos_allows_core(&data, &absolute("/Users/me/Applications/App.app/core")));
    assert!(!macos_allows_core(&data, &absolute("/Users/you/Applications/core")));
    assert!(!macos_allows_core(&data, &absolute("/ApplicationsX/core")));
    assert!(!macos_allows_core(&absolute("/data"), &absolute("/Users/me/Applications/core")));

    let who = owner("/Users/me/Library/app");
    let outside = || Ok(absolute("/opt/core"));
    let error = validate_core_path(Platform::Macos, false, &who, outside())
        .expect_err("must be refused");
    assert_eq!(error.code, ServiceErrorCode::InvalidInstallLocation);
    assert_eq!(
        error.message,
        "macOS core path is outside an allowed Applications directory"
    );
    assert!(validate_core_path(Platform::Macos, true, &who, outside()).is_ok());
    assert!(validate_core_path(Platform::Linux, false, &who, outside()).is_ok());
}

#[test]
fn destinations_stay_below_the_runtime() {
    for good in ["a", "a/b.yaml", "a//b", "a/./b", "a/", "..a/b", "a/...", "a\\b"] {
        assert_eq!(
            validate_destination(Platform::Linux, good).expect("stays below"),
            good
        );
    }
    for bad in ["", "/a", "..", "a/../b", "../escape", "./a", ".", "a/.."] {
        assert_eq!(
            validate_destination(Platform::Linux, bad)
                .expect_err("escapes")
                .code,
            ServiceErrorCode::InvalidRuntimeAsset,
            "{bad}"
        );
    }
    for bad in ["C:\\a", "c:a", "\\a", "a\\..\\b", ".\\a", "..\\a"] {
        assert!(validate_destination(Platform::Windows, bad).is_err(), "{bad}");
    }
    assert!(validate_destination(Platform::Linux, "C:a").is_ok());
    assert!(validate_destination(Platform::Windows, "a\\b/c").is_ok());
}

#[test]
fn windows_paths_are_compared_in_one_form() {
    assert!(windows_paths_equal(r"\\?\C:\Data\File", r"c:/data/file\"));
    assert!(windows_paths_equal(r"\\?\UNC\Server\Share", r"\\server\share"));
    assert!(windows_paths_equal("C:\\Ä", "c:\\ä"));
    assert!(!windows_paths_equal(r"C:\Data\File", r"C:\Data\Other"));
    assert!(!windows_paths_equal(r"\\?\C:\Data", r"\\C:\Data"));
}

#[test]
fn regular_files_are_absolute_and_ordinary() {
    let ordinary = FileProbe::Found {
        is_symlink: false,
        is_file: true,
    };
    let check = |is_absolute, probe: &FileProbe, resolved| {
        canonical_regular_file("core", is_absolute, probe, resolved).map_err(|error| error.message)
    };
    let here = || Ok(absolute("/bin/core"));
    assert!(check(true, &ordinary, here()).expect("ordinary").same(&absolute("/bin/core")));
    assert_eq!(
        check(false, &ordinary, here()).expect_err("relative"),
        "core path must be absolute"
    );
    assert_eq!(
        check(true, &FileProbe::Unavailable("gone".to_string()), here()).expect_err("missing"),
        "core is unavailable: gone"
    );
    for (is_symlink, is_file) in [(true, true), (false, false)] {
        assert_eq!(
            check(true, &FileProbe::Found { is_symlink, is_file }, here()).expect_err("special"),
            "core must be an ordinary file"
        );
    }
    assert_eq!(
        check(true, &ordinary, Err("loop".to_string())).expect_err("unresolved"),
        "failed to canonicalize core: loop"
    );
}

#[test]
fn sources_lie_below_the_owner_or_the_bundle() {
    let who = owner("/data");
    let bundle = Some(absolute("/opt/app"));
    let check = |requested: &str, canonical: &str| {
        open_verified_source(&who, &bundle, &absolute(requested), Ok(absolute(canonical)))
            .map_err(|error| error.message)
    };
    assert!(check("/data/a", "/data/a").is_ok());
    assert!(check("/opt/app/a", "/opt/app/a").is_ok());
    assert_eq!(
        check("/data/link", "/data/a").expect_err("link"),
        "runtime asset path contains a symlink or non-canonical component"
    );
    assert_eq!(
        check("/etc/passwd", "/etc/passwd").expect_err("outside"),
        "runtime asset is outside the authenticated application roots"
    );
    assert!(open_verified_source(
        &who,
        &None,
        &absolute("/opt/app/a"),
        Ok(absolute("/opt/app/a"))
    )
    .is_err());
}
