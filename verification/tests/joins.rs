use clash_service_ipc::joins::join_path;
use clash_service_ipc::native::Platform;
use std::path::Path;

#[test]
fn unix_paths_are_joined_as_the_system_joins_them() {
    for directory in ["", "/", "/state/gen", "/state/gen/", "state", "state//", ".", "a/..", "C:"] {
        for below in ["config.yaml", "providers/a.yaml", "a//b/./c", "a/", "...", "a\\b"] {
            let expected = Path::new(directory).join(below);
            for platform in [Platform::Linux, Platform::Macos] {
                assert_eq!(
                    join_path(platform, directory, below),
                    expected.to_string_lossy(),
                    "{directory:?} and {below:?}"
                );
            }
        }
    }
}

#[test]
fn separators_are_not_doubled() {
    assert_eq!(
        join_path(Platform::Linux, "/state/gen/", "config.yaml"),
        "/state/gen/config.yaml"
    );
    assert_eq!(
        join_path(Platform::Linux, "/state/gen", "config.yaml"),
        "/state/gen/config.yaml"
    );
    assert_eq!(join_path(Platform::Linux, "", "config.yaml"), "config.yaml");
}

#[test]
fn windows_paths_are_joined_with_backslashes() {
    let join = |directory, below| join_path(Platform::Windows, directory, below);
    assert_eq!(join(r"C:\run", "config.yaml"), r"C:\run\config.yaml");
    assert_eq!(join(r"C:\run\", "config.yaml"), r"C:\run\config.yaml");
    assert_eq!(join("C:/run/", "config.yaml"), "C:/run/config.yaml");
    assert_eq!(join(r"C:\run", "a/b"), r"C:\run\a/b");
    assert_eq!(join("C:", "config.yaml"), "C:config.yaml");
    assert_eq!(join("C:\\", "config.yaml"), r"C:\config.yaml");
    assert_eq!(join("", "config.yaml"), "config.yaml");
    assert_eq!(join(r"\\server\share", "a"), r"\\server\share\a");
}

#[test]
fn verbatim_windows_paths_are_normal() {
    let join = |directory, below| join_path(Platform::Windows, directory, below);
    assert_eq!(
        join(r"\\?\C:\run", "providers/./a.yaml"),
        r"\\?\C:\run\providers\a.yaml"
    );
    assert_eq!(join(r"\\?\C:\run\", "a//b/"), r"\\?\C:\run\a\b");
    assert_eq!(join(r"\\?\C:", "a"), r"\\?\C:\a");
    assert_eq!(join(r"\\?\C:\", "a"), r"\\?\C:\a");
    assert_eq!(
        join(r"\\?\UNC\server\share", "config.yaml"),
        r"\\?\UNC\server\share\config.yaml"
    );
    assert_eq!(join("//?/C:/run", "a/b"), r"//?/C:/run\a/b");
}
