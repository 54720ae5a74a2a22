//! What a runtime may be made of: the limits on a bundle, where its files may
//! come from and where they may go.
use crate::error::{invalid_asset, is_invalid_asset, ServiceError, ServiceErrorCode};
use crate::native::Platform;
use crate::paths::{
    is_below, library_ancestor_len, macos_allows_core, macos_core_allowed, names_below,
    PathPartView, ServicePath,
};
use crate::session::AuthenticatedOwner;
use crate::text::joined;
use vstd::prelude::*;
use vstd::string::*;

verus! {

/// The longest configuration that a bundle may bring, in bytes.
pub const MAX_RUNTIME_YAML_BYTES: usize = 8388608;

/// The most assets that a bundle may bring.
pub const MAX_RUNTIME_ASSETS: usize = 512;

/// The largest asset, in bytes.
pub const MAX_RUNTIME_ASSET_BYTES: u64 = 134217728;

/// The most bytes that all assets of a bundle may have together.
pub const MAX_RUNTIME_TOTAL_ASSET_BYTES: u64 = 268435456;

/// A file that a bundle brings, and where in the runtime it goes.
#[derive(Debug)]
pub struct RuntimeAsset {
    pub source: String,
    pub destination: String,
}

/// What a client wants a core to run from.
#[derive(Debug)]
pub struct RuntimeBundle {
    pub yaml: String,
    pub assets: Vec<RuntimeAsset>,
    pub core_path: String,
}

/// The size of all assets after one more of `next` bytes, where neither that
/// asset nor all of them together are too large.
pub fn checked_total_asset_bytes(current: u64, next: u64) -> (total: Result<u64, &'static str>)
    ensures
        total is Ok <==> next <= MAX_RUNTIME_ASSET_BYTES && current + next
            <= MAX_RUNTIME_TOTAL_ASSET_BYTES,
        total matches Ok(sum) ==> sum == current + next,
        total matches Err(message) ==> message@ == (if next > MAX_RUNTIME_ASSET_BYTES {
            "exceeds the per-file size limit"@
        } else {
            "exceeds the aggregate size limit"@
        }),
{
    if next > MAX_RUNTIME_ASSET_BYTES {
        return Err("exceeds the per-file size limit");
    }
    match current.checked_add(next) {
        Some(sum) => {
            if sum <= MAX_RUNTIME_TOTAL_ASSET_BYTES {
                Ok(sum)
            } else {
                Err("exceeds the aggregate size limit")
            }
        },
        None => Err("exceeds the aggregate size limit"),
    }
}

/// The sum of some sizes.
pub open spec fn sum_of(sizes: Seq<u64>) -> nat
    decreases sizes.len(),
{
    if sizes.len() == 0 {
        0
    } else {
        sum_of(sizes.drop_last()) + sizes.last() as nat
    }
}

/// Whether adding up some sizes, one by one from zero, stays within the limits
/// at every asset.
pub open spec fn sizes_accepted(sizes: Seq<u64>) -> bool
    decreases sizes.len(),
{
    sizes.len() == 0 || {
        &&& sizes_accepted(sizes.drop_last())
        &&& sizes.last() <= MAX_RUNTIME_ASSET_BYTES
        &&& sum_of(sizes.drop_last()) + sizes.last() <= MAX_RUNTIME_TOTAL_ASSET_BYTES
    }
}

/// Checking the assets one after the other accepts exactly the bundles in which
/// no asset is too large and all of them together are not.
pub proof fn sizes_accepted_exactly_within_limits(sizes: Seq<u64>)
    ensures
        sizes_accepted(sizes) <==> (forall|i: int|
            0 <= i < sizes.len() ==> #[trigger] sizes[i] <= MAX_RUNTIME_ASSET_BYTES) && sum_of(
            sizes,
        ) <= MAX_RUNTIME_TOTAL_ASSET_BYTES,
    decreases sizes.len(),
{
    if sizes.len() > 0 {
        let earlier = sizes.drop_last();
        sizes_accepted_exactly_within_limits(earlier);
        if forall|i: int|
            0 <= i < earlier.len() ==> #[trigger] earlier[i] <= MAX_RUNTIME_ASSET_BYTES {
            assert forall|i: int| 0 <= i < sizes.len() - 1 implies #[trigger] sizes[i]
                <= MAX_RUNTIME_ASSET_BYTES by {
                assert(earlier[i] == sizes[i]);
            }
        } else {
            let i = choose|i: int|
                0 <= i < earlier.len() && #[trigger] earlier[i] > MAX_RUNTIME_ASSET_BYTES;
            assert(sizes[i] == earlier[i]);
        }
        assert(sizes.last() == sizes[sizes.len() - 1]);
    }
}

/// Where in a runtime an asset goes, if it stays below the runtime.
pub fn validate_destination(platform: Platform, destination: &str) -> (checked: Result<
    String,
    ServiceError,
>)
    ensures
        checked is Ok <==> is_below(platform, destination@),
        checked matches Ok(path) ==> path@ == destination@,
        checked matches Err(refusal) ==> is_invalid_asset(
            refusal,
            "runtime asset destination must be a non-traversing relative path"@,
        ),
{
    if names_below(platform, destination) {
        Ok(destination.to_owned())
    } else {
        Err(
            invalid_asset(
                "runtime asset destination must be a non-traversing relative path".to_owned(),
            ),
        )
    }
}

/// What looking at a file, without following links, gave.
#[derive(Debug)]
pub enum FileProbe {
    Found { is_symlink: bool, is_file: bool },
    Unavailable(String),
}

/// Whether an ordinary file was found.
pub open spec fn is_ordinary(probe: FileProbe) -> bool {
    probe matches FileProbe::Found { is_symlink, is_file } && !is_symlink && is_file
}

/// Refuses a path that is not absolute. `label` says what the path is for.
pub fn require_absolute(label: &str, is_absolute: bool) -> (checked: Result<(), ServiceError>)
    ensures
        checked is Ok <==> is_absolute,
        checked matches Err(refusal) ==> is_invalid_asset(
            refusal,
            label@ + " path must be absolute"@,
        ),
{
    if is_absolute {
        Ok(())
    } else {
        Err(invalid_asset(joined(label, " path must be absolute")))
    }
}

/// Refuses what is no ordinary file.
pub fn require_ordinary_file(label: &str, probe: &FileProbe) -> (checked: Result<(), ServiceError>)
    ensures
        checked is Ok <==> is_ordinary(*probe),
        checked matches Err(refusal) ==> is_invalid_asset(
            refusal,
            match *probe {
                FileProbe::Unavailable(error) => label@ + " is unavailable: "@ + error@,
                _ => label@ + " must be an ordinary file"@,
            },
        ),
{
    match probe {
        FileProbe::Unavailable(error) => Err(
            invalid_asset(joined(label, " is unavailable: ").concat(error.as_str())),
        ),
        FileProbe::Found { is_symlink, is_file } => {
            if *is_symlink || !*is_file {
                Err(invalid_asset(joined(label, " must be an ordinary file")))
            } else {
                Ok(())
            }
        },
    }
}

/// Whether a path was found to name an ordinary file and was resolved.
pub open spec fn is_canonical_file(
    is_absolute: bool,
    probe: FileProbe,
    resolved: Result<ServicePath, String>,
) -> bool {
    is_absolute && is_ordinary(probe) && resolved is Ok
}

/// The resolved path of an ordinary file that was named by an absolute path.
pub fn canonical_regular_file(
    label: &str,
    is_absolute: bool,
    probe: &FileProbe,
    resolved: Result<ServicePath, String>,
) -> (checked: Result<ServicePath, ServiceError>)
    ensures
        checked is Ok <==> is_canonical_file(is_absolute, *probe, resolved),
        checked matches Ok(path) ==> resolved == Ok::<ServicePath, String>(path),
        checked matches Err(refusal) ==> is_invalid_asset(
            refusal,
            if !is_absolute {
                label@ + " path must be absolute"@
            } else if *probe is Unavailable {
                label@ + " is unavailable: "@ + probe->Unavailable_0@
            } else if !is_ordinary(*probe) {
                label@ + " must be an ordinary file"@
            } else {
                "failed to canonicalize "@ + label@ + ": "@ + resolved->Err_0@
            },
        ),
        canonical_file_follows(label@, is_absolute, *probe, resolved, checked),
{
    match require_absolute(label, is_absolute) {
        Err(refusal) => {
            return Err(refusal);
        },
        Ok(()) => {},
    }
    match require_ordinary_file(label, probe) {
        Err(refusal) => {
            return Err(refusal);
        },
        Ok(()) => {},
    }
    match resolved {
        Ok(path) => Ok(path),
        Err(error) => Err(
            invalid_asset(
                joined("failed to canonicalize ", label).concat(": ").concat(error.as_str()),
            ),
        ),
    }
}

/// Whether a core may be run from where it lies: anywhere but on macOS, and
/// there only below an `Applications` directory. A test build runs it anywhere.
pub open spec fn core_location_allowed(
    platform: Platform,
    test_build: bool,
    owner: AuthenticatedOwner,
    canonical: ServicePath,
) -> bool {
    platform == Platform::Macos && !test_build ==> macos_core_allowed(
        owner.app_data_root@,
        canonical@,
    )
}

/// The path of the core that a bundle names, by what resolving it gave.
pub fn validate_core_path(
    platform: Platform,
    test_build: bool,
    owner: &AuthenticatedOwner,
    canonical: Result<ServicePath, ServiceError>,
) -> (checked: Result<ServicePath, ServiceError>)
    ensures
        checked is Ok <==> (canonical matches Ok(path) && core_location_allowed(
            platform,
            test_build,
            *owner,
            path,
        )),
        checked matches Ok(path) ==> canonical == Ok::<ServicePath, ServiceError>(path),
        checked matches Err(refusal) ==> match canonical {
            Err(error) => refusal == error,
            Ok(_) => refusal.is(
                ServiceErrorCode::InvalidInstallLocation,
                "macOS core path is outside an allowed Applications directory"@,
            ),
        },
        core_check_follows(platform, test_build, *owner, canonical, checked),
{
    let path: ServicePath = match canonical {
        Ok(path) => path,
        Err(error) => {
            return Err(error);
        },
    };
    if platform == Platform::Macos && !test_build && !macos_allows_core(
        &owner.app_data_root,
        &path,
    ) {
        return Err(
            ServiceError::new(
                ServiceErrorCode::InvalidInstallLocation,
                "macOS core path is outside an allowed Applications directory".to_owned(),
            ),
        );
    }
    Ok(path)
}

/// Whether an asset may be taken from a path: it is spelled as it resolves, and
/// lies below the owner's application data or below what the application ships.
pub open spec fn source_allowed(
    owner: AuthenticatedOwner,
    bundle_root: Option<ServicePath>,
    requested: ServicePath,
    canonical: ServicePath,
) -> bool {
    &&& canonical@ == requested@
    &&& {
        ||| owner.app_data_root@.is_prefix_of(canonical@)
        ||| (bundle_root matches Some(root) && root@.is_prefix_of(canonical@))
    }
}

/// The path that an asset is opened at, by what resolving its source gave.
pub fn open_verified_source(
    owner: &AuthenticatedOwner,
    bundle_root: &Option<ServicePath>,
    requested: &ServicePath,
    canonical: Result<ServicePath, ServiceError>,
) -> (checked: Result<ServicePath, ServiceError>)
    ensures
        checked is Ok <==> (canonical matches Ok(path) && source_allowed(
            *owner,
            *bundle_root,
            *requested,
            path,
        )),
        checked matches Ok(path) ==> canonical == Ok::<ServicePath, ServiceError>(path),
        checked matches Err(refusal) ==> match canonical {
            Err(error) => refusal == error,
            Ok(path) => is_invalid_asset(
                refusal,
                if path@ != requested@ {
                    "runtime asset path contains a symlink or non-canonical component"@
                } else {
                    "runtime asset is outside the authenticated application roots"@
                },
            ),
        },
        source_check_follows(*owner, *bundle_root, *requested, canonical, checked),
{
    let path: ServicePath = match canonical {
        Ok(path) => path,
        Err(error) => {
            return Err(error);
        },
    };
    if !path.same(requested) {
        return Err(
            invalid_asset(
                "runtime asset path contains a symlink or non-canonical component".to_owned(),
            ),
        );
    }
    let in_bundle: bool = match bundle_root {
        Some(root) => path.starts_with(root),
        None => false,
    };
    if !path.starts_with(&owner.app_data_root) && !in_bundle {
        return Err(
            invalid_asset(
                "runtime asset is outside the authenticated application roots".to_owned(),
            ),
        );
    }
    Ok(path)
}

/// Whatever lies below the owner's application data or below what the application
/// ships, however deep, may be taken as an asset, if it is spelled as it resolves.
pub proof fn whatever_lies_below_a_root_is_allowed(
    owner: AuthenticatedOwner,
    bundle_root: Option<ServicePath>,
    requested: ServicePath,
    canonical: ServicePath,
    rest: Seq<PathPartView>,
)
    requires
        canonical@ == requested@,
        canonical@ == owner.app_data_root@ + rest || (bundle_root matches Some(root) && canonical@
            == root@ + rest),
    ensures
        source_allowed(owner, bundle_root, requested, canonical),
{
    if canonical@ == owner.app_data_root@ + rest {
        assert(canonical@.subrange(0, owner.app_data_root@.len() as int)
            =~= owner.app_data_root@);
    }
    if let Some(root) = bundle_root {
        if canonical@ == root@ + rest {
            assert(canonical@.subrange(0, root@.len() as int) =~= root@);
        }
    }
}

/// What may be taken as an asset may be taken from any place below it as well: one
/// component more changes nothing.
pub proof fn allowed_sources_reach_down(
    owner: AuthenticatedOwner,
    bundle_root: Option<ServicePath>,
    upper: ServicePath,
    lower: ServicePath,
    part: PathPartView,
)
    requires
        source_allowed(owner, bundle_root, upper, upper),
        lower@ == upper@.push(part),
    ensures
        source_allowed(owner, bundle_root, lower, lower),
{
    let data = owner.app_data_root@;
    if data.is_prefix_of(upper@) {
        assert(lower@.subrange(0, data.len() as int) =~= upper@.subrange(0, data.len() as int));
    }
    if let Some(root) = bundle_root {
        if root@.is_prefix_of(upper@) {
            assert(lower@.subrange(0, root@.len() as int) =~= upper@.subrange(
                0,
                root@.len() as int,
            ));
        }
    }
}

/// Nothing else may be taken: an asset is spelled as it resolves, and its first
/// components are those of the application data, or those of what the application
/// ships.
pub proof fn nothing_outside_the_roots_is_allowed(
    owner: AuthenticatedOwner,
    bundle_root: Option<ServicePath>,
    requested: ServicePath,
    canonical: ServicePath,
)
    requires
        source_allowed(owner, bundle_root, requested, canonical),
    ensures
        canonical@ == requested@,
        ({
            let starts = |root: Seq<PathPartView>|
                root.len() <= canonical@.len() && (forall|i: int|
                    0 <= i < root.len() ==> #[trigger] canonical@[i] == root[i]);
            starts(owner.app_data_root@) || (bundle_root matches Some(root) && starts(root@))
        }),
{
    let data = owner.app_data_root@;
    if data.is_prefix_of(canonical@) {
        assert forall|i: int| 0 <= i < data.len() implies #[trigger] canonical@[i] == data[i] by {
            assert(canonical@.subrange(0, data.len() as int)[i] == data[i]);
        }
    }
    if let Some(root) = bundle_root {
        if root@.is_prefix_of(canonical@) {
            assert forall|i: int| 0 <= i < root@.len() implies #[trigger] canonical@[i] == root@[i]
                by {
                assert(canonical@.subrange(0, root@.len() as int)[i] == root@[i]);
            }
        }
    }
}

/// A file is taken exactly where it was named by an absolute path, was found to be a
/// file and no link, and was resolved.
pub proof fn only_ordinary_files_are_taken(
    is_absolute: bool,
    is_symlink: bool,
    is_file: bool,
    resolved: Result<ServicePath, String>,
    error: String,
)
    ensures
        is_canonical_file(is_absolute, FileProbe::Found { is_symlink, is_file }, resolved)
            <==> is_absolute && is_file && !is_symlink && resolved is Ok,
        !is_canonical_file(is_absolute, FileProbe::Unavailable(error), resolved),
{
}

/// Off macOS, and in a test build, a core may be run from anywhere. On macOS it may be
/// run from whatever lies below `/Applications`, however deep, and from whatever lies
/// below the `Applications` beside the innermost `Library` around the application data.
pub proof fn cores_may_lie_below_applications(
    platform: Platform,
    test_build: bool,
    owner: AuthenticatedOwner,
    canonical: ServicePath,
    home: Seq<PathPartView>,
    below_library: Seq<PathPartView>,
    rest: Seq<PathPartView>,
)
    requires
        ({
            ||| platform != Platform::Macos
            ||| test_build
            ||| canonical@ == seq![PathPartView::RootDir, PathPartView::Normal("Applications"@)]
                + rest
            ||| {
                &&& owner.app_data_root@ == home.push(PathPartView::Normal("Library"@))
                    + below_library
                &&& forall|i: int|
                    0 <= i < below_library.len() ==> #[trigger] below_library[i] is Normal
                        && below_library[i] != PathPartView::Normal("Library"@)
                &&& canonical@ == home.push(PathPartView::Normal("Applications"@)) + rest
            }
        }),
    ensures
        core_location_allowed(platform, test_build, owner, canonical),
{
    if platform == Platform::Macos && !test_build {
        let shared = seq![PathPartView::RootDir, PathPartView::Normal("Applications"@)];
        if canonical@ == shared + rest {
            assert(canonical@.subrange(0, 2) =~= shared);
        } else {
            let own = home.push(PathPartView::Normal("Applications"@));
            innermost_library_is_found(
                home,
                below_library,
                owner.app_data_root@,
                owner.app_data_root@.len(),
            );
            assert(owner.app_data_root@.take(home.len() as int) =~= home);
            assert(canonical@.subrange(0, own.len() as int) =~= own);
        }
    }
}

/// The innermost `Library` is found behind what does not bear that name.
proof fn innermost_library_is_found(
    home: Seq<PathPartView>,
    below_library: Seq<PathPartView>,
    path: Seq<PathPartView>,
    count: nat,
)
    requires
        path == home.push(PathPartView::Normal("Library"@)) + below_library,
        home.len() < count <= path.len(),
        forall|i: int|
            0 <= i < below_library.len() ==> #[trigger] below_library[i] is Normal
                && below_library[i] != PathPartView::Normal("Library"@),
    ensures
        library_ancestor_len(path, count) == home.len() + 1,
    decreases count,
{
    if count > home.len() + 1 {
        assert(path[count - 1] == below_library[count - home.len() - 2]);
        innermost_library_is_found(home, below_library, path, (count - 1) as nat);
    } else {
        assert(path[count - 1] == PathPartView::Normal("Library"@));
    }
}

/// On macOS a core that may be run lies below `/Applications`, or below an
/// `Applications` beside a `Library` around the application data: its first components
/// are those.
pub proof fn cores_lie_nowhere_else(
    owner: AuthenticatedOwner,
    canonical: ServicePath,
)
    requires
        core_location_allowed(Platform::Macos, false, owner, canonical),
    ensures
        ({
            ||| {
                &&& canonical@.len() >= 2
                &&& canonical@[0] == PathPartView::RootDir
                &&& canonical@[1] == PathPartView::Normal("Applications"@)
            }
            ||| exists|k: int|
                #![trigger owner.app_data_root@[k]]
                {
                    &&& 0 <= k < owner.app_data_root@.len()
                    &&& owner.app_data_root@[k] == PathPartView::Normal("Library"@)
                    &&& k < canonical@.len()
                    &&& canonical@[k] == PathPartView::Normal("Applications"@)
                    &&& canonical@.take(k) == owner.app_data_root@.take(k)
                }
        }),
{
    let shared = seq![PathPartView::RootDir, PathPartView::Normal("Applications"@)];
    let data = owner.app_data_root@;
    if shared.is_prefix_of(canonical@) {
        assert(canonical@.subrange(0, 2)[0] == shared[0] && canonical@.subrange(0, 2)[1]
            == shared[1]);
    } else {
        let count = library_ancestor_len(data, data.len());
        library_is_named_so(data, data.len());
        let k = count - 1;
        let own = data.take(k).push(PathPartView::Normal("Applications"@));
        assert(canonical@.subrange(0, own.len() as int) == own);
        assert(canonical@.take(k) =~= own.take(k));
        assert(own.take(k) =~= data.take(k));
        assert(canonical@.subrange(0, own.len() as int)[k] == own[k]);
        assert(data[k] == PathPartView::Normal("Library"@));
    }
}

proof fn library_is_named_so(path: Seq<PathPartView>, count: nat)
    requires
        count <= path.len(),
    ensures
        library_ancestor_len(path, count) <= count,
        library_ancestor_len(path, count) > 0 ==> path[library_ancestor_len(path, count) - 1]
            == PathPartView::Normal("Library"@),
    decreases count,
{
    if count > 0 {
        library_is_named_so(path, (count - 1) as nat);
    }
}

/// Whether resolving a file came to this.
pub open spec fn canonical_file_follows(
    label: Seq<char>,
    is_absolute: bool,
    probe: FileProbe,
    resolved: Result<ServicePath, String>,
    checked: Result<ServicePath, ServiceError>,
) -> bool {
    &&& checked is Ok <==> is_canonical_file(is_absolute, probe, resolved)
    &&& checked matches Ok(path) ==> resolved == Ok::<ServicePath, String>(path)
    &&& checked matches Err(refusal) ==> is_invalid_asset(
        refusal,
        if !is_absolute {
            label + " path must be absolute"@
        } else if probe is Unavailable {
            label + " is unavailable: "@ + probe->Unavailable_0@
        } else if !is_ordinary(probe) {
            label + " must be an ordinary file"@
        } else {
            "failed to canonicalize "@ + label + ": "@ + resolved->Err_0@
        },
    )
}

/// A file that is taken is taken where it was resolved to. One that is not is refused for
/// the first thing that is wrong with it, in this order: its path is not absolute, it is
/// not there, it is a link or no file, it cannot be resolved.
pub proof fn refused_file_tells_what_is_wrong(
    label: Seq<char>,
    is_absolute: bool,
    probe: FileProbe,
    resolved: Result<ServicePath, String>,
    checked: Result<ServicePath, ServiceError>,
)
    requires
        canonical_file_follows(label, is_absolute, probe, resolved, checked),
    ensures
        checked is Ok ==> checked->Ok_0 == resolved->Ok_0,
        checked matches Err(refusal) ==> refusal.code == ServiceErrorCode::InvalidRuntimeAsset && (
        refusal.message@ == if !is_absolute {
            label + " path must be absolute"@
        } else {
            match probe {
                FileProbe::Unavailable(error) => label + " is unavailable: "@ + error@,
                FileProbe::Found { is_symlink, is_file } => if is_symlink || !is_file {
                    label + " must be an ordinary file"@
                } else {
                    "failed to canonicalize "@ + label + ": "@ + resolved->Err_0@
                },
            }
        }),
{
}

/// Whether the check of where a core lies came to this.
pub open spec fn core_check_follows(
    platform: Platform,
    test_build: bool,
    owner: AuthenticatedOwner,
    canonical: Result<ServicePath, ServiceError>,
    checked: Result<ServicePath, ServiceError>,
) -> bool {
    &&& checked is Ok <==> (canonical matches Ok(path) && core_location_allowed(
        platform,
        test_build,
        owner,
        path,
    ))
    &&& checked matches Ok(path) ==> canonical == Ok::<ServicePath, ServiceError>(path)
    &&& checked matches Err(refusal) ==> match canonical {
        Err(error) => refusal == error,
        Ok(_) => refusal.is(
            ServiceErrorCode::InvalidInstallLocation,
            "macOS core path is outside an allowed Applications directory"@,
        ),
    }
}

/// Off macOS, and in a test build, the check of where a core lies changes nothing: what
/// resolving it gave is handed on, the path as well as the error. On macOS a core
/// elsewhere is refused for where it is installed.
pub proof fn cores_are_checked_on_macos_alone(
    platform: Platform,
    test_build: bool,
    owner: AuthenticatedOwner,
    canonical: Result<ServicePath, ServiceError>,
    checked: Result<ServicePath, ServiceError>,
)
    requires
        core_check_follows(platform, test_build, owner, canonical, checked),
    ensures
        platform != Platform::Macos || test_build ==> checked == canonical,
        canonical is Err ==> checked == canonical,
        checked is Ok ==> checked == canonical,
        canonical is Ok && checked is Err ==> checked->Err_0.code
            == ServiceErrorCode::InvalidInstallLocation && checked->Err_0.message@
            == "macOS core path is outside an allowed Applications directory"@,
{
}

/// Whether the check of where an asset lies came to this.
pub open spec fn source_check_follows(
    owner: AuthenticatedOwner,
    bundle_root: Option<ServicePath>,
    requested: ServicePath,
    canonical: Result<ServicePath, ServiceError>,
    checked: Result<ServicePath, ServiceError>,
) -> bool {
    &&& checked is Ok <==> (canonical matches Ok(path) && source_allowed(
        owner,
        bundle_root,
        requested,
        path,
    ))
    &&& checked matches Ok(path) ==> canonical == Ok::<ServicePath, ServiceError>(path)
    &&& checked matches Err(refusal) ==> match canonical {
        Err(error) => refusal == error,
        Ok(path) => is_invalid_asset(
            refusal,
            if path@ != requested@ {
                "runtime asset path contains a symlink or non-canonical component"@
            } else {
                "runtime asset is outside the authenticated application roots"@
            },
        ),
    }
}

/// An asset that may be taken is opened where it resolves to. One that resolves elsewhere
/// than it is spelled is refused for that, one that lies elsewhere for that, and what
/// could not be resolved for its own reason.
pub proof fn refused_source_tells_why(
    owner: AuthenticatedOwner,
    bundle_root: Option<ServicePath>,
    requested: ServicePath,
    canonical: Result<ServicePath, ServiceError>,
    checked: Result<ServicePath, ServiceError>,
)
    requires
        source_check_follows(owner, bundle_root, requested, canonical, checked),
    ensures
        checked is Ok ==> checked == canonical,
        canonical is Err ==> checked == canonical,
        canonical matches Ok(path) ==> {
            &&& path@ != requested@ ==> (checked matches Err(refusal) && refusal.code
                == ServiceErrorCode::InvalidRuntimeAsset && refusal.message@
                == "runtime asset path contains a symlink or non-canonical component"@)
            &&& path@ == requested@ ==> (checked matches Err(refusal) ==> refusal.code
                == ServiceErrorCode::InvalidRuntimeAsset && refusal.message@
                == "runtime asset is outside the authenticated application roots"@)
        },
{
}

/// An asset may have 128 mebibytes, and all assets together may have 256: sizes are
/// accepted exactly where no one of them and no sum exceeds that.
pub proof fn limits_on_sizes(sizes: Seq<u64>)
    ensures
        sizes_accepted(sizes) <==> (forall|i: int|
            0 <= i < sizes.len() ==> #[trigger] sizes[i] <= 134217728) && sum_of(sizes)
            <= 268435456,
{
    sizes_accepted_exactly_within_limits(sizes);
}

/// Sizes are added up: an empty list comes to nothing, and two lists together to both
/// their sums.
pub proof fn sizes_add_up(first: Seq<u64>, second: Seq<u64>, size: u64)
    ensures
        sum_of(Seq::empty()) == 0,
        sum_of(seq![size]) == size,
        sum_of(first + second) == sum_of(first) + sum_of(second),
    decreases second.len(),
{
    reveal_with_fuel(sum_of, 2);
    assert(seq![size].drop_last() =~= Seq::empty());
    if second.len() == 0 {
        assert(first + second =~= first);
    } else {
        sizes_add_up(first, second.drop_last(), size);
        assert((first + second).drop_last() =~= first + second.drop_last());
    }
}

} // verus!
