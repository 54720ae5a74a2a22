//! The layout of a runtime: its assets are copied one after the other, each
//! checked before it is touched, and the configuration is written last.
use crate::assets::{
    checked_total_asset_bytes, sizes_accepted, sum_of, validate_destination, RuntimeAsset,
    RuntimeBundle, MAX_RUNTIME_ASSETS, MAX_RUNTIME_ASSET_BYTES, MAX_RUNTIME_TOTAL_ASSET_BYTES,
    MAX_RUNTIME_YAML_BYTES,
};
use crate::error::{invalid_asset, is_invalid_asset, ServiceError, ServiceErrorCode};
use crate::joins::{
    cuts, entry_leads_on, is_plain_name, join_path, joined_path_leads_down, joining_separator,
    lead_of, names_in, path_in, Separators,
};
use crate::native::Platform;
use crate::paths::{destination_key, is_bad_piece, is_below, is_piece, is_separator, key_of};
use crate::text::{debug_form, joined, quoted, same_text, views};
use vstd::prelude::*;
use vstd::string::*;

verus! {

/// What the layout of a runtime does next.
#[derive(Clone, Copy, Debug, PartialEq, Eq, Structural)]
pub enum LayoutStep {
    SecureRuntime,
    OpenSource,
    CreateParent,
    CreateTarget,
    CopySource,
    SyncTarget,
    CreateConfig,
    WriteConfig,
    SyncConfig,
}

/// An opened source: its length, and itself and its target as messages show
/// them.
#[derive(Debug)]
pub struct OpenedSource {
    pub shown: String,
    pub target: String,
    pub length: u64,
}

/// How a step of a layout ended.
#[derive(Debug)]
pub enum LayoutEvent {
    Done,
    Opened(OpenedSource),
    Copied(u64),
    Failed(String),
    Rejected(ServiceError),
}

/// A layout under way: the step that comes next, the asset that it is about,
/// and what the assets so far came to.
#[derive(Debug)]
pub struct RuntimeLayout {
    pub platform: Platform,
    pub step: LayoutStep,
    pub index: usize,
    pub keys: Vec<String>,
    pub total: u64,
    pub source: OpenedSource,
}

/// What follows a step of a layout.
#[derive(Debug)]
pub enum LayoutProgress {
    Continue(RuntimeLayout),
    Complete,
    Refused(ServiceError),
}

/// Whether a step works on one asset.
pub open spec fn on_asset(step: LayoutStep) -> bool {
    ||| step == LayoutStep::OpenSource
    ||| on_source(step)
}

/// Whether a step works on one asset whose source is open.
pub open spec fn on_source(step: LayoutStep) -> bool {
    ||| step == LayoutStep::CreateParent
    ||| step == LayoutStep::CreateTarget
    ||| step == LayoutStep::CopySource
    ||| step == LayoutStep::SyncTarget
}

/// Whether a bundle is within the limits that can be told before any file is
/// touched.
pub open spec fn bundle_within_limits(bundle: RuntimeBundle) -> bool {
    &&& vstd::utf8::encode_utf8(bundle.yaml@).len() <= MAX_RUNTIME_YAML_BYTES
    &&& bundle.assets@.len() <= MAX_RUNTIME_ASSETS
}

/// The identities of the first `count` destinations of a bundle.
pub open spec fn keys_of(platform: Platform, bundle: RuntimeBundle, count: nat) -> Seq<Seq<char>> {
    Seq::new(count, |i: int| key_of(platform, bundle.assets@[i].destination@))
}

/// Whether the first `count` destinations of a bundle stay below the runtime and
/// are all different.
pub open spec fn destinations_sound(
    platform: Platform,
    bundle: RuntimeBundle,
    count: nat,
) -> bool {
    &&& forall|i: int|
        0 <= i < count ==> is_below(platform, #[trigger] bundle.assets@[i].destination@)
    &&& keys_of(platform, bundle, count).no_duplicates()
}

impl RuntimeLayout {
    /// How many assets have been admitted: those before `index`, and the one
    /// that is worked on.
    pub open spec fn admitted(&self) -> nat {
        if on_asset(self.step) {
            (self.index + 1) as nat
        } else {
            self.index as nat
        }
    }

    /// What holds of a layout of `bundle` at every step.
    pub open spec fn well_formed(&self, bundle: RuntimeBundle) -> bool {
        &&& bundle_within_limits(bundle)
        &&& self.admitted() <= bundle.assets@.len()
        &&& self.step == LayoutStep::SecureRuntime ==> self.index == 0
        &&& (self.step == LayoutStep::CreateConfig || self.step == LayoutStep::WriteConfig
            || self.step == LayoutStep::SyncConfig) ==> self.index == bundle.assets@.len()
        &&& views(self.keys@) == keys_of(self.platform, bundle, self.admitted())
        &&& destinations_sound(self.platform, bundle, self.admitted())
        &&& self.total <= MAX_RUNTIME_TOTAL_ASSET_BYTES
        &&& on_source(self.step) ==> self.source.length <= self.total && self.source.length
            <= MAX_RUNTIME_ASSET_BYTES
    }
}

/// Begins the layout of a bundle that is within the limits.
pub fn begin_layout(platform: Platform, bundle: &RuntimeBundle) -> (begun: Result<
    RuntimeLayout,
    ServiceError,
>)
    ensures
        begun is Ok <==> bundle_within_limits(*bundle),
        begun matches Ok(layout) ==> {
            &&& layout.platform == platform
            &&& layout.step == LayoutStep::SecureRuntime
            &&& layout.index == 0
            &&& layout.total == 0
            &&& layout.well_formed(*bundle)
        },
        begun matches Err(refusal) ==> is_invalid_asset(
            refusal,
            if vstd::utf8::encode_utf8(bundle.yaml@).len() > MAX_RUNTIME_YAML_BYTES {
                "runtime YAML exceeds the 8388608-byte limit"@
            } else {
                "runtime asset count exceeds the 512-asset limit"@
            },
        ),
        layout_begins(platform, *bundle, begun),
{
    if bundle.yaml.as_str().as_bytes().len() > MAX_RUNTIME_YAML_BYTES {
        return Err(invalid_asset("runtime YAML exceeds the 8388608-byte limit".to_owned()));
    }
    if bundle.assets.len() > MAX_RUNTIME_ASSETS {
        return Err(invalid_asset("runtime asset count exceeds the 512-asset limit".to_owned()));
    }
    let layout = RuntimeLayout {
        platform,
        step: LayoutStep::SecureRuntime,
        index: 0,
        keys: Vec::new(),
        total: 0,
        source: OpenedSource { shown: String::new(), target: String::new(), length: 0 },
    };
    assert(views(layout.keys@) =~= keys_of(platform, *bundle, 0));
    Ok(layout)
}

/// Whether an event can end the step that is pending. A source can be opened or
/// rejected; copying tells how many bytes there were; every other step is done
/// or fails, and securing the runtime fails with an error of its own.
pub open spec fn layout_event_fits(step: LayoutStep, event: LayoutEvent) -> bool {
    match step {
        LayoutStep::SecureRuntime => event is Done || event is Rejected,
        LayoutStep::OpenSource => event is Opened || event is Rejected,
        LayoutStep::CopySource => event is Copied || event is Failed,
        _ => event is Done || event is Failed,
    }
}

/// Whether a layout goes on as `before`, at another step.
pub open spec fn moves_on(
    before: RuntimeLayout,
    step: LayoutStep,
    progress: LayoutProgress,
) -> bool {
    progress == LayoutProgress::Continue(RuntimeLayout { step, ..before })
}

/// Whether a layout is refused as invalid, with this text.
pub open spec fn layout_refused(progress: LayoutProgress, message: Seq<char>) -> bool {
    progress matches LayoutProgress::Refused(refusal) && is_invalid_asset(refusal, message)
}

/// What follows when the assets before `index` are done: the next asset is
/// admitted, if its destination stays below the runtime and is not taken; after
/// the last one the configuration is written.
pub open spec fn admits_next(
    before: RuntimeLayout,
    bundle: RuntimeBundle,
    index: int,
    progress: LayoutProgress,
) -> bool {
    if index >= bundle.assets@.len() {
        progress matches LayoutProgress::Continue(next) && {
            &&& next.step == LayoutStep::CreateConfig
            &&& next.index == index
            &&& next.total == before.total
            &&& next.platform == before.platform
            &&& next.keys == before.keys
        }
    } else {
        let destination = bundle.assets@[index].destination@;
        if !is_below(before.platform, destination) {
            layout_refused(
                progress,
                "runtime asset destination must be a non-traversing relative path"@,
            )
        } else if views(before.keys@).contains(key_of(before.platform, destination)) {
            layout_refused(
                progress,
                "runtime asset destination is duplicated: "@ + debug_form(destination),
            )
        } else {
            progress matches LayoutProgress::Continue(next) && {
                &&& next.step == LayoutStep::OpenSource
                &&& next.index == index
                &&& next.total == before.total
                &&& next.platform == before.platform
                &&& views(next.keys@) == views(before.keys@).push(
                    key_of(before.platform, destination),
                )
            }
        }
    }
}

/// What follows when the pending step of a layout ends.
pub open spec fn layout_follows(
    before: RuntimeLayout,
    bundle: RuntimeBundle,
    event: LayoutEvent,
    progress: LayoutProgress,
) -> bool {
    match (before.step, event) {
        (LayoutStep::SecureRuntime, LayoutEvent::Rejected(error)) => progress
            == LayoutProgress::Refused(error),
        (LayoutStep::SecureRuntime, _) => admits_next(before, bundle, 0, progress),
        (LayoutStep::OpenSource, LayoutEvent::Rejected(error)) => progress
            == LayoutProgress::Refused(error),
        (LayoutStep::OpenSource, LayoutEvent::Opened(source)) => if source.length
            > MAX_RUNTIME_ASSET_BYTES {
            layout_refused(
                progress,
                "runtime asset "@ + source.shown@ + ": "@ + "exceeds the per-file size limit"@,
            )
        } else if before.total + source.length > MAX_RUNTIME_TOTAL_ASSET_BYTES {
            layout_refused(
                progress,
                "runtime asset "@ + source.shown@ + ": "@ + "exceeds the aggregate size limit"@,
            )
        } else {
            progress == LayoutProgress::Continue(
                RuntimeLayout {
                    step: LayoutStep::CreateParent,
                    total: (before.total + source.length) as u64,
                    source,
                    ..before
                },
            )
        },
        (LayoutStep::CreateParent, LayoutEvent::Failed(error)) => layout_refused(
            progress,
            "failed to create runtime asset directory: "@ + error@,
        ),
        (LayoutStep::CreateParent, _) => moves_on(before, LayoutStep::CreateTarget, progress),
        (LayoutStep::CreateTarget, LayoutEvent::Failed(error)) => layout_refused(
            progress,
            "failed to create runtime asset target "@ + before.source.target@ + ": "@ + error@,
        ),
        (LayoutStep::CreateTarget, _) => moves_on(before, LayoutStep::CopySource, progress),
        (LayoutStep::CopySource, LayoutEvent::Failed(error)) => layout_refused(
            progress,
            "failed to copy runtime asset "@ + before.source.shown@ + ": "@ + error@,
        ),
        (LayoutStep::CopySource, LayoutEvent::Copied(copied)) => if copied != before.source.length {
            layout_refused(
                progress,
                "runtime asset "@ + before.source.shown@ + " changed while it was being copied"@,
            )
        } else {
            moves_on(before, LayoutStep::SyncTarget, progress)
        },
        (LayoutStep::SyncTarget, LayoutEvent::Failed(error)) => layout_refused(
            progress,
            "failed to sync runtime asset target "@ + before.source.target@ + ": "@ + error@,
        ),
        (LayoutStep::SyncTarget, _) => admits_next(before, bundle, before.index + 1, progress),
        (LayoutStep::CreateConfig, LayoutEvent::Failed(error)) => layout_refused(
            progress,
            "failed to create runtime config: "@ + error@,
        ),
        (LayoutStep::CreateConfig, _) => moves_on(before, LayoutStep::WriteConfig, progress),
        (LayoutStep::WriteConfig, LayoutEvent::Failed(error)) => layout_refused(
            progress,
            "failed to write runtime config: "@ + error@,
        ),
        (LayoutStep::WriteConfig, _) => moves_on(before, LayoutStep::SyncConfig, progress),
        (LayoutStep::SyncConfig, LayoutEvent::Failed(error)) => layout_refused(
            progress,
            "failed to sync runtime config: "@ + error@,
        ),
        (LayoutStep::SyncConfig, _) => progress is Complete,
        _ => false,
    }
}

fn holds_text(texts: &Vec<String>, wanted: &str) -> (held: bool)
    ensures
        held == views(texts@).contains(wanted@),
{
    for i in 0..texts.len()
        invariant
            forall|j: int| 0 <= j < i ==> views(texts@)[j] != wanted@,
    {
        if same_text(texts[i].as_str(), wanted) {
            assert(views(texts@)[i as int] == wanted@);
            return true;
        }
    }
    false
}

fn refuse(message: String) -> (progress: LayoutProgress)
    ensures
        layout_refused(progress, message@),
{
    LayoutProgress::Refused(invalid_asset(message))
}

fn admit_next(before: RuntimeLayout, bundle: &RuntimeBundle, index: usize) -> (progress:
    LayoutProgress)
    requires
        bundle_within_limits(*bundle),
        index <= bundle.assets@.len(),
        views(before.keys@) == keys_of(before.platform, *bundle, index as nat),
        destinations_sound(before.platform, *bundle, index as nat),
        before.total <= MAX_RUNTIME_TOTAL_ASSET_BYTES,
    ensures
        admits_next(before, *bundle, index as int, progress),
        progress matches LayoutProgress::Continue(next) ==> next.well_formed(*bundle),
{
    let RuntimeLayout { platform, keys, total, source, .. } = before;
    if index == bundle.assets.len() {
        return LayoutProgress::Continue(
            RuntimeLayout { platform, step: LayoutStep::CreateConfig, index, keys, total, source },
        );
    }
    let destination: String = match validate_destination(
        platform,
        bundle.assets[index].destination.as_str(),
    ) {
        Ok(destination) => destination,
        Err(refusal) => {
            return LayoutProgress::Refused(refusal);
        },
    };
    let key: String = destination_key(platform, destination.as_str());
    if holds_text(&keys, key.as_str()) {
        let shown: String = quoted(bundle.assets[index].destination.as_str());
        return refuse(joined("runtime asset destination is duplicated: ", shown.as_str()));
    }
    let ghost held = views(keys@);
    let mut keys: Vec<String> = keys;
    keys.push(key);
    assert(views(keys@) =~= held.push(key@));
    proof {
        let longer = keys_of(platform, *bundle, (index + 1) as nat);
        assert(longer =~= held.push(key@));
        assert forall|i: int, j: int|
            0 <= i < longer.len() && 0 <= j < longer.len() && i != j implies longer[i]
            != longer[j] by {
            if i < index && j < index {
                assert(held[i] != held[j]);
            } else if i < index {
                assert(held.contains(held[i]));
            } else {
                assert(held.contains(held[j]));
            }
        }
    }
    LayoutProgress::Continue(
        RuntimeLayout { platform, step: LayoutStep::OpenSource, index, keys, total, source },
    )
}

fn at_step(before: RuntimeLayout, step: LayoutStep) -> (progress: LayoutProgress)
    ensures
        moves_on(before, step, progress),
{
    let mut next: RuntimeLayout = before;
    next.step = step;
    LayoutProgress::Continue(next)
}

/// Decides what follows when the pending step of a layout has ended.
pub fn materialize_runtime(
    before: RuntimeLayout,
    bundle: &RuntimeBundle,
    event: LayoutEvent,
) -> (progress: LayoutProgress)
    requires
        before.well_formed(*bundle),
        layout_event_fits(before.step, event),
    ensures
        layout_follows(before, *bundle, event, progress),
        progress matches LayoutProgress::Continue(next) ==> next.well_formed(*bundle),
{
    let step: LayoutStep = before.step;
    match event {
        LayoutEvent::Rejected(error) => LayoutProgress::Refused(error),
        LayoutEvent::Opened(source) => {
            match checked_total_asset_bytes(before.total, source.length) {
                Err(message) => refuse(
                    joined("runtime asset ", source.shown.as_str()).concat(": ").concat(message),
                ),
                Ok(total) => {
                    let mut next: RuntimeLayout = before;
                    next.step = LayoutStep::CreateParent;
                    next.total = total;
                    next.source = source;
                    LayoutProgress::Continue(next)
                },
            }
        },
        LayoutEvent::Copied(copied) => {
            if copied != before.source.length {
                refuse(
                    joined("runtime asset ", before.source.shown.as_str()).concat(
                        " changed while it was being copied",
                    ),
                )
            } else {
                at_step(before, LayoutStep::SyncTarget)
            }
        },
        LayoutEvent::Failed(error) => match step {
            LayoutStep::CreateParent => refuse(
                joined("failed to create runtime asset directory: ", error.as_str()),
            ),
            LayoutStep::CreateTarget => refuse(
                joined(
                    "failed to create runtime asset target ",
                    before.source.target.as_str(),
                ).concat(": ").concat(error.as_str()),
            ),
            LayoutStep::CopySource => refuse(
                joined("failed to copy runtime asset ", before.source.shown.as_str()).concat(
                    ": ",
                ).concat(error.as_str()),
            ),
            LayoutStep::SyncTarget => refuse(
                joined(
                    "failed to sync runtime asset target ",
                    before.source.target.as_str(),
                ).concat(": ").concat(error.as_str()),
            ),
            LayoutStep::CreateConfig => refuse(
                joined("failed to create runtime config: ", error.as_str()),
            ),
            LayoutStep::WriteConfig => refuse(
                joined("failed to write runtime config: ", error.as_str()),
            ),
            _ => refuse(joined("failed to sync runtime config: ", error.as_str())),
        },
        LayoutEvent::Done => match step {
            LayoutStep::SecureRuntime => admit_next(before, bundle, 0),
            LayoutStep::CreateParent => at_step(before, LayoutStep::CreateTarget),
            LayoutStep::CreateTarget => at_step(before, LayoutStep::CopySource),
            LayoutStep::SyncTarget => {
                let index: usize = before.index + 1;
                admit_next(before, bundle, index)
            },
            LayoutStep::CreateConfig => at_step(before, LayoutStep::WriteConfig),
            LayoutStep::WriteConfig => at_step(before, LayoutStep::SyncConfig),
            _ => LayoutProgress::Complete,
        },
    }
}

/// The most bytes that are read from an open source: one more than it may still
/// have, so that a source that grew is found out.
pub open spec fn copy_limit_of(layout: RuntimeLayout) -> int {
    let remaining = MAX_RUNTIME_TOTAL_ASSET_BYTES - (layout.total - layout.source.length);
    if MAX_RUNTIME_ASSET_BYTES < remaining {
        MAX_RUNTIME_ASSET_BYTES + 1
    } else {
        remaining + 1
    }
}

/// The most bytes that are read from the open source.
pub fn copy_limit(layout: &RuntimeLayout) -> (limit: u64)
    requires
        layout.source.length <= layout.total <= MAX_RUNTIME_TOTAL_ASSET_BYTES,
    ensures
        limit == copy_limit_of(*layout),
{
    let remaining: u64 = MAX_RUNTIME_TOTAL_ASSET_BYTES - (layout.total - layout.source.length);
    if MAX_RUNTIME_ASSET_BYTES < remaining {
        MAX_RUNTIME_ASSET_BYTES + 1
    } else {
        remaining + 1
    }
}

/// The path of the configuration in a runtime.
pub open spec fn config_path_in(platform: Platform, runtime: Seq<char>) -> Seq<char> {
    path_in(platform, runtime, "config.yaml"@)
}

/// What the pending step of a layout works on.
#[derive(Debug)]
pub enum LayoutWork<'a> {
    SecureRuntime { runtime: &'a str },
    OpenSource { source: &'a str },
    /// The directory that the target lies in is made, and all around it.
    CreateParent { target: String },
    /// The target is created; nothing may be there yet.
    CreateTarget { target: String },
    /// At most so many bytes are copied from the source to the target.
    CopySource { limit: u64 },
    SyncTarget,
    CreateConfig { path: String },
    WriteConfig { bytes: &'a [u8] },
    SyncConfig,
}

/// Whether this is what the pending step of a layout of `bundle` in `runtime` works
/// on.
pub open spec fn works_on(
    layout: RuntimeLayout,
    bundle: RuntimeBundle,
    runtime: Seq<char>,
    work: LayoutWork,
) -> bool {
    let asset = bundle.assets@[layout.index as int];
    let target_path = path_in(layout.platform, runtime, asset.destination@);
    match layout.step {
        LayoutStep::SecureRuntime => work matches LayoutWork::SecureRuntime { runtime: secured }
            && secured@ == runtime,
        LayoutStep::OpenSource => work matches LayoutWork::OpenSource { source } && source@
            == asset.source@,
        LayoutStep::CreateParent => work matches LayoutWork::CreateParent { target } && target@
            == target_path,
        LayoutStep::CreateTarget => work matches LayoutWork::CreateTarget { target } && target@
            == target_path,
        LayoutStep::CopySource => work matches LayoutWork::CopySource { limit } && limit
            == copy_limit_of(layout),
        LayoutStep::SyncTarget => work is SyncTarget,
        LayoutStep::CreateConfig => work matches LayoutWork::CreateConfig { path } && path@
            == config_path_in(layout.platform, runtime),
        LayoutStep::WriteConfig => work matches LayoutWork::WriteConfig { bytes } && bytes@
            == vstd::utf8::encode_utf8(bundle.yaml@),
        LayoutStep::SyncConfig => work is SyncConfig,
    }
}

/// What the pending step of a layout in `runtime` works on.
pub fn layout_work<'a>(
    layout: &RuntimeLayout,
    bundle: &'a RuntimeBundle,
    runtime: &'a str,
) -> (work: LayoutWork<'a>)
    requires
        layout.well_formed(*bundle),
    ensures
        works_on(*layout, *bundle, runtime@, work),
{
    proof {
        config_lies_below(layout.platform);
    }
    match layout.step {
        LayoutStep::SecureRuntime => LayoutWork::SecureRuntime { runtime },
        LayoutStep::OpenSource => LayoutWork::OpenSource {
            source: bundle.assets[layout.index].source.as_str(),
        },
        LayoutStep::CreateParent => LayoutWork::CreateParent {
            target: join_path(
                layout.platform,
                runtime,
                bundle.assets[layout.index].destination.as_str(),
            ),
        },
        LayoutStep::CreateTarget => LayoutWork::CreateTarget {
            target: join_path(
                layout.platform,
                runtime,
                bundle.assets[layout.index].destination.as_str(),
            ),
        },
        LayoutStep::CopySource => LayoutWork::CopySource { limit: copy_limit(layout) },
        LayoutStep::SyncTarget => LayoutWork::SyncTarget,
        LayoutStep::CreateConfig => LayoutWork::CreateConfig {
            path: join_path(layout.platform, runtime, "config.yaml"),
        },
        LayoutStep::WriteConfig => LayoutWork::WriteConfig {
            bytes: bundle.yaml.as_str().as_bytes(),
        },
        LayoutStep::SyncConfig => LayoutWork::SyncConfig,
    }
}

/// The name of the configuration lies below the runtime.
pub(crate) proof fn config_lies_below(platform: Platform)
    ensures
        is_below(platform, "config.yaml"@),
{
    reveal_strlit("config.yaml");
    let name = "config.yaml"@;
    assert forall|i: int| 0 <= i < name.len() implies !is_separator(
        platform,
        #[trigger] name[i],
    ) by {}
    assert forall|f: int, t: int| #[trigger] is_piece(platform, name, f, t) implies !is_bad_piece(
        name,
        f,
        t,
    ) by {
        if f > 0 {
            assert(is_separator(platform, name[f - 1]));
        }
        if t < name.len() {
            assert(is_separator(platform, name[t]));
        }
    }
}

/// What the pending step of a layout writes, as it is spelled below the runtime.
pub open spec fn written_below(layout: RuntimeLayout, bundle: RuntimeBundle) -> Seq<char> {
    if on_asset(layout.step) {
        bundle.assets@[layout.index as int].destination@
    } else {
        "config.yaml"@
    }
}

/// The path that work writes to.
pub open spec fn written_path(work: LayoutWork) -> Option<Seq<char>> {
    match work {
        LayoutWork::CreateParent { target } => Some(target@),
        LayoutWork::CreateTarget { target } => Some(target@),
        LayoutWork::CreateConfig { path } => Some(path@),
        _ => None,
    }
}

/// Whatever a bundle brings, a layout writes only below its own runtime: what it writes
/// to begins as everything below the runtime does, and leads on through at least one
/// name, each of which names something in the directory before.
pub proof fn targets_stay_below_the_runtime(
    layout: RuntimeLayout,
    bundle: RuntimeBundle,
    runtime: Seq<char>,
    work: LayoutWork,
    i: int,
)
    requires
        layout.well_formed(bundle),
        works_on(layout, bundle, runtime, work),
    ensures
        written_path(work) matches Some(path) ==> {
            let names = names_in(layout.platform, written_below(layout, bundle));
            &&& path == path_in(layout.platform, runtime, written_below(layout, bundle))
            &&& lead_of(layout.platform, runtime).is_prefix_of(path)
            &&& names.len() > 0
            &&& 0 <= i < names.len() ==> is_plain_name(layout.platform, names[i])
        },
{
    let platform = layout.platform;
    if on_asset(layout.step) {
        let destination = bundle.assets@[layout.index as int].destination@;
        joined_path_leads_down(platform, runtime, destination, i);
    }
    if layout.step == LayoutStep::CreateConfig {
        config_lies_below(platform);
        joined_path_leads_down(platform, runtime, "config.yaml"@, i);
    }
}

/// A layout leaves all other runtimes of its owner alone: nothing that it writes
/// lies in a runtime of another name beside its own.
pub proof fn layout_leaves_other_runtimes_alone(
    layout: RuntimeLayout,
    bundle: RuntimeBundle,
    owner_root: Seq<char>,
    name: Seq<char>,
    other_name: Seq<char>,
    work: LayoutWork,
)
    requires
        layout.well_formed(bundle),
        works_on(layout, bundle, path_in(layout.platform, owner_root, name), work),
        name != other_name,
        is_below(layout.platform, name) && is_plain_name(layout.platform, name),
        is_below(layout.platform, other_name) && is_plain_name(layout.platform, other_name),
    ensures
        written_path(work) matches Some(path) ==> !lead_of(
            layout.platform,
            path_in(layout.platform, owner_root, other_name),
        ).is_prefix_of(path),
{
    let platform = layout.platform;
    let separator = joining_separator(platform);
    if let Some(path) = written_path(work) {
        let lead = lead_of(platform, owner_root);
        let own = lead + name.push(separator);
        let other = lead + other_name.push(separator);
        entry_leads_on(platform, owner_root, name);
        entry_leads_on(platform, owner_root, other_name);
        targets_stay_below_the_runtime(
            layout,
            bundle,
            path_in(platform, owner_root, name),
            work,
            0,
        );
        if other.is_prefix_of(path) {
            let start = lead.len() as int;
            assert forall|i: int| 0 <= i < other.len() implies path[i] == other[i] by {
                assert(path.subrange(0, other.len() as int)[i] == path[i]);
            }
            assert forall|i: int| 0 <= i < own.len() implies path[i] == own[i] by {
                assert(path.subrange(0, own.len() as int)[i] == path[i]);
            }
            assert(own[start + name.len()] == separator);
            assert(other[start + other_name.len()] == separator);
            if name.len() < other_name.len() {
                let at = name.len() as int;
                assert(other[start + at] == other_name[at]);
                assert(!cuts(Separators::Of(platform), other_name[at]));
            } else if other_name.len() < name.len() {
                let at = other_name.len() as int;
                assert(own[start + at] == name[at]);
                assert(!cuts(Separators::Of(platform), name[at]));
            } else {
                assert forall|i: int| 0 <= i < name.len() implies name[i] == other_name[i] by {
                    assert(own[start + i] == name[i]);
                    assert(other[start + i] == other_name[i]);
                }
                assert(name =~= other_name);
            }
        }
    }
}

/// Reading an open source up to the limit tells whether it still has the length
/// that it was opened with: fewer or more bytes than that give another count.
pub proof fn copying_finds_a_changed_source(
    layout: RuntimeLayout,
    bundle: RuntimeBundle,
    available: nat,
)
    requires
        layout.well_formed(bundle),
        on_source(layout.step),
    ensures
        ({
            let copied = if available < copy_limit_of(layout) {
                available as int
            } else {
                copy_limit_of(layout)
            };
            copied == layout.source.length <==> available == layout.source.length
        }),
{
}

/// A completed layout has all its destinations below the runtime, no two of them
/// the same, and is within the limits on the configuration and on the number of
/// assets.
pub proof fn completed_layout_is_sound(
    before: RuntimeLayout,
    bundle: RuntimeBundle,
    event: LayoutEvent,
)
    requires
        before.well_formed(bundle),
        layout_event_fits(before.step, event),
        layout_follows(before, bundle, event, LayoutProgress::Complete),
    ensures
        bundle_within_limits(bundle),
        destinations_sound(before.platform, bundle, bundle.assets@.len()),
{
    assert(before.step == LayoutStep::SyncConfig);
}

/// Whether `states` are the stages of one layout of `bundle`, `events` being how
/// its steps ended.
pub open spec fn is_layout(
    platform: Platform,
    bundle: RuntimeBundle,
    states: Seq<RuntimeLayout>,
    events: Seq<LayoutEvent>,
) -> bool {
    &&& states.len() == events.len() + 1
    &&& states[0].platform == platform
    &&& states[0].step == LayoutStep::SecureRuntime
    &&& states[0].total == 0
    &&& states[0].well_formed(bundle)
    &&& forall|i: int|
        #![trigger events[i]]
        0 <= i < events.len() ==> {
            &&& layout_event_fits(states[i].step, events[i])
            &&& layout_follows(
                states[i],
                bundle,
                events[i],
                LayoutProgress::Continue(states[i + 1]),
            )
        }
}

/// The lengths of the sources that were opened.
pub open spec fn opened_sizes(events: Seq<LayoutEvent>) -> Seq<u64>
    decreases events.len(),
{
    if events.len() == 0 {
        Seq::empty()
    } else {
        match events.last() {
            LayoutEvent::Opened(source) => opened_sizes(events.drop_last()).push(source.length),
            _ => opened_sizes(events.drop_last()),
        }
    }
}

/// The running total of a layout is the sum of the lengths of the sources that
/// were opened, and those are within the limits, each alone and all together.
pub proof fn layout_counts_every_source(
    platform: Platform,
    bundle: RuntimeBundle,
    states: Seq<RuntimeLayout>,
    events: Seq<LayoutEvent>,
)
    requires
        is_layout(platform, bundle, states, events),
    ensures
        states.last().total == sum_of(opened_sizes(events)),
        sizes_accepted(opened_sizes(events)),
    decreases events.len(),
{
    if events.len() > 0 {
        let last = events.len() - 1;
        let earlier_states = states.drop_last();
        let earlier_events = events.drop_last();
        assert(is_layout(platform, bundle, earlier_states, earlier_events)) by {
            assert forall|i: int|
                #![trigger earlier_events[i]]
                0 <= i < earlier_events.len() implies {
                &&& layout_event_fits(earlier_states[i].step, earlier_events[i])
                &&& layout_follows(
                    earlier_states[i],
                    bundle,
                    earlier_events[i],
                    LayoutProgress::Continue(earlier_states[i + 1]),
                )
            } by {
                assert(earlier_events[i] == events[i]);
            }
        }
        layout_counts_every_source(platform, bundle, earlier_states, earlier_events);
        let event = events[last];
        let sizes = opened_sizes(earlier_events);
        if let LayoutEvent::Opened(source) = event {
            assert(sizes.push(source.length).drop_last() =~= sizes);
        }
        assert(earlier_states.last() == states[last]);
    }
}

/// What holds of a layout at every step holds at the next one too.
proof fn layout_stays_well_formed(
    before: RuntimeLayout,
    bundle: RuntimeBundle,
    event: LayoutEvent,
    next: RuntimeLayout,
)
    requires
        before.well_formed(bundle),
        layout_event_fits(before.step, event),
        layout_follows(before, bundle, event, LayoutProgress::Continue(next)),
    ensures
        next.well_formed(bundle),
        next.platform == before.platform,
{
    if next.step == LayoutStep::OpenSource {
        let index = next.index as nat;
        let held = views(before.keys@);
        let longer = keys_of(next.platform, bundle, index + 1);
        let key = key_of(next.platform, bundle.assets@[next.index as int].destination@);
        assert(held == keys_of(before.platform, bundle, index));
        assert(longer =~= held.push(key));
        assert forall|i: int, j: int|
            0 <= i < longer.len() && 0 <= j < longer.len() && i != j implies longer[i]
            != longer[j] by {
            if i < index && j < index {
                assert(held[i] != held[j]);
            } else if i < index {
                assert(held.contains(held[i]));
            } else {
                assert(held.contains(held[j]));
            }
        }
    }
}

/// Every stage of a layout is well-formed.
proof fn stages_are_well_formed(
    platform: Platform,
    bundle: RuntimeBundle,
    states: Seq<RuntimeLayout>,
    events: Seq<LayoutEvent>,
    at: int,
)
    requires
        is_layout(platform, bundle, states, events),
        0 <= at < states.len(),
    ensures
        states[at].well_formed(bundle),
        states[at].platform == platform,
    decreases at,
{
    if at > 0 {
        stages_are_well_formed(platform, bundle, states, events, at - 1);
        let event = events[at - 1];
        layout_stays_well_formed(states[at - 1], bundle, event, states[at]);
    }
}

/// Whether a bundle can be laid out, as far as the bundle itself tells: it is
/// within the limits, and its destinations stay below the runtime and are all
/// different.
pub open spec fn bundle_sound(platform: Platform, bundle: RuntimeBundle) -> bool {
    bundle_within_limits(bundle) && destinations_sound(platform, bundle, bundle.assets@.len())
}

/// Whether the layout of `bundle` has come to `outcome`: it was refused before it
/// began, or `states` are its stages and `events` how they ended, the last of which
/// has ended it.
pub open spec fn layout_comes_to(
    platform: Platform,
    bundle: RuntimeBundle,
    states: Seq<RuntimeLayout>,
    events: Seq<LayoutEvent>,
    outcome: Result<(), ServiceError>,
) -> bool {
    if !bundle_within_limits(bundle) {
        outcome matches Err(refusal) && is_invalid_asset(
            refusal,
            if vstd::utf8::encode_utf8(bundle.yaml@).len() > MAX_RUNTIME_YAML_BYTES {
                "runtime YAML exceeds the 8388608-byte limit"@
            } else {
                "runtime asset count exceeds the 512-asset limit"@
            },
        )
    } else {
        &&& events.len() > 0
        &&& is_layout(platform, bundle, states, events.drop_last())
        &&& layout_event_fits(states.last().step, events.last())
        &&& layout_follows(
            states.last(),
            bundle,
            events.last(),
            match outcome {
                Ok(_) => LayoutProgress::Complete,
                Err(refusal) => LayoutProgress::Refused(refusal),
            },
        )
    }
}

/// How many steps of a layout came before one.
pub open spec fn layout_position(step: LayoutStep, index: int) -> int {
    match step {
        LayoutStep::SecureRuntime => 0,
        LayoutStep::OpenSource => 5 * index + 1,
        LayoutStep::CreateParent => 5 * index + 2,
        LayoutStep::CreateTarget => 5 * index + 3,
        LayoutStep::CopySource => 5 * index + 4,
        LayoutStep::SyncTarget => 5 * index + 5,
        LayoutStep::CreateConfig => 5 * index + 1,
        LayoutStep::WriteConfig => 5 * index + 2,
        LayoutStep::SyncConfig => 5 * index + 3,
    }
}

/// The step of a layout tells how many steps came before it.
proof fn layout_is_at(
    platform: Platform,
    bundle: RuntimeBundle,
    states: Seq<RuntimeLayout>,
    events: Seq<LayoutEvent>,
    at: int,
)
    requires
        is_layout(platform, bundle, states, events),
        0 <= at < states.len(),
    ensures
        layout_position(states[at].step, states[at].index as int) == at,
        states[at].well_formed(bundle),
        states[at].platform == platform,
    decreases at,
{
    stages_are_well_formed(platform, bundle, states, events, at);
    if at > 0 {
        layout_is_at(platform, bundle, states, events, at - 1);
        let event = events[at - 1];
    }
}

/// Whether an asset was laid out by the five steps from `first` on: its source was
/// opened, what its target lies in and the target were created, as many bytes as the
/// source had when it was opened were copied, and the target was synced.
pub open spec fn asset_is_laid_out(
    platform: Platform,
    asset: RuntimeAsset,
    runtime: Seq<char>,
    works: Seq<LayoutWork>,
    events: Seq<LayoutEvent>,
    first: int,
) -> bool {
    let target_path = path_in(platform, runtime, asset.destination@);
    &&& works[first] matches LayoutWork::OpenSource { source } && source@ == asset.source@
    &&& works[first + 1] matches LayoutWork::CreateParent { target } && target@ == target_path
    &&& works[first + 2] matches LayoutWork::CreateTarget { target } && target@ == target_path
    &&& works[first + 3] is CopySource
    &&& works[first + 4] is SyncTarget
    &&& events[first] matches LayoutEvent::Opened(opened) && events[first + 3]
        == LayoutEvent::Copied(opened.length)
    &&& events[first + 1] is Done
    &&& events[first + 2] is Done
    &&& events[first + 4] is Done
}

/// A completed layout has done all that it is for, in this order: the runtime was
/// secured; each asset in turn was opened at its source, created at its target, copied
/// to its full length and synced; and the configuration was created, written and
/// synced last. `works` is what its steps worked on.
pub proof fn completed_layout_has_all(
    platform: Platform,
    bundle: RuntimeBundle,
    runtime: Seq<char>,
    states: Seq<RuntimeLayout>,
    events: Seq<LayoutEvent>,
    works: Seq<LayoutWork>,
    asset: int,
)
    requires
        layout_comes_to(platform, bundle, states, events, Ok(())),
        works.len() == states.len(),
        forall|i: int|
            #![trigger works[i]]
            0 <= i < works.len() ==> works_on(states[i], bundle, runtime, works[i]),
    ensures
        ({
            let count = bundle.assets@.len() as int;
            let last = 5 * count + 1;
            &&& events.len() == last + 3
            &&& works.len() == last + 3
            &&& works[0] matches LayoutWork::SecureRuntime { runtime: secured } && secured@
                == runtime && events[0] is Done
            &&& 0 <= asset < count ==> asset_is_laid_out(
                platform,
                bundle.assets@[asset],
                runtime,
                works,
                events,
                5 * asset + 1,
            )
            &&& works[last] matches LayoutWork::CreateConfig { path } && path@
                == config_path_in(platform, runtime)
            &&& works[last + 1] matches LayoutWork::WriteConfig { bytes } && bytes@
                == vstd::utf8::encode_utf8(bundle.yaml@)
            &&& works[last + 2] is SyncConfig
            &&& events[last] is Done
            &&& events[last + 1] is Done
            &&& events[last + 2] is Done
        }),
{
    let earlier = events.drop_last();
    let count = bundle.assets@.len() as int;
    let last = 5 * count + 1;
    layout_is_at(platform, bundle, states, earlier, states.len() - 1);
    assert(states.last().step == LayoutStep::SyncConfig);
    assert(states.len() == last + 3);
    layout_is_at(platform, bundle, states, earlier, 0);
    layout_is_at(platform, bundle, states, earlier, last);
    layout_is_at(platform, bundle, states, earlier, last + 1);
    let _ = works[0];
    let _ = works[last];
    let _ = works[last + 1];
    let _ = works[last + 2];
    assert(earlier[0] == events[0]);
    assert(earlier[last] == events[last]);
    assert(earlier[last + 1] == events[last + 1]);
    if 0 <= asset < count {
        let first = 5 * asset + 1;
        layout_is_at(platform, bundle, states, earlier, first);
        layout_is_at(platform, bundle, states, earlier, first + 1);
        layout_is_at(platform, bundle, states, earlier, first + 2);
        layout_is_at(platform, bundle, states, earlier, first + 3);
        layout_is_at(platform, bundle, states, earlier, first + 4);
        assert(states[first].step == LayoutStep::OpenSource && states[first].index == asset);
        let _ = works[first];
        let _ = works[first + 1];
        let _ = works[first + 2];
        let _ = works[first + 3];
        let _ = works[first + 4];
        assert(earlier[first] == events[first]);
        assert(earlier[first + 1] == events[first + 1]);
        assert(earlier[first + 2] == events[first + 2]);
        assert(earlier[first + 3] == events[first + 3]);
        assert(earlier[first + 4] == events[first + 4]);
    }
}

/// Whether what is rejected is rejected as an invalid asset.
pub open spec fn rejects_invalid_assets(events: Seq<LayoutEvent>) -> bool {
    forall|i: int|
        0 <= i < events.len() ==> (#[trigger] events[i] matches LayoutEvent::Rejected(error)
            ==> error.code == ServiceErrorCode::InvalidRuntimeAsset)
}

/// A bundle with too long a configuration or too many assets, with a destination
/// that leads out of the runtime, or with two that are the same, is never laid out:
/// whatever becomes of the steps, the layout ends in a refusal. The refusal is that of
/// an invalid asset, as long as what is rejected on the way is rejected as one.
pub proof fn unsound_bundle_is_refused(
    platform: Platform,
    bundle: RuntimeBundle,
    states: Seq<RuntimeLayout>,
    events: Seq<LayoutEvent>,
    outcome: Result<(), ServiceError>,
)
    requires
        layout_comes_to(platform, bundle, states, events, outcome),
        !bundle_sound(platform, bundle),
    ensures
        outcome matches Err(refusal) && (rejects_invalid_assets(events) ==> refusal.code
            == ServiceErrorCode::InvalidRuntimeAsset),
{
    if bundle_within_limits(bundle) {
        let last = states.last();
        let event = events.last();
        stages_are_well_formed(platform, bundle, states, events.drop_last(), states.len() - 1);
        assert(events[events.len() - 1] == event);
        if outcome is Ok {
            completed_layout_is_sound(last, bundle, event);
        }
    }
}

/// A bundle is within the limits exactly where its configuration has at most eight
/// mebibytes in UTF-8 and it has at most 512 assets.
pub proof fn limits_on_bundles(bundle: RuntimeBundle)
    ensures
        bundle_within_limits(bundle) <==> vstd::utf8::encode_utf8(bundle.yaml@).len() <= 8388608
            && bundle.assets@.len() <= 512,
{
}

/// From an open source at most one byte is read beyond what it could still have: beyond
/// 128 mebibytes, and beyond what the sources before it leave of 256 mebibytes.
pub proof fn copying_stops_one_byte_beyond(layout: RuntimeLayout, bundle: RuntimeBundle)
    requires
        layout.well_formed(bundle),
        on_source(layout.step),
    ensures
        ({
            let before = layout.total - layout.source.length;
            &&& copy_limit_of(layout) <= 134217728 + 1
            &&& copy_limit_of(layout) <= 268435456 - before + 1
            &&& copy_limit_of(layout) == 134217728 + 1 || copy_limit_of(layout) == 268435456
                - before + 1
        }),
{
}

/// The source that a stage works on is the one that was opened for its asset.
proof fn source_is_the_opened_one(
    platform: Platform,
    bundle: RuntimeBundle,
    states: Seq<RuntimeLayout>,
    events: Seq<LayoutEvent>,
    at: int,
)
    requires
        is_layout(platform, bundle, states, events),
        0 <= at < states.len(),
        on_source(states[at].step),
    ensures
        events[5 * states[at].index + 1] == LayoutEvent::Opened(states[at].source),
    decreases at,
{
    layout_is_at(platform, bundle, states, events, at);
    layout_is_at(platform, bundle, states, events, at - 1);
    let _ = events[at - 1];
    if states[at].step != LayoutStep::CreateParent {
        source_is_the_opened_one(platform, bundle, states, events, at - 1);
    }
}

/// A bundle that can be laid out is laid out unless something goes wrong with a file: a
/// step fails, a source is rejected, a source has more than 128 mebibytes or all of them
/// together more than 256, or a source has not the length any more that it was opened
/// with.
pub proof fn layout_refusal_has_a_cause(
    platform: Platform,
    bundle: RuntimeBundle,
    states: Seq<RuntimeLayout>,
    events: Seq<LayoutEvent>,
    refusal: ServiceError,
)
    requires
        layout_comes_to(platform, bundle, states, events, Err(refusal)),
        bundle_sound(platform, bundle),
    ensures
        match events.last() {
            LayoutEvent::Failed(_) => true,
            LayoutEvent::Rejected(_) => true,
            LayoutEvent::Opened(source) => source.length > 134217728 || sum_of(opened_sizes(events))
                > 268435456,
            LayoutEvent::Copied(copied) => events[events.len() - 4] matches LayoutEvent::Opened(
                source,
            ) && copied != source.length,
            LayoutEvent::Done => false,
        },
{
    let earlier = events.drop_last();
    let last = states.last();
    let end = states.len() - 1;
    layout_is_at(platform, bundle, states, earlier, end);
    layout_counts_every_source(platform, bundle, states, earlier);
    match events.last() {
        LayoutEvent::Opened(source) => {
            let sizes = opened_sizes(earlier);
            assert(opened_sizes(events) == sizes.push(source.length));
            assert(sizes.push(source.length).drop_last() =~= sizes);
        },
        LayoutEvent::Copied(_) => {
            source_is_the_opened_one(platform, bundle, states, earlier, end);
            assert(earlier[end - 3] == events[end - 3]);
        },
        LayoutEvent::Done => {
            let index: int = if last.step == LayoutStep::SecureRuntime {
                0
            } else {
                last.index + 1
            };
            let all = keys_of(platform, bundle, bundle.assets@.len());
            if index < bundle.assets@.len() {
                let held = views(last.keys@);
                let key = key_of(platform, bundle.assets@[index].destination@);
                assert(is_below(platform, bundle.assets@[index].destination@));
                assert(!held.contains(key)) by {
                    if held.contains(key) {
                        let i = choose|i: int| 0 <= i < held.len() && held[i] == key;
                        assert(held == keys_of(platform, bundle, index as nat));
                        assert(all[i] == key && all[index] == key);
                    }
                }
            }
        },
        _ => {},
    }
}

/// What the refusal of a layout that has begun tells: the step that failed with its own
/// failure, and the source or the target that it was about. What was rejected is handed
/// on as it is. Where nothing failed, the next destination is refused.
pub proof fn layout_refusal_tells_the_step(
    platform: Platform,
    bundle: RuntimeBundle,
    states: Seq<RuntimeLayout>,
    events: Seq<LayoutEvent>,
    refusal: ServiceError,
)
    requires
        layout_comes_to(platform, bundle, states, events, Err(refusal)),
        bundle_within_limits(bundle),
    ensures
        !(events.last() is Rejected) ==> refusal.code == ServiceErrorCode::InvalidRuntimeAsset,
        ({
            let last = events.len() - 1;
            let told = refusal.message@;
            let source = |at: int|
                match events[at] {
                    LayoutEvent::Opened(source) => source.shown@,
                    _ => Seq::empty(),
                };
            let target = |at: int|
                match events[at] {
                    LayoutEvent::Opened(source) => source.target@,
                    _ => Seq::empty(),
                };
            match (states.last().step, events.last()) {
                (_, LayoutEvent::Rejected(error)) => refusal == error,
                (LayoutStep::CreateParent, LayoutEvent::Failed(error)) => told
                    == "failed to create runtime asset directory: "@ + error@,
                (LayoutStep::CreateTarget, LayoutEvent::Failed(error)) => told
                    == "failed to create runtime asset target "@ + target(last - 2) + ": "@
                    + error@,
                (LayoutStep::CopySource, LayoutEvent::Failed(error)) => told
                    == "failed to copy runtime asset "@ + source(last - 3) + ": "@ + error@,
                (LayoutStep::SyncTarget, LayoutEvent::Failed(error)) => told
                    == "failed to sync runtime asset target "@ + target(last - 4) + ": "@ + error@,
                (LayoutStep::CreateConfig, LayoutEvent::Failed(error)) => told
                    == "failed to create runtime config: "@ + error@,
                (LayoutStep::WriteConfig, LayoutEvent::Failed(error)) => told
                    == "failed to write runtime config: "@ + error@,
                (LayoutStep::SyncConfig, LayoutEvent::Failed(error)) => told
                    == "failed to sync runtime config: "@ + error@,
                (_, LayoutEvent::Failed(_)) => false,
                (_, LayoutEvent::Opened(opened)) => told == "runtime asset "@ + opened.shown@
                    + ": "@ + (if opened.length > 134217728 {
                    "exceeds the per-file size limit"@
                } else {
                    "exceeds the aggregate size limit"@
                }),
                (_, LayoutEvent::Copied(_)) => told == "runtime asset "@ + source(last - 3)
                    + " changed while it was being copied"@,
                (_, LayoutEvent::Done) => {
                    let destination = bundle.assets@[last / 5].destination@;
                    if !is_below(platform, destination) {
                        told == "runtime asset destination must be a non-traversing relative path"@
                    } else {
                        told == "runtime asset destination is duplicated: "@ + debug_form(
                            destination,
                        )
                    }
                },
            }
        }),
{
    let earlier = events.drop_last();
    let end = states.len() - 1;
    layout_is_at(platform, bundle, states, earlier, end);
    if on_source(states.last().step) {
        source_is_the_opened_one(platform, bundle, states, earlier, end);
        let first = 5 * states.last().index + 1;
        assert(earlier[first] == events[first]);
    }
    if states.last().step == LayoutStep::SyncTarget {
        assert(end / 5 == states.last().index + 1);
    }
}

/// Whether beginning a layout came to this.
pub open spec fn layout_begins(
    platform: Platform,
    bundle: RuntimeBundle,
    begun: Result<RuntimeLayout, ServiceError>,
) -> bool {
    match begun {
        Ok(layout) => {
            &&& bundle_within_limits(bundle)
            &&& is_layout(platform, bundle, seq![layout], Seq::empty())
        },
        Err(refusal) => layout_comes_to(platform, bundle, Seq::empty(), Seq::empty(), Err(refusal))
            && !bundle_within_limits(bundle),
    }
}

/// A layout begins with securing the runtime, for a bundle that is not too large. One
/// that is is refused at once, for its configuration where that has more than eight
/// mebibytes, and else for the number of its assets.
pub proof fn large_bundles_are_refused_at_once(
    platform: Platform,
    bundle: RuntimeBundle,
    begun: Result<RuntimeLayout, ServiceError>,
)
    requires
        layout_begins(platform, bundle, begun),
    ensures
        begun matches Ok(layout) ==> layout.step == LayoutStep::SecureRuntime && layout.index == 0
            && layout.total == 0 && layout.platform == platform && layout.keys@.len() == 0,
        ({
            let bytes = vstd::utf8::encode_utf8(bundle.yaml@).len();
            &&& begun is Ok <==> bytes <= 8388608 && bundle.assets@.len() <= 512
            &&& begun matches Err(refusal) ==> refusal.code
                == ServiceErrorCode::InvalidRuntimeAsset && refusal.message@ == (if bytes
                > 8388608 {
                "runtime YAML exceeds the 8388608-byte limit"@
            } else {
                "runtime asset count exceeds the 512-asset limit"@
            })
        }),
{
    if let Ok(layout) = begun {
        assert(seq![layout][0].well_formed(bundle));
        assert(views(layout.keys@).len() == keys_of(platform, bundle, 0).len());
    }
}

/// Of a layout that has come to its end, every destination lies below the runtime, and no
/// two of them are one and the same there.
pub proof fn laid_out_destinations_differ(
    platform: Platform,
    bundle: RuntimeBundle,
    states: Seq<RuntimeLayout>,
    events: Seq<LayoutEvent>,
    i: int,
    j: int,
)
    requires
        layout_comes_to(platform, bundle, states, events, Ok(())),
        0 <= i < bundle.assets@.len(),
        0 <= j < bundle.assets@.len(),
        i != j,
    ensures
        is_below(platform, bundle.assets@[i].destination@),
        key_of(platform, bundle.assets@[i].destination@) != key_of(
            platform,
            bundle.assets@[j].destination@,
        ),
{
    let earlier = events.drop_last();
    stages_are_well_formed(platform, bundle, states, earlier, states.len() - 1);
    completed_layout_is_sound(states.last(), bundle, events.last());
    let keys = keys_of(platform, bundle, bundle.assets@.len());
    assert(keys[i] != keys[j]);
    assert(is_below(platform, bundle.assets@[i].destination@));
}

/// What each step of a layout is handed: the runtime, the asset that it has come to with
/// its own source and destination, how much may be copied of it, or the configuration as
/// the bundle brings it.
pub proof fn steps_work_on_their_asset(
    layout: RuntimeLayout,
    bundle: RuntimeBundle,
    runtime: Seq<char>,
    work: LayoutWork,
)
    requires
        layout.well_formed(bundle),
        works_on(layout, bundle, runtime, work),
    ensures
        ({
            let asset = bundle.assets@[layout.index as int];
            let before = layout.total - layout.source.length;
            match work {
                LayoutWork::SecureRuntime { runtime: secured } => layout.step
                    == LayoutStep::SecureRuntime && secured@ == runtime,
                LayoutWork::OpenSource { source } => layout.step == LayoutStep::OpenSource
                    && source@ == asset.source@,
                LayoutWork::CreateParent { target } => layout.step == LayoutStep::CreateParent
                    && target@ == path_in(layout.platform, runtime, asset.destination@),
                LayoutWork::CreateTarget { target } => layout.step == LayoutStep::CreateTarget
                    && target@ == path_in(layout.platform, runtime, asset.destination@),
                LayoutWork::CopySource { limit } => layout.step == LayoutStep::CopySource && limit
                    == 1 + (if before <= 134217728 {
                    134217728
                } else {
                    268435456 - before
                }),
                LayoutWork::SyncTarget => layout.step == LayoutStep::SyncTarget,
                LayoutWork::CreateConfig { path } => layout.step == LayoutStep::CreateConfig
                    && path@ == path_in(layout.platform, runtime, "config.yaml"@),
                LayoutWork::WriteConfig { bytes } => layout.step == LayoutStep::WriteConfig
                    && bytes@ == vstd::utf8::encode_utf8(bundle.yaml@),
                LayoutWork::SyncConfig => layout.step == LayoutStep::SyncConfig,
            }
        }),
{
}

} // verus!
