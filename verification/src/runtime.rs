//! Runtime generations: the directories that a core runs from. How they are
//! named, when they are discarded, and which of them are stale.
use crate::error::{invalid_asset, is_invalid_asset, ServiceError, ServiceErrorCode};
use crate::native::{
    error_access_denied, error_delete_pending, error_dir_not_empty, error_sharing_violation,
    Platform,
};
use crate::paths::{PathPartView, ServicePath};
use crate::text::{
    decimal, decimal_is_digits, decimal_is_injective, decimal_reads_back, decimal_text,
    decimal_value, joined, same_text, starts_with,
};
use vstd::prelude::*;
use vstd::string::*;

verus! {

/// What a core is started with.
#[derive(Debug)]
pub struct CoreConfig {
    pub core_path: String,
    pub core_ipc_path: String,
    pub config_path: String,
    pub config_dir: String,
}

/// How the log of a core is written: the directory it goes to, and all else that
/// the writer is set to, which nothing here looks into.
#[derive(Debug)]
pub struct WriterConfig<R> {
    pub directory: String,
    pub rest: R,
}

/// What a core is started with, and where its log goes. All else that the writer
/// is set to is as the writer has it by itself.
#[derive(Debug)]
pub struct ClashConfig {
    pub core_config: CoreConfig,
    pub log_config: WriterConfig<()>,
}

/// What may become of a prepared runtime that is given up.
#[derive(Clone, Copy, Debug, PartialEq, Eq, Structural)]
pub enum PreparedRuntimeState {
    /// No core has been started from it.
    Unused,
    /// A core may be running from it.
    MayBeInUse,
    /// It was committed, or it is gone.
    Finalized,
}

/// What giving up a prepared runtime calls for.
#[derive(Clone, Copy, Debug, PartialEq, Eq, Structural)]
pub enum DropAction {
    Nothing,
    LeaveDirectory,
    RemoveDirectory,
}

/// A runtime generation that has been laid out, and the older ones that it
/// makes stale.
#[derive(Debug)]
pub struct PreparedRuntime {
    pub clash_config: ClashConfig,
    pub runtime: String,
    pub stale_runtime_paths: Vec<String>,
    pub state: PreparedRuntimeState,
}

/// What becomes of the directory of a runtime that is given up in this state.
pub open spec fn drop_action_of(state: PreparedRuntimeState) -> DropAction {
    match state {
        PreparedRuntimeState::Finalized => DropAction::Nothing,
        PreparedRuntimeState::MayBeInUse => DropAction::LeaveDirectory,
        PreparedRuntimeState::Unused => DropAction::RemoveDirectory,
    }
}

impl PreparedRuntime {
    /// What the core is started with.
    pub fn clash_config(&self) -> (config: &ClashConfig)
        ensures
            *config == self.clash_config,
    {
        &self.clash_config
    }

    /// From here on a core may be running from the runtime.
    pub fn mark_may_be_in_use(&mut self)
        ensures
            *final(self) == (PreparedRuntime {
                state: PreparedRuntimeState::MayBeInUse,
                ..*old(self)
            }),
    {
        self.state = PreparedRuntimeState::MayBeInUse;
    }

    /// Whether no core has been started from the runtime.
    pub fn is_unused(&self) -> (unused: bool)
        ensures
            unused == (self.state == PreparedRuntimeState::Unused),
    {
        self.state == PreparedRuntimeState::Unused
    }

    /// Begins to discard a runtime whose core has stopped, or never ran.
    pub fn begin_discard(&mut self)
        ensures
            *final(self) == (PreparedRuntime {
                state: PreparedRuntimeState::Unused,
                ..*old(self)
            }),
    {
        self.state = PreparedRuntimeState::Unused;
    }

    /// Ends a discard by how the removal of the directory went. `shown` is the
    /// directory and `found` the state of the path, as messages show them.
    pub fn discard_after_core_stopped(
        &mut self,
        removal: Result<(), String>,
        shown: &str,
        found: &str,
    ) -> (discarded: Result<(), ServiceError>)
        ensures
            *final(self) == (PreparedRuntime {
                state: if removal is Ok {
                    PreparedRuntimeState::Finalized
                } else {
                    PreparedRuntimeState::Unused
                },
                ..*old(self)
            }),
            discarded is Ok <==> removal is Ok,
            discarded matches Err(refusal) ==> is_invalid_asset(
                refusal,
                "failed to discard prepared runtime "@ + shown@ + ": "@ + removal->Err_0@
                    + "; state="@ + found@,
            ),
            discard_follows(*old(self), removal, shown@, found@, *final(self), discarded),
    {
        match removal {
            Ok(()) => {
                self.state = PreparedRuntimeState::Finalized;
                Ok(())
            },
            Err(error) => {
                self.state = PreparedRuntimeState::Unused;
                Err(
                    invalid_asset(
                        joined("failed to discard prepared runtime ", shown).concat(": ").concat(
                            error.as_str(),
                        ).concat("; state=").concat(found),
                    ),
                )
            },
        }
    }

    /// Makes the runtime the committed one and hands out the stale directories
    /// that are to be removed.
    pub fn commit(&mut self) -> (stale: Vec<String>)
        ensures
            stale == old(self).stale_runtime_paths,
            final(self).state == PreparedRuntimeState::Finalized,
            final(self).stale_runtime_paths@.len() == 0,
            final(self).clash_config == old(self).clash_config,
            final(self).runtime == old(self).runtime,
            commit_of_runtime_follows(*old(self), *final(self), stale),
    {
        self.state = PreparedRuntimeState::Finalized;
        let mut stale: Vec<String> = Vec::new();
        std::mem::swap(&mut stale, &mut self.stale_runtime_paths);
        stale
    }

    /// What becomes of the directory when the runtime is given up: it goes only
    /// where no core can be running from it and it was not committed.
    pub fn drop_action(&self) -> (action: DropAction)
        ensures
            action == (match self.state {
                PreparedRuntimeState::Finalized => DropAction::Nothing,
                PreparedRuntimeState::MayBeInUse => DropAction::LeaveDirectory,
                PreparedRuntimeState::Unused => DropAction::RemoveDirectory,
            }),
            action == drop_action_of(self.state),
    {
        match self.state {
            PreparedRuntimeState::Finalized => DropAction::Nothing,
            PreparedRuntimeState::MayBeInUse => DropAction::LeaveDirectory,
            PreparedRuntimeState::Unused => DropAction::RemoveDirectory,
        }
    }
}

/// What looking at a path, without following links, gave.
#[derive(Debug)]
pub enum PathProbe {
    Found { is_symlink: bool, is_dir: bool, is_file: bool },
    Missing,
    Inaccessible(String),
}

/// The word for what stands at a path.
pub open spec fn path_state(probe: PathProbe) -> Seq<char> {
    match probe {
        PathProbe::Found { is_symlink, is_dir, is_file } => if is_symlink {
            "symlink"@
        } else if is_dir {
            "directory"@
        } else if is_file {
            "file"@
        } else {
            "other"@
        },
        PathProbe::Missing => "missing"@,
        PathProbe::Inaccessible(error) => "inaccessible: "@ + error@,
    }
}

/// The word for what stands at a path.
pub fn inspect_path(probe: &PathProbe) -> (state: String)
    ensures
        state@ == path_state(*probe),
{
    match probe {
        PathProbe::Found { is_symlink, is_dir, is_file } => {
            if *is_symlink {
                "symlink".to_owned()
            } else if *is_dir {
                "directory".to_owned()
            } else if *is_file {
                "file".to_owned()
            } else {
                "other".to_owned()
            }
        },
        PathProbe::Missing => "missing".to_owned(),
        PathProbe::Inaccessible(error) => joined("inaccessible: ", error.as_str()),
    }
}

/// Whether a name in an owner's directory is that of a runtime.
pub open spec fn is_runtime_name(name: Seq<char>) -> bool {
    ||| name == "runtime"@
    ||| name == "runtime.backup"@
    ||| "runtime.generation-"@.is_prefix_of(name)
    ||| "runtime.staging-"@.is_prefix_of(name)
}

/// Whether a name in an owner's directory is that of a runtime.
pub fn names_runtime(name: &str) -> (is_runtime: bool)
    ensures
        is_runtime == is_runtime_name(name@),
{
    same_text(name, "runtime") || same_text(name, "runtime.backup") || starts_with(
        name,
        "runtime.generation-",
    ) || starts_with(name, "runtime.staging-")
}

/// An entry of an owner's directory.
#[derive(Debug)]
pub struct RuntimeEntry {
    pub path: ServicePath,
    pub name: String,
}

/// Whether an entry is a runtime other than the active one.
pub open spec fn is_stale(entry: RuntimeEntry, active: Seq<PathPartView>) -> bool {
    entry.path@ != active && is_runtime_name(entry.name@)
}

/// The positions, below `count`, of the stale entries.
pub open spec fn stale_positions(
    entries: Seq<RuntimeEntry>,
    active: Seq<PathPartView>,
    count: nat,
) -> Seq<usize>
    decreases count,
{
    if count == 0 {
        Seq::empty()
    } else {
        let earlier = stale_positions(entries, active, (count - 1) as nat);
        if is_stale(entries[count - 1], active) {
            earlier.push((count - 1) as usize)
        } else {
            earlier
        }
    }
}

/// The positions of the entries that the runtime `active` makes stale, in the
/// order of the entries.
pub fn snapshot_stale_runtime_directories(
    entries: &Vec<RuntimeEntry>,
    active: &ServicePath,
) -> (stale: Vec<usize>)
    ensures
        stale@ == stale_positions(entries@, active@, entries@.len()),
{
    let mut stale: Vec<usize> = Vec::new();
    for i in 0..entries.len()
        invariant
            stale@ == stale_positions(entries@, active@, i as nat),
    {
        if !entries[i].path.same(active) && names_runtime(entries[i].name.as_str()) {
            stale.push(i);
        }
    }
    stale
}

/// A snapshot holds exactly the runtimes that stood there and are not active:
/// `runtime`, `runtime.backup`, generations and staging directories, never the active
/// one, nothing that is no runtime, and nothing that came later.
pub proof fn snapshot_is_exact(
    entries: Seq<RuntimeEntry>,
    active: Seq<PathPartView>,
    position: usize,
)
    requires
        entries.len() <= usize::MAX,
    ensures
        stale_positions(entries, active, entries.len()).contains(position) <==> position
            < entries.len() && entries[position as int].path@ != active && {
            let name = entries[position as int].name@;
            ||| name == "runtime"@
            ||| name == "runtime.backup"@
            ||| "runtime.generation-"@.is_prefix_of(name)
            ||| "runtime.staging-"@.is_prefix_of(name)
        },
{
    snapshot_is_exact_below(entries, active, entries.len(), position);
}

proof fn snapshot_is_exact_below(
    entries: Seq<RuntimeEntry>,
    active: Seq<PathPartView>,
    count: nat,
    position: usize,
)
    requires
        count <= entries.len() <= usize::MAX,
    ensures
        stale_positions(entries, active, count).contains(position) <==> position < count
            && is_stale(entries[position as int], active),
    decreases count,
{
    if count > 0 {
        let earlier = stale_positions(entries, active, (count - 1) as nat);
        snapshot_is_exact_below(entries, active, (count - 1) as nat, position);
        let pushed = earlier.push((count - 1) as usize);
        if earlier.contains(position) {
            let k = choose|k: int| 0 <= k < earlier.len() && earlier[k] == position;
            assert(pushed[k] == position);
        }
        assert(pushed[earlier.len() as int] == (count - 1) as usize);
        assert forall|k: int| 0 <= k < pushed.len() && pushed[k] == position implies k
            == earlier.len() || earlier.contains(position) by {
            if k < earlier.len() {
                assert(earlier[k] == position);
            }
        }
    }
}

/// How an attempt to remove a directory went.
#[derive(Clone, Copy, Debug, PartialEq, Eq, Structural)]
pub enum RemovalOutcome {
    Removed,
    NotFound,
    Failed { raw_os_error: Option<i32> },
}

/// What follows an attempt to remove a directory.
#[derive(Clone, Copy, Debug, PartialEq, Eq, Structural)]
pub enum RemovalStep {
    Done,
    RetryAfter { delay_ms: u64 },
    GiveUp,
}

/// How often the removal of a directory is retried at most.
pub const RETRY_LIMIT: usize = 6;

/// The pause before the retry with this index, in milliseconds.
pub open spec fn retry_pause(retry_index: int) -> u64 {
    if retry_index == 0 {
        25
    } else if retry_index == 1 {
        50
    } else if retry_index == 2 {
        100
    } else if retry_index == 3 {
        200
    } else if retry_index == 4 {
        400
    } else {
        800
    }
}

/// Whether Windows reports with this code that a directory is held for a
/// moment: access denied, a sharing violation, a directory that is not empty
/// yet, a deletion that is pending.
pub open spec fn is_transient(raw_os_error: Option<i32>) -> bool {
    raw_os_error matches Some(code) && (code == 5 || code == 32 || code == 145 || code == 303)
}

/// The pause before a failed removal is retried: on Windows, for a failure that
/// passes, up to the limit; else none.
pub fn runtime_cleanup_retry_delay(
    platform: Platform,
    raw_os_error: Option<i32>,
    retry_index: usize,
) -> (delay_ms: Option<u64>)
    ensures
        delay_ms == (if platform == Platform::Windows && is_transient(raw_os_error) && retry_index
            < RETRY_LIMIT {
            Some(retry_pause(retry_index as int))
        } else {
            None
        }),
{
    if platform != Platform::Windows {
        return None;
    }
    let code: i32 = match raw_os_error {
        Some(code) => code,
        None => {
            return None;
        },
    };
    if code != error_access_denied() as i32 && code != error_sharing_violation() as i32 && code
        != error_dir_not_empty() as i32 && code != error_delete_pending() as i32 {
        return None;
    }
    match retry_index {
        0 => Some(25),
        1 => Some(50),
        2 => Some(100),
        3 => Some(200),
        4 => Some(400),
        5 => Some(800),
        _ => None,
    }
}

/// What follows an attempt to remove a directory.
pub open spec fn removal_step(
    platform: Platform,
    retry_index: usize,
    outcome: RemovalOutcome,
) -> RemovalStep {
    match outcome {
        RemovalOutcome::Removed => RemovalStep::Done,
        RemovalOutcome::NotFound => RemovalStep::Done,
        RemovalOutcome::Failed { raw_os_error } => if platform == Platform::Windows && is_transient(
            raw_os_error,
        ) && retry_index < RETRY_LIMIT {
            RemovalStep::RetryAfter { delay_ms: retry_pause(retry_index as int) }
        } else {
            RemovalStep::GiveUp
        },
    }
}

/// Decides what follows an attempt to remove a directory: a directory that is
/// not there counts as removed.
pub fn remove_runtime_directory(
    platform: Platform,
    retry_index: usize,
    outcome: RemovalOutcome,
) -> (step: RemovalStep)
    ensures
        step == (match outcome {
            RemovalOutcome::Removed => RemovalStep::Done,
            RemovalOutcome::NotFound => RemovalStep::Done,
            RemovalOutcome::Failed { raw_os_error } => if platform == Platform::Windows
                && is_transient(raw_os_error) && retry_index < RETRY_LIMIT {
                RemovalStep::RetryAfter { delay_ms: retry_pause(retry_index as int) }
            } else {
                RemovalStep::GiveUp
            },
        }),
        step == removal_step(platform, retry_index, outcome),
{
    match outcome {
        RemovalOutcome::Removed => RemovalStep::Done,
        RemovalOutcome::NotFound => RemovalStep::Done,
        RemovalOutcome::Failed { raw_os_error } => match runtime_cleanup_retry_delay(
            platform,
            raw_os_error,
            retry_index,
        ) {
            Some(delay_ms) => RemovalStep::RetryAfter { delay_ms },
            None => RemovalStep::GiveUp,
        },
    }
}

/// The pauses before the retries with an index below `count`, together.
pub open spec fn total_pause(count: nat) -> nat
    decreases count,
{
    if count == 0 {
        0
    } else {
        total_pause((count - 1) as nat) + retry_pause(count - 1) as nat
    }
}

/// However a directory resists, its removal is not retried for longer than the
/// six pauses take together.
pub proof fn removal_pauses_are_bounded(retries: nat)
    requires
        retries <= RETRY_LIMIT,
    ensures
        total_pause(retries) <= 1575,
{
    reveal_with_fuel(total_pause, 7);
}

/// The name of a runtime generation: the process, a time and a sequence number.
pub open spec fn generation_name_of(process: nat, timestamp: nat, sequence: nat) -> Seq<char> {
    "runtime.generation-"@ + decimal(process) + "-"@ + decimal(timestamp) + "-"@ + decimal(sequence)
}

/// The name of a runtime generation.
pub fn generation_name(process: u32, timestamp: u128, sequence: u64) -> (name: String)
    ensures
        name@ == generation_name_of(process as nat, timestamp as nat, sequence as nat),
{
    let id: String = decimal_text(process as u128);
    let time: String = decimal_text(timestamp);
    let number: String = decimal_text(sequence as u128);
    joined("runtime.generation-", id.as_str()).concat("-").concat(time.as_str()).concat("-").concat(
        number.as_str(),
    )
}

/// Digits before a dash can be told from what stands behind it.
proof fn digits_end_at_dash(a: Seq<char>, b: Seq<char>, rest_a: Seq<char>, rest_b: Seq<char>)
    requires
        forall|i: int| 0 <= i < a.len() ==> '0' <= #[trigger] a[i] && a[i] <= '9',
        forall|i: int| 0 <= i < b.len() ==> '0' <= #[trigger] b[i] && b[i] <= '9',
        a + seq!['-'] + rest_a == b + seq!['-'] + rest_b,
    ensures
        a == b,
        rest_a == rest_b,
{
    let whole_a = a + seq!['-'] + rest_a;
    let whole_b = b + seq!['-'] + rest_b;
    assert(whole_a[a.len() as int] == '-');
    assert(whole_b[b.len() as int] == '-');
    if a.len() < b.len() {
        assert(whole_b[a.len() as int] == b[a.len() as int]);
    }
    if b.len() < a.len() {
        assert(whole_a[b.len() as int] == a[b.len() as int]);
    }
    assert(a.len() == b.len());
    assert forall|i: int| 0 <= i < a.len() implies a[i] == b[i] by {
        assert(whole_a[i] == a[i] && whole_b[i] == b[i]);
    }
    assert(a =~= b);
    assert(rest_a =~= whole_a.skip(a.len() as int + 1));
    assert(rest_b =~= whole_b.skip(b.len() as int + 1));
}

/// Generations of different processes, times or sequence numbers have different
/// names.
pub proof fn generation_names_are_unique(
    process_a: nat,
    timestamp_a: nat,
    sequence_a: nat,
    process_b: nat,
    timestamp_b: nat,
    sequence_b: nat,
)
    requires
        generation_name_of(process_a, timestamp_a, sequence_a) == generation_name_of(
            process_b,
            timestamp_b,
            sequence_b,
        ),
    ensures
        process_a == process_b,
        timestamp_a == timestamp_b,
        sequence_a == sequence_b,
{
    reveal_strlit("runtime.generation-");
    reveal_strlit("-");
    assert("-"@ =~= seq!['-']);
    let lead = "runtime.generation-"@;
    let tail_a = decimal(timestamp_a) + seq!['-'] + decimal(sequence_a);
    let tail_b = decimal(timestamp_b) + seq!['-'] + decimal(sequence_b);
    let name_a = generation_name_of(process_a, timestamp_a, sequence_a);
    let name_b = generation_name_of(process_b, timestamp_b, sequence_b);
    assert(name_a.skip(lead.len() as int) =~= decimal(process_a) + seq!['-'] + tail_a);
    assert(name_b.skip(lead.len() as int) =~= decimal(process_b) + seq!['-'] + tail_b);
    decimal_is_digits(process_a);
    decimal_is_digits(process_b);
    decimal_is_digits(timestamp_a);
    decimal_is_digits(timestamp_b);
    digits_end_at_dash(decimal(process_a), decimal(process_b), tail_a, tail_b);
    digits_end_at_dash(
        decimal(timestamp_a),
        decimal(timestamp_b),
        decimal(sequence_a),
        decimal(sequence_b),
    );
    decimal_is_injective(process_a, process_b);
    decimal_is_injective(timestamp_a, timestamp_b);
    decimal_is_injective(sequence_a, sequence_b);
}

/// A generation bears the name of a runtime, so that a later snapshot collects
/// it.
pub proof fn generations_are_collected(process: nat, timestamp: nat, sequence: nat)
    ensures
        is_runtime_name(generation_name_of(process, timestamp, sequence)),
{
    let lead = "runtime.generation-"@;
    let name = generation_name_of(process, timestamp, sequence);
    assert(name.subrange(0, lead.len() as int) =~= lead);
}

/// How an attempt to create the directory of a generation went.
#[derive(Debug)]
pub enum CreationOutcome {
    Created,
    AlreadyExists,
    Failed { error: String, found: String },
}

/// What follows an attempt to create the directory of a generation.
#[derive(Debug)]
pub enum GenerationStep {
    Created,
    TryAnother { attempts: usize },
    Refused(ServiceError),
}

/// How many names are tried for a new generation.
pub const MAX_COLLISION_RETRIES: usize = 16;

/// What follows the attempt number `attempts` to create the directory `shown`.
pub open spec fn generation_follows(
    attempts: int,
    shown: Seq<char>,
    outcome: CreationOutcome,
    step: GenerationStep,
) -> bool {
    match outcome {
        CreationOutcome::Created => step is Created,
        CreationOutcome::AlreadyExists => if attempts + 1 < MAX_COLLISION_RETRIES {
            step == (GenerationStep::TryAnother { attempts: (attempts + 1) as usize })
        } else {
            step matches GenerationStep::Refused(refusal) && is_invalid_asset(
                refusal,
                "failed to allocate a unique runtime generation after 16 attempts; last_collision=Some("@
                    + shown + ")"@,
            )
        },
        CreationOutcome::Failed { error, found } => step matches GenerationStep::Refused(refusal)
            && is_invalid_asset(
            refusal,
            "failed to create runtime generation "@ + shown + ": "@ + error@ + "; state="@ + found@,
        ),
    }
}

/// Decides what follows the attempt number `attempts`, counted from zero, to
/// create the directory `shown`: a name that is taken is replaced by another
/// one, up to the limit.
pub fn create_runtime_generation(
    attempts: usize,
    shown: &str,
    outcome: CreationOutcome,
) -> (step: GenerationStep)
    requires
        attempts < MAX_COLLISION_RETRIES,
    ensures
        match outcome {
            CreationOutcome::Created => step is Created,
            CreationOutcome::AlreadyExists => if attempts + 1 < MAX_COLLISION_RETRIES {
                step == (GenerationStep::TryAnother { attempts: (attempts + 1) as usize })
            } else {
                step matches GenerationStep::Refused(refusal) && is_invalid_asset(
                    refusal,
                    "failed to allocate a unique runtime generation after 16 attempts; last_collision=Some("@
                        + shown@ + ")"@,
                )
            },
            CreationOutcome::Failed { error, found } => step matches GenerationStep::Refused(
                refusal,
            ) && is_invalid_asset(
                refusal,
                "failed to create runtime generation "@ + shown@ + ": "@ + error@ + "; state="@
                    + found@,
            ),
        },
        generation_follows(attempts as int, shown@, outcome, step),
{
    match outcome {
        CreationOutcome::Created => GenerationStep::Created,
        CreationOutcome::AlreadyExists => {
            if attempts + 1 < MAX_COLLISION_RETRIES {
                GenerationStep::TryAnother { attempts: attempts + 1 }
            } else {
                GenerationStep::Refused(
                    invalid_asset(
                        joined(
                            "failed to allocate a unique runtime generation after 16 attempts; last_collision=Some(",
                            shown,
                        ).concat(")"),
                    ),
                )
            }
        },
        CreationOutcome::Failed { error, found } => GenerationStep::Refused(
            invalid_asset(
                joined("failed to create runtime generation ", shown).concat(": ").concat(
                    error.as_str(),
                ).concat("; state=").concat(found.as_str()),
            ),
        ),
    }
}

/// A name in an owner's directory is that of a runtime exactly where it is `runtime`
/// or `runtime.backup`, or is what a generation or a staging directory is called,
/// whatever stands behind that.
pub proof fn runtimes_are_known_by_their_names(name: Seq<char>, rest: Seq<char>)
    ensures
        is_runtime_name("runtime"@),
        is_runtime_name("runtime.backup"@),
        is_runtime_name("runtime.generation-"@ + rest),
        is_runtime_name("runtime.staging-"@ + rest),
        is_runtime_name(name) ==> {
            ||| name == "runtime"@
            ||| name == "runtime.backup"@
            ||| name == "runtime.generation-"@ + name.skip(19)
            ||| name == "runtime.staging-"@ + name.skip(16)
        },
{
    reveal_strlit("runtime.generation-");
    reveal_strlit("runtime.staging-");
    let generation = "runtime.generation-"@;
    let staging = "runtime.staging-"@;
    assert((generation + rest).subrange(0, 19) =~= generation);
    assert((staging + rest).subrange(0, 16) =~= staging);
    if generation.is_prefix_of(name) {
        assert(name =~= name.subrange(0, 19) + name.skip(19));
    }
    if staging.is_prefix_of(name) {
        assert(name =~= name.subrange(0, 16) + name.skip(16));
    }
}

/// The positions of a snapshot come in the order of the entries, each once.
pub proof fn snapshot_is_in_order(
    entries: Seq<RuntimeEntry>,
    active: Seq<PathPartView>,
    i: int,
    j: int,
)
    requires
        entries.len() <= usize::MAX,
        0 <= i < j < stale_positions(entries, active, entries.len()).len(),
    ensures
        stale_positions(entries, active, entries.len())[i] < stale_positions(
            entries,
            active,
            entries.len(),
        )[j] < entries.len(),
{
    positions_are_in_order(entries, active, entries.len(), i, j);
}

proof fn positions_are_in_order(
    entries: Seq<RuntimeEntry>,
    active: Seq<PathPartView>,
    count: nat,
    i: int,
    j: int,
)
    requires
        count <= entries.len() <= usize::MAX,
        0 <= i <= j < stale_positions(entries, active, count).len(),
    ensures
        stale_positions(entries, active, count)[j] < count,
        i < j ==> stale_positions(entries, active, count)[i] < stale_positions(
            entries,
            active,
            count,
        )[j],
    decreases count,
{
    let earlier = stale_positions(entries, active, (count - 1) as nat);
    if j < earlier.len() {
        positions_are_in_order(entries, active, (count - 1) as nat, i, j);
    } else if i < j {
        positions_are_in_order(entries, active, (count - 1) as nat, i, i);
    }
}

/// A removal is retried on Windows alone, for the four codes by which Windows tells
/// that a directory is held for a moment, and at most six times; each pause is twice
/// as long as the one before, the first one 25 milliseconds. Whatever is removed, or
/// was not there, is done with at once.
pub proof fn removals_are_retried_while_they_may_pass(
    platform: Platform,
    retry_index: usize,
    code: i32,
)
    ensures
        removal_step(platform, retry_index, RemovalOutcome::Removed) == RemovalStep::Done,
        removal_step(platform, retry_index, RemovalOutcome::NotFound) == RemovalStep::Done,
        removal_step(platform, retry_index, RemovalOutcome::Failed { raw_os_error: None })
            == RemovalStep::GiveUp,
        removal_step(platform, retry_index, RemovalOutcome::Failed { raw_os_error: Some(code) })
            is RetryAfter <==> {
            &&& platform == Platform::Windows
            &&& code == 5 || code == 32 || code == 145 || code == 303
            &&& retry_index < 6
        },
        !(removal_step(
            platform,
            retry_index,
            RemovalOutcome::Failed { raw_os_error: Some(code) },
        ) is RetryAfter) ==> removal_step(
            platform,
            retry_index,
            RemovalOutcome::Failed { raw_os_error: Some(code) },
        ) == RemovalStep::GiveUp,
        removal_step(platform, retry_index, RemovalOutcome::Failed { raw_os_error: Some(code) })
            matches RemovalStep::RetryAfter { delay_ms } ==> {
            &&& retry_index == 0 ==> delay_ms == 25
            &&& retry_index > 0 ==> (removal_step(
                platform,
                (retry_index - 1) as usize,
                RemovalOutcome::Failed { raw_os_error: Some(code) },
            ) matches RemovalStep::RetryAfter { delay_ms: before } && delay_ms == 2 * before)
        },
{
}

/// Giving up a runtime removes its directory exactly where no core was started from it
/// and it was not committed; a directory that a core may be running from is left, and
/// nothing is done about one that was committed or is gone.
pub proof fn only_unused_runtimes_are_removed(state: PreparedRuntimeState)
    ensures
        drop_action_of(state) == DropAction::RemoveDirectory <==> state
            == PreparedRuntimeState::Unused,
        drop_action_of(state) == DropAction::LeaveDirectory <==> state
            == PreparedRuntimeState::MayBeInUse,
        drop_action_of(state) == DropAction::Nothing <==> state == PreparedRuntimeState::Finalized,
{
}

/// Whether `outcomes` is how the attempts to create one generation went, `shown` the
/// directories that were tried and `steps` what followed each.
pub open spec fn is_creation(
    shown: Seq<Seq<char>>,
    outcomes: Seq<CreationOutcome>,
    steps: Seq<GenerationStep>,
) -> bool {
    &&& shown.len() == outcomes.len()
    &&& steps.len() == outcomes.len()
    &&& outcomes.len() > 0
    &&& forall|i: int|
        #![trigger steps[i]]
        0 <= i < outcomes.len() ==> generation_follows(i, shown[i], outcomes[i], steps[i])
    &&& forall|i: int|
        #![trigger steps[i]]
        0 <= i < steps.len() - 1 ==> (steps[i] matches GenerationStep::TryAnother { attempts }
            && attempts == i + 1)
    &&& !(steps.last() is TryAnother)
}

/// A generation is created under the first name that is free. Names that are taken are
/// replaced up to sixteen times; a failure of another kind ends it at once, and either
/// way the refusal tells of the last directory that was tried.
pub proof fn first_free_name_is_taken(
    shown: Seq<Seq<char>>,
    outcomes: Seq<CreationOutcome>,
    steps: Seq<GenerationStep>,
)
    requires
        is_creation(shown, outcomes, steps),
    ensures
        outcomes.len() <= 16,
        forall|i: int|
            0 <= i < outcomes.len() - 1 ==> #[trigger] outcomes[i] is AlreadyExists,
        match outcomes.last() {
            CreationOutcome::Created => steps.last() is Created,
            CreationOutcome::AlreadyExists => outcomes.len() == 16 && (steps.last() matches
                GenerationStep::Refused(refusal) && refusal.code
                == ServiceErrorCode::InvalidRuntimeAsset && refusal.message@
                == "failed to allocate a unique runtime generation after 16 attempts; last_collision=Some("@
                + shown.last() + ")"@),
            CreationOutcome::Failed { error, found } => steps.last() matches GenerationStep::Refused(
                refusal,
            ) && refusal.code == ServiceErrorCode::InvalidRuntimeAsset && refusal.message@
                == "failed to create runtime generation "@ + shown.last() + ": "@ + error@
                + "; state="@ + found@,
        },
{
    assert forall|i: int| 0 <= i < outcomes.len() - 1 implies #[trigger] outcomes[i]
        is AlreadyExists by {
        assert(steps[i] is TryAnother);
    }
    let last = outcomes.len() - 1;
    let _ = steps[last];
    if last >= 16 {
        assert(steps[15] is TryAnother);
    }
}

/// The name of a generation is its lead and three numbers, whose digits read as those
/// numbers.
pub proof fn generation_names_tell_their_numbers(process: nat, timestamp: nat, sequence: nat)
    ensures
        generation_name_of(process, timestamp, sequence) == "runtime.generation-"@ + decimal(
            process,
        ) + "-"@ + decimal(timestamp) + "-"@ + decimal(sequence),
        decimal_value(decimal(process)) == process,
        decimal_value(decimal(timestamp)) == timestamp,
        decimal_value(decimal(sequence)) == sequence,
{
    decimal_reads_back(process);
    decimal_reads_back(timestamp);
    decimal_reads_back(sequence);
}

/// The word for what stands at a path: a link is called a link, whatever it leads to,
/// and what is neither directory nor file is called otherwise.
pub proof fn paths_are_described_as_found(is_dir: bool, is_file: bool, error: String)
    ensures
        path_state(PathProbe::Found { is_symlink: true, is_dir, is_file }) == "symlink"@,
        path_state(PathProbe::Found { is_symlink: false, is_dir: true, is_file }) == "directory"@,
        path_state(PathProbe::Found { is_symlink: false, is_dir: false, is_file: true })
            == "file"@,
        path_state(PathProbe::Found { is_symlink: false, is_dir: false, is_file: false })
            == "other"@,
        path_state(PathProbe::Missing) == "missing"@,
        path_state(PathProbe::Inaccessible(error)) == "inaccessible: "@ + error@,
{
}

/// Whether ending a discard turned `before` into `after`.
pub open spec fn discard_follows(
    before: PreparedRuntime,
    removal: Result<(), String>,
    shown: Seq<char>,
    found: Seq<char>,
    after: PreparedRuntime,
    discarded: Result<(), ServiceError>,
) -> bool {
    &&& after == PreparedRuntime {
        state: if removal is Ok {
            PreparedRuntimeState::Finalized
        } else {
            PreparedRuntimeState::Unused
        },
        ..before
    }
    &&& discarded is Ok <==> removal is Ok
    &&& discarded matches Err(refusal) ==> is_invalid_asset(
        refusal,
        "failed to discard prepared runtime "@ + shown + ": "@ + removal->Err_0@ + "; state="@
            + found,
    )
}

/// A runtime whose directory was removed needs nothing more. One whose directory could
/// not be removed stays as it is, so that giving it up removes it, and the failure is told
/// with the directory and what was found there.
pub proof fn failed_discard_is_tried_again(
    before: PreparedRuntime,
    removal: Result<(), String>,
    shown: Seq<char>,
    found: Seq<char>,
    after: PreparedRuntime,
    discarded: Result<(), ServiceError>,
)
    requires
        discard_follows(before, removal, shown, found, after, discarded),
    ensures
        after.runtime == before.runtime,
        after.clash_config == before.clash_config,
        after.stale_runtime_paths == before.stale_runtime_paths,
        removal is Ok ==> discarded is Ok && drop_action_of(after.state) == DropAction::Nothing,
        removal matches Err(error) ==> drop_action_of(after.state) == DropAction::RemoveDirectory
            && (discarded matches Err(refusal) && refusal.code
            == ServiceErrorCode::InvalidRuntimeAsset && refusal.message@
            == "failed to discard prepared runtime "@ + shown + ": "@ + error@ + "; state="@
            + found),
{
}

/// Whether committing a runtime turned `before` into `after`.
pub open spec fn commit_of_runtime_follows(
    before: PreparedRuntime,
    after: PreparedRuntime,
    stale: Vec<String>,
) -> bool {
    &&& stale == before.stale_runtime_paths
    &&& after.state == PreparedRuntimeState::Finalized
    &&& after.stale_runtime_paths@.len() == 0
    &&& after.clash_config == before.clash_config
    &&& after.runtime == before.runtime
}

/// A committed runtime stays: giving it up leaves its directory alone. Its stale
/// directories are handed out once, all of them.
pub proof fn committed_runtime_stays(
    before: PreparedRuntime,
    between: PreparedRuntime,
    after: PreparedRuntime,
    first: Vec<String>,
    second: Vec<String>,
)
    requires
        commit_of_runtime_follows(before, between, first),
        commit_of_runtime_follows(between, after, second),
    ensures
        drop_action_of(between.state) == DropAction::Nothing,
        drop_action_of(after.state) == DropAction::Nothing,
        first@ == before.stale_runtime_paths@,
        second@.len() == 0,
        between.runtime == before.runtime,
        between.clash_config == before.clash_config,
{
}

} // verus!
