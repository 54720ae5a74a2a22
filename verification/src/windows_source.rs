//! The opening of a runtime asset on Windows: what the handle tells has to be an
//! ordinary disk file under the very path that was validated.
use crate::error::{invalid_asset, is_invalid_asset, ServiceError, ServiceErrorCode};
use crate::native::{file_attribute_directory, file_attribute_reparse_point, file_type_disk};
use crate::paths::{windows_form, windows_paths_equal};
use crate::text::joined;
use vstd::prelude::*;
use vstd::string::*;

verus! {

/// What Windows tells of an open handle. `known` is false where it tells nothing.
#[derive(Clone, Copy, Debug, PartialEq, Eq, Structural)]
pub struct HandleInformation {
    pub known: bool,
    pub file_type: u32,
    pub attributes: u32,
    pub size_high: u32,
    pub size_low: u32,
}

/// The opening of an asset.
#[derive(Debug)]
pub enum HandleOpening {
    Open,
    Inspect,
    ResolvePath { length: u64 },
    /// The length of the file that was opened, or why it may not be used.
    Finished { result: Result<u64, ServiceError> },
}

/// How a step of the opening ended. A failure carries the text of its error.
#[derive(Debug)]
pub enum HandleEvent {
    Opened,
    Inspected(HandleInformation),
    Resolved(String),
    Failed(String),
    Rejected(ServiceError),
}

/// A path in the form in which Windows takes it: the zero that ends it may not
/// stand in it.
pub fn terminated_path(wide: &Vec<u16>) -> (terminated: Result<Vec<u16>, ServiceError>)
    ensures
        terminated is Ok <==> !wide@.contains(0),
        terminated matches Ok(units) ==> units@ == wide@.push(0),
        terminated matches Err(refusal) ==> is_invalid_asset(
            refusal,
            "runtime asset path contains NUL"@,
        ),
        termination_follows(wide@, terminated),
{
    let mut units: Vec<u16> = Vec::new();
    for i in 0..wide.len()
        invariant
            units@ =~= wide@.take(i as int),
            forall|j: int| 0 <= j < i ==> wide@[j] != 0,
    {
        if wide[i] == 0 {
            assert(wide@[i as int] == 0);
            return Err(invalid_asset("runtime asset path contains NUL".to_owned()));
        }
        units.push(wide[i]);
    }
    units.push(0);
    assert(units@ =~= wide@.push(0));
    Ok(units)
}

/// Whether a handle is that of an ordinary file on a disk: neither a directory
/// nor a reparse point.
pub open spec fn is_disk_file(information: HandleInformation) -> bool {
    &&& information.known
    &&& information.file_type == 1
    &&& information.attributes & 0x10 == 0
    &&& information.attributes & 0x400 == 0
}

/// The length of a file, from its two halves.
pub open spec fn file_length(information: HandleInformation) -> nat {
    (information.size_high * 0x1_0000_0000 + information.size_low) as nat
}

fn length_of(information: &HandleInformation) -> (length: u64)
    ensures
        length == file_length(*information),
{
    let high: u64 = information.size_high as u64;
    let low: u64 = information.size_low as u64;
    assert(high <= 0xffff_ffff && low <= 0xffff_ffff ==> (high << 32) | low == high
        * 0x1_0000_0000 + low) by (bit_vector);
    (high << 32) | low
}

/// Whether an event can end a step of the opening.
pub open spec fn handle_event_fits(pending: HandleOpening, event: HandleEvent) -> bool {
    match pending {
        HandleOpening::Open => event is Opened || event is Failed,
        HandleOpening::Inspect => event is Inspected,
        HandleOpening::ResolvePath { .. } => event is Resolved || event is Rejected,
        HandleOpening::Finished { .. } => false,
    }
}

/// Whether an opening has ended with this refusal.
pub open spec fn handle_refused(next: HandleOpening, message: Seq<char>) -> bool {
    next matches HandleOpening::Finished { result: Err(refusal) } && is_invalid_asset(
        refusal,
        message,
    )
}

/// What follows when the pending step of the opening of `path` ends.
pub open spec fn handle_follows(
    path: Seq<char>,
    pending: HandleOpening,
    event: HandleEvent,
    next: HandleOpening,
) -> bool {
    match (pending, event) {
        (HandleOpening::Open, HandleEvent::Opened) => next is Inspect,
        (HandleOpening::Open, HandleEvent::Failed(error)) => handle_refused(
            next,
            "failed to open runtime asset without following reparse points: "@ + error@,
        ),
        (HandleOpening::Inspect, HandleEvent::Inspected(information)) => if is_disk_file(
            information,
        ) {
            next == (HandleOpening::ResolvePath { length: file_length(information) as u64 })
        } else {
            handle_refused(next, "opened runtime asset is not an ordinary disk file"@)
        },
        (HandleOpening::ResolvePath { .. }, HandleEvent::Rejected(error)) => next == (
        HandleOpening::Finished { result: Err(error) }),
        (HandleOpening::ResolvePath { length }, HandleEvent::Resolved(resolved)) => if windows_form(
            resolved@,
        ) == windows_form(path) {
            next == (HandleOpening::Finished { result: Ok(length) })
        } else {
            handle_refused(next, "runtime asset changed between validation and open"@)
        },
        _ => false,
    }
}

fn refuse(message: String) -> (next: HandleOpening)
    ensures
        handle_refused(next, message@),
{
    HandleOpening::Finished { result: Err(invalid_asset(message)) }
}

/// Decides what follows when the pending step of the opening of `path` has ended.
pub fn open_verified_regular_file(path: &str, pending: HandleOpening, event: HandleEvent) -> (next:
    HandleOpening)
    requires
        handle_event_fits(pending, event),
    ensures
        handle_follows(path@, pending, event, next),
{
    match event {
        HandleEvent::Opened => HandleOpening::Inspect,
        HandleEvent::Failed(error) => refuse(
            joined(
                "failed to open runtime asset without following reparse points: ",
                error.as_str(),
            ),
        ),
        HandleEvent::Inspected(information) => {
            if !information.known || information.file_type != file_type_disk()
                || information.attributes & file_attribute_directory() != 0
                || information.attributes & file_attribute_reparse_point() != 0 {
                refuse("opened runtime asset is not an ordinary disk file".to_owned())
            } else {
                HandleOpening::ResolvePath { length: length_of(&information) }
            }
        },
        HandleEvent::Rejected(error) => HandleOpening::Finished { result: Err(error) },
        HandleEvent::Resolved(resolved) => match pending {
            HandleOpening::ResolvePath { length } => {
                if windows_paths_equal(resolved.as_str(), path) {
                    HandleOpening::Finished { result: Ok(length) }
                } else {
                    refuse("runtime asset changed between validation and open".to_owned())
                }
            },
            other => other,
        },
    }
}

/// How many units a path is first given room for.
pub const FINAL_PATH_UNITS: u64 = 512;

/// What follows an attempt to have the path of a handle written.
#[derive(Debug)]
pub enum FinalPathStep {
    /// The path is written, in so many units.
    Written { length: u32 },
    /// It needs more room.
    Enlarge { capacity: u64 },
    Refused(ServiceError),
}

/// Decides what follows an attempt to have the path of a handle written into
/// `capacity` units: Windows hands back how many it wrote, how many it needs, or
/// zero where it failed with `error`.
pub fn windows_final_path(capacity: u64, length: u32, error: &str) -> (step: FinalPathStep)
    ensures
        match step {
            FinalPathStep::Written { length: written } => 0 < length < capacity && written == length,
            FinalPathStep::Enlarge { capacity: larger } => length > 0 && length >= capacity
                && larger == length + 1,
            FinalPathStep::Refused(refusal) => length == 0 && is_invalid_asset(
                refusal,
                "failed to resolve opened runtime asset: "@ + error@,
            ),
        },
        final_path_follows(capacity, length, error@, step),
{
    if length == 0 {
        FinalPathStep::Refused(
            invalid_asset(joined("failed to resolve opened runtime asset: ", error)),
        )
    } else if (length as u64) < capacity {
        FinalPathStep::Written { length }
    } else {
        FinalPathStep::Enlarge { capacity: length as u64 + 1 }
    }
}

/// An asset is used only where its handle is that of an ordinary disk file, and
/// its length is what the two halves of its size make.
pub proof fn opened_handle_is_a_disk_file(
    path: Seq<char>,
    information: HandleInformation,
    inspected: HandleOpening,
    event: HandleEvent,
    length: u64,
)
    requires
        handle_follows(
            path,
            HandleOpening::Inspect,
            HandleEvent::Inspected(information),
            inspected,
        ),
        handle_event_fits(inspected, event),
        handle_follows(path, inspected, event, HandleOpening::Finished { result: Ok(length) }),
    ensures
        is_disk_file(information),
        length == file_length(information),
        event matches HandleEvent::Resolved(resolved) && windows_form(resolved@) == windows_form(
            path,
        ),
{
}

/// What is opened is looked at by its attributes: a known handle of a disk file goes on
/// to have its path resolved exactly where neither the bit of a directory nor that of a
/// reparse point is set, whatever other bits are; its length is what the two halves
/// of its size make. All else is refused as no ordinary file.
pub proof fn disk_files_are_told_by_two_bits(
    path: Seq<char>,
    information: HandleInformation,
    next: HandleOpening,
)
    requires
        handle_follows(path, HandleOpening::Inspect, HandleEvent::Inspected(information), next),
    ensures
        ({
            let opens = information.known && information.file_type == 1 && information.attributes
                & 0x10 == 0 && information.attributes & 0x400 == 0;
            &&& opens ==> (next matches HandleOpening::ResolvePath { length } && length
                == information.size_high * 0x1_0000_0000 + information.size_low)
            &&& !opens ==> (next matches HandleOpening::Finished { result: Err(refusal) }
                && refusal.code == ServiceErrorCode::InvalidRuntimeAsset && refusal.message@
                == "opened runtime asset is not an ordinary disk file"@)
        }),
{
}

/// Of two handles that differ only in other attributes than those two, one is opened
/// exactly where the other is, with the same length.
pub proof fn other_attributes_do_not_matter(
    path: Seq<char>,
    first: HandleInformation,
    second: HandleInformation,
    after_first: HandleOpening,
    after_second: HandleOpening,
)
    requires
        first.attributes & 0x410 == second.attributes & 0x410,
        second == (HandleInformation { attributes: second.attributes, ..first }),
        handle_follows(path, HandleOpening::Inspect, HandleEvent::Inspected(first), after_first),
        handle_follows(path, HandleOpening::Inspect, HandleEvent::Inspected(second), after_second),
    ensures
        after_first is ResolvePath <==> after_second is ResolvePath,
        after_first is ResolvePath ==> after_first == after_second,
{
    let a = first.attributes;
    let b = second.attributes;
    assert(a & 0x410 == b & 0x410 ==> ((a & 0x10 == 0 <==> b & 0x10 == 0) && (a & 0x400 == 0 <==> b
        & 0x400 == 0))) by (bit_vector);
}

/// An asset that is opened, found to be an ordinary disk file and resolved to its very
/// path may be used, with its length; where it resolves elsewhere it is refused. A step
/// that fails is told with its error.
pub proof fn opening_ends_as_its_steps_do(
    path: Seq<char>,
    pending: HandleOpening,
    event: HandleEvent,
    next: HandleOpening,
)
    requires
        handle_event_fits(pending, event),
        handle_follows(path, pending, event, next),
    ensures
        ({
            let told = |message: Seq<char>|
                next matches HandleOpening::Finished { result: Err(refusal) } && refusal.code
                    == ServiceErrorCode::InvalidRuntimeAsset && refusal.message@ == message;
            match pending {
                HandleOpening::Open => match event {
                    HandleEvent::Failed(error) => told(
                        "failed to open runtime asset without following reparse points: "@ + error@,
                    ),
                    _ => next is Inspect,
                },
                HandleOpening::ResolvePath { length } => match event {
                    HandleEvent::Resolved(resolved) => if windows_form(resolved@) == windows_form(
                        path,
                    ) {
                        next == (HandleOpening::Finished { result: Ok(length) })
                    } else {
                        told("runtime asset changed between validation and open"@)
                    },
                    HandleEvent::Rejected(error) => next == (HandleOpening::Finished {
                        result: Err(error),
                    }),
                    _ => false,
                },
                _ => true,
            }
        }),
{
}

/// Whether bringing a path into the form that Windows takes came to this.
pub open spec fn termination_follows(
    wide: Seq<u16>,
    terminated: Result<Vec<u16>, ServiceError>,
) -> bool {
    &&& terminated is Ok <==> !wide.contains(0)
    &&& terminated matches Ok(units) ==> units@ == wide.push(0)
    &&& terminated matches Err(refusal) ==> is_invalid_asset(
        refusal,
        "runtime asset path contains NUL"@,
    )
}

/// A path is ended by one zero, and by nothing else: it is found again before the first
/// zero. A path that holds a zero is refused.
pub proof fn paths_end_at_their_first_zero(
    wide: Seq<u16>,
    terminated: Result<Vec<u16>, ServiceError>,
    i: int,
)
    requires
        termination_follows(wide, terminated),
    ensures
        terminated matches Ok(units) ==> {
            &&& units@.len() == wide.len() + 1
            &&& 0 <= i < wide.len() ==> units@[i] == wide[i] && units@[i] != 0
            &&& units@[wide.len() as int] == 0
        },
        terminated matches Err(refusal) ==> refusal.code == ServiceErrorCode::InvalidRuntimeAsset
            && refusal.message@ == "runtime asset path contains NUL"@,
        0 <= i < wide.len() && wide[i] == 0 ==> terminated is Err,
        (forall|k: int| 0 <= k < wide.len() ==> #[trigger] wide[k] != 0) ==> terminated is Ok,
{
    if let Ok(units) = terminated {
        if 0 <= i < wide.len() {
            assert(wide.push(0)[i] == wide[i]);
        }
    }
}

/// Whether an attempt to have a path written came to this.
pub open spec fn final_path_follows(
    capacity: u64,
    length: u32,
    error: Seq<char>,
    step: FinalPathStep,
) -> bool {
    match step {
        FinalPathStep::Written { length: written } => 0 < length < capacity && written == length,
        FinalPathStep::Enlarge { capacity: larger } => length > 0 && length >= capacity && larger
            == length + 1,
        FinalPathStep::Refused(refusal) => length == 0 && is_invalid_asset(
            refusal,
            "failed to resolve opened runtime asset: "@ + error,
        ),
    }
}

/// A path that has no room is given as much as it needs: the second attempt with what
/// Windows asked for has it written, in one unit less than that, unless it fails. An
/// attempt fails exactly where Windows wrote nothing.
pub proof fn enlarged_room_is_enough(
    capacity: u64,
    length: u32,
    error: Seq<char>,
    first: FinalPathStep,
    larger: u64,
    second: FinalPathStep,
)
    requires
        final_path_follows(capacity, length, error, first),
        first matches FinalPathStep::Enlarge { capacity: asked } ==> asked == larger
            && final_path_follows(larger, length, error, second),
    ensures
        length == 0 <==> first is Refused,
        first matches FinalPathStep::Refused(refusal) ==> refusal.code
            == ServiceErrorCode::InvalidRuntimeAsset && refusal.message@
            == "failed to resolve opened runtime asset: "@ + error,
        0 < length < capacity ==> first == (FinalPathStep::Written { length }),
        first is Enlarge ==> larger == length + 1 && larger > capacity && second
            == (FinalPathStep::Written { length }),
{
}

} // verus!
