//! Who may act on the running core: the protocol version, the active owner and
//! the owner's session.
use crate::error::{ServiceError, ServiceErrorCode};
use crate::paths::ServicePath;
use crate::text::same_text;
use vstd::prelude::*;
use vstd::string::*;

verus! {

/// The account that a request was authenticated as.
#[derive(Debug)]
pub enum OwnerIdentity {
    Unix { uid: u32, gid: u32 },
    Windows { sid: String },
}

/// An owner, as the authentication of a request establishes it.
#[derive(Debug)]
pub struct AuthenticatedOwner {
    pub key: String,
    pub identity: OwnerIdentity,
    pub app_data_root: ServicePath,
}

/// The owner whose core runs, with the generation and the token hash of its
/// current session. An owner recorded without a session has an empty hash.
#[derive(Debug)]
pub struct ActiveOwnerState {
    pub owner_key: String,
    pub generation: u64,
    pub session_token_hash: String,
}

/// What a client shows to prove that it holds the current session.
#[derive(Debug)]
pub struct OwnerSessionProof {
    pub generation: u64,
    pub token: String,
}

/// A version of the protocol: clients and service agree on the epoch.
#[derive(Clone, Copy, Debug, PartialEq, Eq, Structural)]
pub struct ProtocolVersion {
    pub epoch: u32,
    pub revision: u32,
}

/// `http::HeaderMap`, the headers of a request: a type of its own, into which
/// nothing here looks but through `header_bytes`.
#[verifier::external_type_specification]
#[verifier::external_body]
#[verifier::reject_recursive_types(T)]
pub struct ExHeaderMap<T>(http::HeaderMap<T>);

/// `http::HeaderValue`, the value of a header, into which nothing here looks.
#[verifier::external_type_specification]
#[verifier::external_body]
pub struct ExHeaderValue(http::HeaderValue);

/// What a header map holds: under every spelling of a name that `get` finds,
/// the bytes of the first value.
pub uninterp spec fn header_fields(
    headers: http::HeaderMap<http::HeaderValue>,
) -> Map<Seq<char>, Seq<u8>>;

/// `http::HeaderMap::get`: the bytes of the first value under a name, if there
/// is one.
#[verifier::external_body]
fn header_bytes(headers: &http::HeaderMap<http::HeaderValue>, name: &str) -> (value: Option<
    Vec<u8>,
>)
    ensures
        value is Some <==> header_fields(*headers).contains_key(name@),
        value matches Some(bytes) ==> bytes@ == header_fields(*headers)[name@],
{
    headers.get(name).map(|value| value.as_bytes().to_vec())
}

/// The bytes that a header value may hold to count as text: visible ASCII
/// characters, the space and the tabulator.
pub open spec fn is_header_text(bytes: Seq<u8>) -> bool {
    forall|i: int|
        0 <= i < bytes.len() ==> (32 <= #[trigger] bytes[i] && bytes[i] < 127) || bytes[i] == 9
}

/// The text that a header value spells, where it counts as text.
pub fn header_text(bytes: &Vec<u8>) -> (text: Option<String>)
    ensures
        text is Some <==> is_header_text(bytes@),
        text matches Some(spelled) ==> spelled@ == bytes@.map_values(|b: u8| b as char),
{
    let mut spelled = String::new();
    for i in 0..bytes.len()
        invariant
            is_header_text(bytes@.take(i as int)),
            spelled@ =~= bytes@.take(i as int).map_values(|b: u8| b as char),
    {
        let b: u8 = bytes[i];
        assert(bytes@.take(i + 1)[i as int] == b);
        if !((32 <= b && b < 127) || b == 9) {
            return None;
        }
        assert forall|k: int| 0 <= k < i + 1 implies (32 <= #[trigger] bytes@.take(i + 1)[k]
            && bytes@.take(i + 1)[k] < 127) || bytes@.take(i + 1)[k] == 9 by {
            if k < i {
                assert(bytes@.take(i as int)[k] == bytes@.take(i + 1)[k]);
            }
        }
        spelled.push(b as char);
    }
    assert(bytes@.take(bytes@.len() as int) =~= bytes@);
    Some(spelled)
}

/// The protocol version that a request carries, as text: none where the header
/// is missing or is no text.
pub open spec fn supplied_header(fields: Map<Seq<char>, Seq<u8>>, name: Seq<char>) -> Option<
    Seq<char>,
> {
    if fields.contains_key(name) && is_header_text(fields[name]) {
        Some(fields[name].map_values(|b: u8| b as char))
    } else {
        None
    }
}

/// The text of a request's protocol header.
pub fn supplied_protocol_header(
    headers: &http::HeaderMap<http::HeaderValue>,
    name: &str,
) -> (text: Option<String>)
    ensures
        text is Some <==> supplied_header(header_fields(*headers), name@) is Some,
        text matches Some(spelled) ==> Some(spelled@) == supplied_header(
            header_fields(*headers),
            name@,
        ),
{
    match header_bytes(headers, name) {
        Some(bytes) => header_text(&bytes),
        None => None,
    }
}

/// Whether a client that speaks `supplied` is served.
pub open spec fn protocol_accepted(
    supplied: Option<ProtocolVersion>,
    current: ProtocolVersion,
    min_supported_revision: u32,
) -> bool {
    supplied matches Some(version) && version.epoch == current.epoch && version.revision
        >= min_supported_revision
}

/// Refuses a request whose protocol version is missing, of another epoch, or
/// older than the oldest one that is supported.
pub fn require_protocol_version(
    supplied: Option<ProtocolVersion>,
    current: ProtocolVersion,
    min_supported_revision: u32,
) -> (checked: Result<(), ServiceError>)
    ensures
        checked is Ok <==> protocol_accepted(supplied, current, min_supported_revision),
        checked matches Err(error) ==> error.is(
            ServiceErrorCode::ProtocolMismatch,
            "Service protocol version is not supported"@,
        ),
{
    match supplied {
        Some(version) => {
            if version.epoch == current.epoch && version.revision >= min_supported_revision {
                Ok(())
            } else {
                Err(ServiceError::protocol_mismatch())
            }
        },
        None => Err(ServiceError::protocol_mismatch()),
    }
}

/// Compares two byte strings, looking at every byte of them.
pub fn constant_time_eq(left: &[u8], right: &[u8]) -> (equal: bool)
    ensures
        equal == (left@ == right@),
{
    if left.len() != right.len() {
        return false;
    }
    let mut difference: u8 = 0;
    assert(left@.take(0) =~= right@.take(0));
    for i in 0..left.len()
        invariant
            left@.len() == right@.len(),
            difference == 0 <==> left@.take(i as int) == right@.take(i as int),
    {
        let a: u8 = left[i];
        let b: u8 = right[i];
        let ghost before = difference;
        assert((before | (a ^ b)) == 0 <==> before == 0 && a == b) by (bit_vector);
        difference = difference | (a ^ b);
        assert(left@.take(i + 1).drop_last() =~= left@.take(i as int));
        assert(right@.take(i + 1).drop_last() =~= right@.take(i as int));
        assert(left@.take(i + 1).last() == a && right@.take(i + 1).last() == b);
        assert(left@.take(i + 1) =~= left@.take(i as int).push(a));
        assert(right@.take(i + 1) =~= right@.take(i as int).push(b));
    }
    assert(left@.take(left@.len() as int) =~= left@);
    assert(right@.take(right@.len() as int) =~= right@);
    difference == 0
}

/// Whether `owner_key` is the active owner, by what the record of the active
/// owner gave: an unreadable record counts as none.
pub open spec fn owner_is_active(
    active: Result<Option<ActiveOwnerState>, String>,
    owner_key: Seq<char>,
) -> bool {
    active matches Ok(Some(state)) && state.owner_key@ == owner_key
}

/// Refuses an owner that is not the active one.
pub fn require_active_owner(
    active: &Result<Option<ActiveOwnerState>, String>,
    owner: &AuthenticatedOwner,
) -> (checked: Result<(), ServiceError>)
    ensures
        checked is Ok <==> owner_is_active(*active, owner.key@),
        checked matches Err(error) ==> error.is(
            ServiceErrorCode::NotActive,
            "Owner is not active"@,
        ),
{
    match active {
        Ok(Some(state)) => {
            if same_text(state.owner_key.as_str(), owner.key.as_str()) {
                Ok(())
            } else {
                Err(ServiceError::not_active())
            }
        },
        _ => Err(ServiceError::not_active()),
    }
}

/// Whether a proof with this generation and token hash proves the session of
/// this active owner.
pub open spec fn session_proved(
    state: ActiveOwnerState,
    owner_key: Seq<char>,
    generation: u64,
    token_hash: Seq<char>,
) -> bool {
    &&& state.owner_key@ == owner_key
    &&& state.generation == generation
    &&& state.session_token_hash@ == token_hash
}

/// Two strings are the same where their UTF-8 bytes are.
proof fn same_bytes_same_text(left: Seq<char>, right: Seq<char>)
    ensures
        vstd::utf8::encode_utf8(left) == vstd::utf8::encode_utf8(right) <==> left == right,
{
    vstd::utf8::encode_utf8_decode_utf8(left);
    vstd::utf8::encode_utf8_decode_utf8(right);
}

/// Admits a request only from the active owner's current session, and hands the
/// active owner back. `token_hash` is the hash of the token in `proof`, where
/// that token can be hashed at all.
pub fn require_active_session(
    active: Result<Option<ActiveOwnerState>, String>,
    owner: &AuthenticatedOwner,
    proof_shown: &OwnerSessionProof,
    token_hash: &Result<String, String>,
) -> (checked: Result<ActiveOwnerState, ServiceError>)
    ensures
        checked is Ok <==> (active matches Ok(Some(state)) && token_hash matches Ok(hash)
            && session_proved(state, owner.key@, proof_shown.generation, hash@)),
        checked matches Ok(state) ==> active == Ok::<Option<ActiveOwnerState>, String>(Some(state)),
        checked matches Err(error) ==> error.is(
            ServiceErrorCode::StaleOwnerSession,
            "Owner session is stale"@,
        ),
{
    let state: ActiveOwnerState = match active {
        Ok(Some(state)) => state,
        _ => {
            return Err(ServiceError::stale_owner_session());
        },
    };
    let hash: &String = match token_hash {
        Ok(hash) => hash,
        Err(_) => {
            return Err(ServiceError::stale_owner_session());
        },
    };
    proof {
        same_bytes_same_text(state.session_token_hash@, hash@);
    }
    if !same_text(state.owner_key.as_str(), owner.key.as_str()) || state.generation
        != proof_shown.generation || !constant_time_eq(
        state.session_token_hash.as_str().as_bytes(),
        hash.as_str().as_bytes(),
    ) {
        return Err(ServiceError::stale_owner_session());
    }
    Ok(state)
}

/// A proof that one session of an owner accepts is refused by every session of
/// another generation: a new session makes the old proof stale.
pub proof fn new_session_refuses_old_proof(
    first: ActiveOwnerState,
    second: ActiveOwnerState,
    owner_key: Seq<char>,
    generation: u64,
    token_hash: Seq<char>,
)
    requires
        session_proved(first, owner_key, generation, token_hash),
        second.generation != first.generation,
    ensures
        !session_proved(second, owner_key, generation, token_hash),
{
}

/// An owner recorded without a session authenticates no request: no hash of a
/// token is empty.
pub proof fn owner_without_session_fails_closed(
    state: ActiveOwnerState,
    owner_key: Seq<char>,
    generation: u64,
    token_hash: Seq<char>,
)
    requires
        state.session_token_hash@.len() == 0,
        token_hash.len() > 0,
    ensures
        !session_proved(state, owner_key, generation, token_hash),
{
}

/// A session is proved only by the active owner: whoever proves the session
/// also passes the check on the active owner.
pub proof fn session_implies_active_owner(
    state: ActiveOwnerState,
    owner_key: Seq<char>,
    generation: u64,
    token_hash: Seq<char>,
)
    requires
        session_proved(state, owner_key, generation, token_hash),
    ensures
        owner_is_active(Ok(Some(state)), owner_key),
{
}

/// The text of a header: it has one as long as every byte is a visible ASCII character,
/// a space or a tabulator, and then the text has just these characters.
pub proof fn header_is_spelled_by_its_bytes(
    fields: Map<Seq<char>, Seq<u8>>,
    name: Seq<char>,
    i: int,
)
    ensures
        supplied_header(fields, name) is Some <==> fields.contains_key(name) && (forall|k: int|
            0 <= k < fields[name].len() ==> (#[trigger] fields[name][k] >= 32 && fields[name][k]
                <= 126) || fields[name][k] == 9),
        supplied_header(fields, name) matches Some(text) ==> text.len() == fields[name].len() && (0
            <= i < text.len() ==> text[i] as int == fields[name][i]),
{
}

/// A client is served exactly where it tells a version of the service's own epoch whose
/// revision is at least the oldest one that is supported: any later one is served too.
pub proof fn clients_of_the_epoch_are_served(
    supplied: ProtocolVersion,
    current: ProtocolVersion,
    min_supported_revision: u32,
)
    ensures
        !protocol_accepted(None, current, min_supported_revision),
        protocol_accepted(Some(supplied), current, min_supported_revision) <==> supplied.epoch
            == current.epoch && supplied.revision >= min_supported_revision,
{
}

/// The recorded owner is active, whoever it is; nobody else is, and nobody where no owner
/// is recorded or the record cannot be read.
pub proof fn the_recorded_owner_is_active(
    state: ActiveOwnerState,
    owner_key: Seq<char>,
    error: String,
)
    ensures
        owner_is_active(Ok(Some(state)), state.owner_key@),
        owner_is_active(Ok(Some(state)), owner_key) ==> owner_key == state.owner_key@,
        !owner_is_active(Ok(None), owner_key),
        !owner_is_active(Err(error), owner_key),
{
}

/// The current session is proved by the owner's own key, its generation and the hash of
/// its token, and by nothing else.
pub proof fn the_current_session_is_proved(
    state: ActiveOwnerState,
    owner_key: Seq<char>,
    generation: u64,
    token_hash: Seq<char>,
)
    ensures
        session_proved(
            state,
            state.owner_key@,
            state.generation,
            state.session_token_hash@,
        ),
        session_proved(state, owner_key, generation, token_hash) ==> owner_key == state.owner_key@
            && generation == state.generation && token_hash == state.session_token_hash@,
{
}

} // verus!
