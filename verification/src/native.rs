//! The numbers that operating systems and HTTP give to their codes and flags,
//! as the crates that define them state them.
use vstd::prelude::*;

verus! {

/// The operating system whose file system and service rules apply.
#[derive(Clone, Copy, Debug, PartialEq, Eq, Structural)]
pub enum Platform {
    Linux,
    Macos,
    Windows,
}

/// The number of `http::StatusCode::OK`: it is 200.
#[verifier::external_body]
pub(crate) fn status_ok() -> (status: u16)
    ensures
        status == 200,
{
    http::StatusCode::OK.as_u16()
}

/// The number of `http::StatusCode::BAD_REQUEST`: it is 400.
#[verifier::external_body]
pub(crate) fn status_bad_request() -> (status: u16)
    ensures
        status == 400,
{
    http::StatusCode::BAD_REQUEST.as_u16()
}

/// The number of `http::StatusCode::UNAUTHORIZED`: it is 401.
#[verifier::external_body]
pub(crate) fn status_unauthorized() -> (status: u16)
    ensures
        status == 401,
{
    http::StatusCode::UNAUTHORIZED.as_u16()
}

/// The number of `http::StatusCode::CONFLICT`: it is 409.
#[verifier::external_body]
pub(crate) fn status_conflict() -> (status: u16)
    ensures
        status == 409,
{
    http::StatusCode::CONFLICT.as_u16()
}

/// The number of `http::StatusCode::UNPROCESSABLE_ENTITY`: it is 422.
#[verifier::external_body]
pub(crate) fn status_unprocessable_entity() -> (status: u16)
    ensures
        status == 422,
{
    http::StatusCode::UNPROCESSABLE_ENTITY.as_u16()
}

/// The number of `http::StatusCode::SERVICE_UNAVAILABLE`: it is 503.
#[verifier::external_body]
pub(crate) fn status_service_unavailable() -> (status: u16)
    ensures
        status == 503,
{
    http::StatusCode::SERVICE_UNAVAILABLE.as_u16()
}

/// The number of `windows_sys::Win32::Foundation::ERROR_ACCESS_DENIED`: it is 5.
#[verifier::external_body]
pub(crate) fn error_access_denied() -> (code: u32)
    ensures
        code == 5,
{
    windows_sys::Win32::Foundation::ERROR_ACCESS_DENIED
}

/// The number of `windows_sys::Win32::Foundation::ERROR_SHARING_VIOLATION`: it is 32.
#[verifier::external_body]
pub(crate) fn error_sharing_violation() -> (code: u32)
    ensures
        code == 32,
{
    windows_sys::Win32::Foundation::ERROR_SHARING_VIOLATION
}

/// The number of `windows_sys::Win32::Foundation::ERROR_DIR_NOT_EMPTY`: it is 145.
#[verifier::external_body]
pub(crate) fn error_dir_not_empty() -> (code: u32)
    ensures
        code == 145,
{
    windows_sys::Win32::Foundation::ERROR_DIR_NOT_EMPTY
}

/// The number of `windows_sys::Win32::Foundation::ERROR_DELETE_PENDING`: it is 303.
#[verifier::external_body]
pub(crate) fn error_delete_pending() -> (code: u32)
    ensures
        code == 303,
{
    windows_sys::Win32::Foundation::ERROR_DELETE_PENDING
}

/// The number of `windows_sys::Win32::Foundation::ERROR_ALREADY_EXISTS`: it is 183.
#[verifier::external_body]
pub(crate) fn error_already_exists() -> (code: u32)
    ensures
        code == 183,
{
    windows_sys::Win32::Foundation::ERROR_ALREADY_EXISTS
}

/// The number of `windows_sys::Win32::Storage::FileSystem::FILE_ATTRIBUTE_DIRECTORY`: it is 0x10.
#[verifier::external_body]
pub(crate) fn file_attribute_directory() -> (flag: u32)
    ensures
        flag == 0x10,
{
    windows_sys::Win32::Storage::FileSystem::FILE_ATTRIBUTE_DIRECTORY
}

/// The number of
/// `windows_sys::Win32::Storage::FileSystem::FILE_ATTRIBUTE_REPARSE_POINT`:
/// it is 0x400.
#[verifier::external_body]
pub(crate) fn file_attribute_reparse_point() -> (flag: u32)
    ensures
        flag == 0x400,
{
    windows_sys::Win32::Storage::FileSystem::FILE_ATTRIBUTE_REPARSE_POINT
}

/// The number of `windows_sys::Win32::Storage::FileSystem::FILE_TYPE_DISK`: it is 1.
#[verifier::external_body]
pub(crate) fn file_type_disk() -> (kind: u32)
    ensures
        kind == 1,
{
    windows_sys::Win32::Storage::FileSystem::FILE_TYPE_DISK
}

/// The bits of a Unix mode that tell the type of a file.
pub const S_IFMT: u32 = 0o170000;

/// The type of a directory, in a Unix mode.
pub const S_IFDIR: u32 = 0o040000;

/// That the owner may read, in a Unix mode.
pub const S_IRUSR: u32 = 0o400;

/// That the owner may write, in a Unix mode.
pub const S_IWUSR: u32 = 0o200;

/// That the group may read, in a Unix mode.
pub const S_IRGRP: u32 = 0o040;

/// That the group may write, in a Unix mode.
pub const S_IWGRP: u32 = 0o020;

/// That others may read, in a Unix mode.
pub const S_IROTH: u32 = 0o004;

/// That others may write, in a Unix mode.
pub const S_IWOTH: u32 = 0o002;

} // verus!
