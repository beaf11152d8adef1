//! Shared guards on strings, numbers, flags and identities.
//!
//! Each guard is exact: its result is `outcome` of a spec function that says
//! which error, if any, the input deserves.
use vstd::prelude::*;
use vstd::utf8::encode_utf8;

use crate::address::Address;
use crate::constants::MAX_FEE_BPS;
use crate::errors::Unit09Error;

verus! {

/// `Ok(())` when no error is due, else the error.
pub open spec fn outcome(e: Option<Unit09Error>) -> Result<(), Unit09Error> {
    match e {
        Some(err) => Err(err),
        None => Ok(()),
    }
}

/// Length in bytes of the UTF-8 encoding of `s` (what `str::len` returns).
pub open spec fn byte_len(s: Seq<char>) -> nat {
    encode_utf8(s).len()
}

/// Whether the encoding of `s` starts with the encoding of `prefix`.
pub open spec fn starts_with(s: Seq<char>, prefix: Seq<char>) -> bool {
    encode_utf8(prefix).is_prefix_of(encode_utf8(s))
}

/// Whether `s` starts with one of the accepted URI schemes.
pub open spec fn has_known_scheme(s: Seq<char>) -> bool {
    ||| starts_with(s, "http://"@)
    ||| starts_with(s, "https://"@)
    ||| starts_with(s, "ipfs://"@)
    ||| starts_with(s, "ar://"@)
}

/// The error due to a string that may be empty and holds at most `max` bytes.
pub open spec fn bounded_str_error(s: Seq<char>, max: nat) -> Option<Unit09Error> {
    if byte_len(s) > max {
        Some(Unit09Error::StringTooLong)
    } else {
        None
    }
}

/// The error due to a non-empty string of at most `max` bytes.
pub open spec fn required_str_error(s: Seq<char>, max: nat) -> Option<Unit09Error> {
    if s.len() == 0 {
        Some(Unit09Error::StringEmpty)
    } else {
        bounded_str_error(s, max)
    }
}

/// The error due to a required URI of at most `max` bytes with a known scheme.
pub open spec fn uri_error(s: Seq<char>, max: nat) -> Option<Unit09Error> {
    if required_str_error(s, max) is Some {
        required_str_error(s, max)
    } else if !has_known_scheme(s) {
        Some(Unit09Error::MetadataInvalid)
    } else {
        None
    }
}

/// The error due to a URI that may be empty; a non-empty one has at most
/// `max` bytes and a known scheme.
pub open spec fn optional_uri_error(s: Seq<char>, max: nat) -> Option<Unit09Error> {
    if s.len() == 0 {
        None
    } else {
        uri_error(s, max)
    }
}

/// Whether the semantic version is not (0, 0, 0).
pub open spec fn semver_non_zero(version: (u16, u16, u16)) -> bool {
    version.0 != 0 || version.1 != 0 || version.2 != 0
}

/// Whether `bytes` starts with `prefix`.
fn bytes_start_with(bytes: &[u8], prefix: &[u8]) -> (r: bool)
    ensures
        r == prefix@.is_prefix_of(bytes@),
{
    if prefix.len() > bytes.len() {
        return false;
    }
    let mut i: usize = 0;
    while i < prefix.len()
        invariant
            0 <= i <= prefix@.len() <= bytes@.len(),
            forall|j: int| 0 <= j < i ==> prefix@[j] == bytes@[j],
        decreases prefix@.len() - i,
    {
        if prefix[i] != bytes[i] {
            assert(prefix@[i as int] != bytes@[i as int]);
            return false;
        }
        i = i + 1;
    }
    assert(prefix@ =~= bytes@.subrange(0, prefix@.len() as int));
    true
}

/// Whether `value` starts with `prefix`.
pub fn str_starts_with(value: &str, prefix: &str) -> (r: bool)
    ensures
        r == starts_with(value@, prefix@),
{
    bytes_start_with(value.as_bytes(), prefix.as_bytes())
}

/// Whether `value` starts with `http://`, `https://`, `ipfs://` or `ar://`.
pub fn has_known_uri_scheme(value: &str) -> (r: bool)
    ensures
        r == has_known_scheme(value@),
{
    str_starts_with(value, "http://") || str_starts_with(value, "https://")
        || str_starts_with(value, "ipfs://") || str_starts_with(value, "ar://")
}

/// Validate that a string is not empty.
pub fn assert_non_empty_str(value: &str) -> (r: Result<(), Unit09Error>)
    ensures
        r == outcome(if value@.len() == 0 { Some(Unit09Error::StringEmpty) } else { None }),
{
    if value.is_empty() {
        Err(Unit09Error::StringEmpty)
    } else {
        Ok(())
    }
}

/// Validate that a string holds at most `max_len` bytes.
pub fn assert_max_len(value: &str, max_len: usize) -> (r: Result<(), Unit09Error>)
    ensures
        r == outcome(bounded_str_error(value@, max_len as nat)),
{
    if value.as_bytes().len() > max_len {
        Err(Unit09Error::StringTooLong)
    } else {
        Ok(())
    }
}

/// Validate a required string: not empty and at most `max_len` bytes.
pub fn assert_required_str(value: &str, max_len: usize) -> (r: Result<(), Unit09Error>)
    ensures
        r == outcome(required_str_error(value@, max_len as nat)),
{
    assert_non_empty_str(value)?;
    assert_max_len(value, max_len)
}

/// Validate that an optional string, when present, is not empty and holds
/// at most `max_len` bytes.
pub fn assert_optional_str_len(value: &Option<String>, max_len: usize) -> (r: Result<
    (),
    Unit09Error,
>)
    ensures
        r == outcome(
            match value {
                Some(s) => required_str_error(s@, max_len as nat),
                None => None,
            },
        ),
{
    match value {
        Some(s) => assert_required_str(s.as_str(), max_len),
        None => Ok(()),
    }
}

/// Validate a required URI: not empty, at most `max_len` bytes, known scheme.
pub fn assert_uri(value: &str, max_len: usize) -> (r: Result<(), Unit09Error>)
    ensures
        r == outcome(uri_error(value@, max_len as nat)),
{
    assert_required_str(value, max_len)?;
    if !has_known_uri_scheme(value) {
        return Err(Unit09Error::MetadataInvalid);
    }
    Ok(())
}

/// Validate a URI that may be left empty.
pub fn assert_optional_uri(value: &str, max_len: usize) -> (r: Result<(), Unit09Error>)
    ensures
        r == outcome(optional_uri_error(value@, max_len as nat)),
{
    if value.is_empty() {
        return Ok(());
    }
    assert_uri(value, max_len)
}

/// Validate that a number is not zero.
pub fn assert_non_zero_u64(value: u64) -> (r: Result<(), Unit09Error>)
    ensures
        r == outcome(if value == 0 { Some(Unit09Error::ValueOutOfRange) } else { None }),
{
    if value == 0 {
        Err(Unit09Error::ValueOutOfRange)
    } else {
        Ok(())
    }
}

/// Validate that a number is not zero.
pub fn assert_non_zero_u32(value: u32) -> (r: Result<(), Unit09Error>)
    ensures
        r == outcome(if value == 0 { Some(Unit09Error::ValueOutOfRange) } else { None }),
{
    if value == 0 {
        Err(Unit09Error::ValueOutOfRange)
    } else {
        Ok(())
    }
}

/// Validate a fee in basis points (0 to 10000).
pub fn assert_fee_bps_in_range(fee_bps: u16) -> (r: Result<(), Unit09Error>)
    ensures
        r == outcome(if fee_bps > 10000 { Some(Unit09Error::InvalidFeeBps) } else { None }),
{
    if fee_bps > MAX_FEE_BPS {
        Err(Unit09Error::InvalidFeeBps)
    } else {
        Ok(())
    }
}

/// Validate that `value` does not exceed `max`.
pub fn assert_not_greater_u64(value: u64, max: u64) -> (r: Result<(), Unit09Error>)
    ensures
        r == outcome(if value > max { Some(Unit09Error::ValueOutOfRange) } else { None }),
{
    if value > max {
        Err(Unit09Error::ValueOutOfRange)
    } else {
        Ok(())
    }
}

/// Validate that `value` does not exceed `max`.
pub fn assert_not_greater_u32(value: u32, max: u32) -> (r: Result<(), Unit09Error>)
    ensures
        r == outcome(if value > max { Some(Unit09Error::ValueOutOfRange) } else { None }),
{
    if value > max {
        Err(Unit09Error::ValueOutOfRange)
    } else {
        Ok(())
    }
}

/// Shallow URL check: an empty value passes, any other must start with
/// `http://`, `https://`, `ipfs://` or `ar://`.
pub fn assert_url_like(value: &str) -> (r: Result<(), Unit09Error>)
    ensures
        r == outcome(
            if value@.len() != 0 && !has_known_scheme(value@) {
                Some(Unit09Error::MetadataInvalid)
            } else {
                None
            },
        ),
{
    if value.is_empty() {
        return Ok(());
    }
    if !has_known_uri_scheme(value) {
        return Err(Unit09Error::MetadataInvalid);
    }
    Ok(())
}

/// HTTPS-only check: an empty value passes, any other must start with
/// `https://`.
pub fn assert_https_url(value: &str) -> (r: Result<(), Unit09Error>)
    ensures
        r == outcome(
            if value@.len() != 0 && !starts_with(value@, "https://"@) {
                Some(Unit09Error::MetadataInvalid)
            } else {
                None
            },
        ),
{
    if value.is_empty() {
        return Ok(());
    }
    if !str_starts_with(value, "https://") {
        return Err(Unit09Error::MetadataInvalid);
    }
    Ok(())
}

/// Validate that a semantic version is not (0, 0, 0).
pub fn assert_semver_non_zero(version: (u16, u16, u16)) -> (r: Result<(), Unit09Error>)
    ensures
        r == outcome(
            if semver_non_zero(version) { None } else { Some(Unit09Error::ValueOutOfRange) },
        ),
{
    let (major, minor, patch) = version;
    if major == 0 && minor == 0 && patch == 0 {
        Err(Unit09Error::ValueOutOfRange)
    } else {
        Ok(())
    }
}

/// Validate that the signer is the configured admin.
pub fn assert_admin_signer(admin: &Address, signer: &Address) -> (r: Result<(), Unit09Error>)
    ensures
        r == outcome(if *admin == *signer { None } else { Some(Unit09Error::InvalidAdmin) }),
{
    if admin.same(signer) {
        Ok(())
    } else {
        Err(Unit09Error::InvalidAdmin)
    }
}

/// Validate that the signer is the recorded authority.
pub fn assert_authority_signer(authority: &Address, signer: &Address) -> (r: Result<
    (),
    Unit09Error,
>)
    ensures
        r == outcome(
            if *authority == *signer { None } else { Some(Unit09Error::InvalidAuthority) },
        ),
{
    if authority.same(signer) {
        Ok(())
    } else {
        Err(Unit09Error::InvalidAuthority)
    }
}

/// Require a flag to be true, failing with `err` otherwise.
pub fn assert_flag_true(flag: bool, err: Unit09Error) -> (r: Result<(), Unit09Error>)
    ensures
        r == outcome(if flag { None } else { Some(err) }),
{
    if flag {
        Ok(())
    } else {
        Err(err)
    }
}

/// Require a flag to be false, failing with `err` otherwise.
pub fn assert_flag_false(flag: bool, err: Unit09Error) -> (r: Result<(), Unit09Error>)
    ensures
        r == outcome(if flag { Some(err) } else { None }),
{
    if flag {
        Err(err)
    } else {
        Ok(())
    }
}

/// Validate a revision string (commit hash or label) against a byte bound.
pub fn assert_revision_len(revision: &str, max_len: usize) -> (r: Result<(), Unit09Error>)
    ensures
        r == outcome(bounded_str_error(revision@, max_len as nat)),
{
    assert_max_len(revision, max_len)
}

/// Validate an observation note against a byte bound.
pub fn assert_observation_note_len(note: &str, max_len: usize) -> (r: Result<(), Unit09Error>)
    ensures
        r == outcome(bounded_str_error(note@, max_len as nat)),
{
    assert_max_len(note, max_len)
}

/// Require the deployment to be active.
pub fn assert_deployment_active(is_active: bool) -> (r: Result<(), Unit09Error>)
    ensures
        r == outcome(if is_active { None } else { Some(Unit09Error::DeploymentInactive) }),
{
    if is_active {
        Ok(())
    } else {
        Err(Unit09Error::DeploymentInactive)
    }
}

} // verus!

verus! {

/// The first error of a cascade of checks.
pub open spec fn first_error(a: Option<Unit09Error>, b: Option<Unit09Error>) -> Option<
    Unit09Error,
> {
    if a is Some {
        a
    } else {
        b
    }
}

/// The error due to an optional replacement for a required string.
pub open spec fn opt_required_error(s: Option<String>, max: nat) -> Option<Unit09Error> {
    match s {
        Some(v) => required_str_error(v@, max),
        None => None,
    }
}

/// The error due to an optional replacement for a bounded string.
pub open spec fn opt_bounded_error(s: Option<String>, max: nat) -> Option<Unit09Error> {
    match s {
        Some(v) => bounded_str_error(v@, max),
        None => None,
    }
}

/// The error due to an optional replacement for a required URI.
pub open spec fn opt_uri_error(s: Option<String>, max: nat) -> Option<Unit09Error> {
    match s {
        Some(v) => uri_error(v@, max),
        None => None,
    }
}

/// The error due to a semantic version that must not be (0, 0, 0).
pub open spec fn semver_error(version: (u16, u16, u16)) -> Option<Unit09Error> {
    if semver_non_zero(version) {
        None
    } else {
        Some(Unit09Error::ValueOutOfRange)
    }
}

/// Validate an optional replacement for a required string.
pub fn assert_opt_required(value: &Option<String>, max_len: usize) -> (r: Result<(), Unit09Error>)
    ensures
        r == outcome(opt_required_error(*value, max_len as nat)),
{
    match value {
        Some(s) => assert_required_str(s.as_str(), max_len),
        None => Ok(()),
    }
}

/// Validate an optional replacement for a bounded string.
pub fn assert_opt_bounded(value: &Option<String>, max_len: usize) -> (r: Result<(), Unit09Error>)
    ensures
        r == outcome(opt_bounded_error(*value, max_len as nat)),
{
    match value {
        Some(s) => assert_max_len(s.as_str(), max_len),
        None => Ok(()),
    }
}

/// Validate an optional replacement for a required URI.
pub fn assert_opt_uri(value: &Option<String>, max_len: usize) -> (r: Result<(), Unit09Error>)
    ensures
        r == outcome(opt_uri_error(*value, max_len as nat)),
{
    match value {
        Some(s) => assert_uri(s.as_str(), max_len),
        None => Ok(()),
    }
}

} // verus!
