//! Capability tokens.
//!
//! A build request may enable SPIR-V capabilities, named on the command
//! line by tokens such as `Int8`.  Which tokens name a capability is
//! decided by the capability-name table that the shader builder ships;
//! the library assumes nothing of that table beyond that it is a fixed
//! predicate on the token.

use core::str::FromStr;

use vstd::prelude::*;

use crate::request::ConfigError;

verus! {

/// The shader builder's capability enum, carried opaquely through the
/// build configuration.
#[verifier::external_type_specification]
#[verifier::external_body]
pub struct ExCapability(spirv_builder::Capability);

/// Whether `token` names a SPIR-V capability.  The table of names belongs
/// to the shader builder and depends on the token alone.
pub uninterp spec fn capability_token_accepted(token: Seq<u8>) -> bool;

/// Relies on `spirv_builder::Capability::from_str`, the generated
/// capability-name table: a pure lookup whose outcome depends on the
/// token alone.  A token that is not UTF-8 names no capability.
#[verifier::external_body]
fn capability_from_token(token: &Vec<u8>) -> (r: Option<spirv_builder::Capability>)
    ensures
        r is Some <==> capability_token_accepted(token@),
{
    match core::str::from_utf8(token) {
        Ok(name) => spirv_builder::Capability::from_str(name).ok(),
        Err(_) => None,
    }
}

/// Parses a capability token: `Ok` exactly on the tokens the shader
/// builder's capability-name table accepts, the library's configuration
/// error on every other token.
pub fn parse_capability(token: &Vec<u8>) -> (r: Result<spirv_builder::Capability, ConfigError>)
    ensures
        r is Ok <==> capability_token_accepted(token@),
        r is Err ==> r->Err_0 == ConfigError::UnknownCapability,
{
    match capability_from_token(token) {
        Some(capability) => Ok(capability),
        None => Err(ConfigError::UnknownCapability),
    }
}

} // verus!
