//! Principals in their textual form.
//!
//! Whether a text denotes a principal is decided by the `ic_principal`
//! crate. This module names what that crate returns and builds the
//! validation of principals and canister identifiers on it.

use ic_principal::Principal;
use vstd::prelude::*;
use vstd::string::*;

verus! {

/// What `ic_principal::Principal::from_text` makes of a text: the bytes of
/// the principal that the text denotes, or the description of what is wrong
/// with the text.
pub uninterp spec fn principal_of_text(text: Seq<char>) -> Result<Seq<u8>, Seq<char>>;

/// Calls `ic_principal::Principal::from_text`. The contract claims only
/// that the outcome is a function of the text: the bytes of the parsed
/// principal on success, and the error's own description on failure.
#[verifier::external_body]
fn principal_from_text(text: &str) -> (parsed: Result<Vec<u8>, String>)
    ensures
        parsed is Ok <==> principal_of_text(text@) is Ok,
        parsed is Ok ==> parsed->Ok_0@ == principal_of_text(text@)->Ok_0,
        parsed is Err ==> parsed->Err_0@ == principal_of_text(text@)->Err_0,
{
    match Principal::from_text(text) {
        Ok(principal) => Ok(principal.as_slice().to_vec()),
        Err(error) => Err(error.to_string()),
    }
}

/// A principal, held by its bytes.
#[derive(Clone, Debug, PartialEq, Eq)]
pub struct PrincipalId {
    pub bytes: Vec<u8>,
}

/// The identifier of a canister: a principal in that role.
#[derive(Clone, Debug, PartialEq, Eq)]
pub struct CanisterId {
    pub principal: PrincipalId,
}

/// Whether a text denotes a principal.
pub open spec fn is_principal_text(text: Seq<char>) -> bool {
    principal_of_text(text) is Ok
}

/// The message for a text that was to denote a principal and does not;
/// `reason` says what is wrong with it.
pub open spec fn principal_complaint(text: Seq<char>, reason: Seq<char>) -> Seq<char> {
    "Couldn't validate PrincipalId. String \""@ + text
        + "\" could not be converted to PrincipalId: "@ + reason
}

/// The message for a text that was to denote a canister and does not;
/// `reason` says what is wrong with it.
pub open spec fn canister_complaint(text: Seq<char>, reason: Seq<char>) -> Seq<char> {
    "Couldn't validate CanisterId. String \""@ + text
        + "\" could not be converted to PrincipalId: "@ + reason
}

/// The message for a text that is no principal, with the reason that the
/// parser gives.
pub open spec fn principal_defect_text(text: Seq<char>) -> Seq<char> {
    principal_complaint(text, principal_of_text(text)->Err_0)
}

/// The message for a text that names no canister, with the reason that
/// the parser gives.
pub open spec fn canister_defect_text(text: Seq<char>) -> Seq<char> {
    canister_complaint(text, principal_of_text(text)->Err_0)
}

/// Reads a principal from its textual form.
pub fn parse_principal(text: &str) -> (parsed: Result<PrincipalId, String>)
    ensures
        parsed is Ok <==> is_principal_text(text@),
        parsed is Ok ==> parsed->Ok_0.bytes@ == principal_of_text(text@)->Ok_0,
        parsed is Err ==> parsed->Err_0@ == principal_of_text(text@)->Err_0,
{
    match principal_from_text(text) {
        Ok(bytes) => Ok(PrincipalId { bytes }),
        Err(reason) => Err(reason),
    }
}

/// Judges a text by what the parser made of it: the text is accepted if it
/// is present and was read as a principal.
pub fn accepts_principal(p: &str, parsed: &Result<PrincipalId, String>) -> (valid: bool)
    ensures
        valid == (p@.len() > 0 && parsed is Ok),
{
    !p.is_empty() && parsed.is_ok()
}

/// Turns what the parser made of a text into the outcome of validating
/// the text as a principal.
pub fn principal_verdict(p: &str, parsed: Result<PrincipalId, String>) -> (result: Result<
    (),
    String,
>)
    ensures
        match parsed {
            Ok(_) => result is Ok,
            Err(reason) => result is Err && result->Err_0@ == principal_complaint(p@, reason@),
        },
{
    match parsed {
        Ok(_) => Ok(()),
        Err(reason) => {
            let mut message = "Couldn't validate PrincipalId. String \"".to_owned();
            message.append(p);
            message.append("\" could not be converted to PrincipalId: ");
            message.append(reason.as_str());
            Err(message)
        },
    }
}

/// The canister that a principal identifies. Every principal can identify
/// a canister.
pub fn canister_of(principal: PrincipalId) -> (id: CanisterId)
    ensures
        id.principal == principal,
{
    CanisterId { principal }
}

/// Turns what the parser made of a text into the outcome of validating
/// the text as the identifier of a canister.
pub fn canister_verdict(p: &str, parsed: Result<PrincipalId, String>) -> (result: Result<
    CanisterId,
    String,
>)
    ensures
        match parsed {
            Ok(principal) => result is Ok && result->Ok_0.principal == principal,
            Err(reason) => result is Err && result->Err_0@ == canister_complaint(p@, reason@),
        },
{
    match parsed {
        Ok(principal) => Ok(canister_of(principal)),
        Err(reason) => {
            let mut message = "Couldn't validate CanisterId. String \"".to_owned();
            message.append(p);
            message.append("\" could not be converted to PrincipalId: ");
            message.append(reason.as_str());
            Err(message)
        },
    }
}

/// Tells whether a text is present and denotes a principal.
pub fn is_valid_principal(p: &str) -> (valid: bool)
    ensures
        valid == (p@.len() > 0 && is_principal_text(p@)),
{
    accepts_principal(p, &parse_principal(p))
}

/// Checks that a text denotes a principal.
pub fn validate_principal(p: &str) -> (result: Result<(), String>)
    ensures
        result is Ok <==> is_principal_text(p@),
        result is Err ==> result->Err_0@ == principal_defect_text(p@),
{
    principal_verdict(p, parse_principal(p))
}

/// Checks that a text denotes a canister.
pub fn validate_canister_id(p: &str) -> (result: Result<(), String>)
    ensures
        result is Ok <==> is_principal_text(p@),
        result is Err ==> result->Err_0@ == canister_defect_text(p@),
{
    match canister_verdict(p, parse_principal(p)) {
        Ok(_) => Ok(()),
        Err(message) => Err(message),
    }
}

/// Reads the identifier of a canister from a text that denotes one.
pub fn canister_id_of(text: &str) -> (id: CanisterId)
    requires
        is_principal_text(text@),
    ensures
        id.principal.bytes@ == principal_of_text(text@)->Ok_0,
{
    match parse_principal(text) {
        Ok(principal) => canister_of(principal),
        Err(_) => vstd::pervasive::unreached(),
    }
}

/// Reads the identifier of a canister from a text; the error is the
/// description of what is wrong with the text.
pub fn parse_canister_id(text: &str) -> (parsed: Result<CanisterId, String>)
    ensures
        parsed is Ok <==> is_principal_text(text@),
        parsed is Ok ==> parsed->Ok_0.principal.bytes@ == principal_of_text(text@)->Ok_0,
        parsed is Err ==> parsed->Err_0@ == principal_of_text(text@)->Err_0,
{
    match parse_principal(text) {
        Ok(principal) => Ok(canister_of(principal)),
        Err(reason) => Err(reason),
    }
}

} // verus!
