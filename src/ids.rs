//! Commit and change identifiers as they cross the library's boundary: text,
//! never raw bytes.
use vstd::prelude::*;
use jj_lib::object_id::ObjectId;
use crate::error::{JjError, joined};
use crate::hexcode::{
    decode_hex, hex_decoded, hex_error_text, hex_of, is_hex_bytes_text,
    is_reverse_hex_bytes_text, reverse_hex_decoded, reverse_hex_of,
};

verus! {

/// A commit id in lowercase hex.
#[derive(Debug, Clone, PartialEq, Eq, Hash)]
pub struct FfiCommitId {
    pub hex: String,
}

/// A change id in the `z`..`k` reverse-hex alphabet.
#[derive(Debug, Clone, PartialEq, Eq, Hash)]
pub struct FfiChangeId {
    pub hex: String,
}

/// Relies on `CommitId::hex` of jj-lib: two lowercase hex digits per byte.
#[verifier::external_body]
fn commit_id_text(bytes: &Vec<u8>) -> (r: String)
    ensures
        r@ == hex_of(bytes@),
{
    jj_lib::backend::CommitId::new(bytes.clone()).hex()
}

/// Relies on `ChangeId::reverse_hex` of jj-lib: two `z`..`k` digits per byte.
#[verifier::external_body]
fn change_id_text(bytes: &Vec<u8>) -> (r: String)
    ensures
        r@ == reverse_hex_of(bytes@),
{
    jj_lib::backend::ChangeId::new(bytes.clone()).reverse_hex()
}

/// Relies on `ChangeId::try_from_reverse_hex` of jj-lib: an even number of
/// reverse-hex digits of either case decodes, anything else does not.
#[verifier::external_body]
fn change_id_from_text(text: &str) -> (r: Option<Vec<u8>>)
    ensures
        r is Some <==> is_reverse_hex_bytes_text(text@),
        r is Some ==> r->Some_0@ == reverse_hex_decoded(text@),
{
    match jj_lib::backend::ChangeId::try_from_reverse_hex(text) {
        Some(id) => Some(id.to_bytes()),
        None => None,
    }
}

impl FfiCommitId {
    pub fn new(hex: String) -> (r: Self)
        ensures
            r.hex == hex,
    {
        FfiCommitId { hex }
    }

    /// The id of the given bytes.
    pub fn from_bytes(bytes: &Vec<u8>) -> (r: Self)
        ensures
            r.hex@ == hex_of(bytes@),
    {
        FfiCommitId { hex: commit_id_text(bytes) }
    }

    /// The bytes that the id stands for; an id that is not an even number of hex
    /// digits is an InvalidArgument, whose message starts with `what`.
    pub fn to_bytes(&self, what: &str) -> (r: Result<Vec<u8>, JjError>)
        ensures
            r is Ok <==> is_hex_bytes_text(self.hex@),
            r is Ok ==> r->Ok_0@ == hex_decoded(self.hex@),
            r is Err ==> r->Err_0 is InvalidArgument,
    {
        match decode_hex(self.hex.as_str()) {
            Ok(bytes) => Ok(bytes),
            Err(e) => {
                let text = hex_error_text(&e);
                Err(JjError::InvalidArgument { message: joined(what, text.as_str()) })
            },
        }
    }
}

impl FfiChangeId {
    pub fn new(hex: String) -> (r: Self)
        ensures
            r.hex == hex,
    {
        FfiChangeId { hex }
    }

    /// The id of the given bytes.
    pub fn from_bytes(bytes: &Vec<u8>) -> (r: Self)
        ensures
            r.hex@ == reverse_hex_of(bytes@),
    {
        FfiChangeId { hex: change_id_text(bytes) }
    }

    /// The bytes that the id stands for; anything but an even number of
    /// reverse-hex digits is an InvalidArgument.
    pub fn to_bytes(&self) -> (r: Result<Vec<u8>, JjError>)
        ensures
            r is Ok <==> is_reverse_hex_bytes_text(self.hex@),
            r is Ok ==> r->Ok_0@ == reverse_hex_decoded(self.hex@),
            r is Err ==> (r->Err_0 matches JjError::InvalidArgument { message } && message@
                == "Invalid change ID: "@ + self.hex@),
    {
        match change_id_from_text(self.hex.as_str()) {
            Some(bytes) => Ok(bytes),
            None => Err(
                JjError::InvalidArgument { message: joined("Invalid change ID: ", self.hex.as_str()) },
            ),
        }
    }
}

} // verus!
