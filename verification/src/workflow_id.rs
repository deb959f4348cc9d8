//! Workflow ids in the text of a coordinate.
use vstd::prelude::*;

verus! {

/// `uuid::Error`, which says what is wrong with a text.
#[verifier::external_type_specification]
#[verifier::external_body]
pub struct ExUuidError(uuid::Error);

/// The UUID that a text spells, as a 128-bit value, if it spells one.
pub uninterp spec fn uuid_from_text(text: Seq<char>) -> Option<u128>;

/// Whether a text has the length of one of the four forms in which a UUID is spelled:
/// 32 hexadecimal digits, the same with four hyphens, and that again in braces or
/// behind `urn:uuid:`.
pub open spec fn has_uuid_length(text: Seq<char>) -> bool {
    text.len() == 32 || text.len() == 36 || text.len() == 38 || text.len() == 45
}

/// `uuid::Uuid::parse_str`, with the UUID read as its 128-bit value. A text spells
/// a UUID in one of four forms, each of a length of its own. Which texts of these
/// lengths do, and what UUID each gives, is left to [`uuid_from_text`].
#[verifier::external_body]
fn parse_uuid(text: &str) -> (parsed: Result<u128, uuid::Error>)
    ensures
        parsed.ok() == uuid_from_text(text@),
        parsed is Ok ==> has_uuid_length(text@),
{
    match uuid::Uuid::parse_str(text) {
        Ok(uuid) => Ok(uuid.as_u128()),
        Err(error) => Err(error),
    }
}

/// The workflow id that a coordinate's d-tag spells. A d-tag that spells none is a
/// workflow's name.
pub fn workflow_id(d_tag: &str) -> (id: Option<u128>)
    ensures
        id == uuid_from_text(d_tag@),
        id is Some ==> has_uuid_length(d_tag@),
{
    match parse_uuid(d_tag) {
        Ok(id) => Some(id),
        Err(_) => None,
    }
}

} // verus!
