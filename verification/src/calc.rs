//! The calculation facade: validate the name, hash it under the chosen
//! dialect, and look the resulting digit up in the guild table.

use crate::dialect::CharacterClass;
use crate::dialect::Dialect;
use crate::dialect::calculate_section_id;
use crate::dialect::legacy_digit;
use crate::dialect::modern_digit;
use crate::dialect::modern_error;
use crate::dialect::modern_name_ok;
use crate::dialect::modern_section_id;
use crate::dialect::name_error;
use crate::dialect::name_ok;
use crate::dialect::optional_offset;
use crate::error::SectionIdError;
use crate::guild::Guild;
use crate::guild::SectionID;
use crate::guild::get_guild;
use crate::guild::get_section_id;
use crate::guild::same_record;
use vstd::prelude::*;

verus! {

/// Everything `calculate` promises of its result for the name `s`: it
/// succeeds exactly on valid legacy names, the record is the canonical
/// entry for the legacy digit of `s`, and a rejected name draws the
/// matching validation error.
pub open spec fn calculate_post(s: Seq<char>, r: Result<SectionID, SectionIdError>) -> bool {
    &&& r is Ok <==> name_ok(s, Dialect::Legacy)
    &&& r is Ok ==> (r->Ok_0).wf() && (r->Ok_0).id == legacy_digit(s)
    &&& r is Err ==> r->Err_0 == name_error(s)
}

/// The complete guild record for a name under the legacy dialect: the
/// sum of the name's byte values modulo ten picks the guild.
pub fn calculate(name: &str) -> (r: Result<SectionID, SectionIdError>)
    ensures
        calculate_post(name@, r),
{
    let digit: u32 = match calculate_section_id(name) {
        Ok(d) => d,
        Err(e) => {
            return Err(e);
        },
    };
    match get_section_id(digit) {
        Some(record) => Ok(record),
        None => Err(SectionIdError::InvalidKey(digit)),
    }
}

/// Whether the facade succeeds: a valid name for the dialect, and — for
/// the modern dialect, whose calling convention here requires one — a
/// character class.
pub open spec fn facade_ok(s: Seq<char>, dialect: Dialect, class: Option<CharacterClass>) -> bool {
    match dialect {
        Dialect::Legacy => name_ok(s, Dialect::Legacy),
        Dialect::Modern => class is Some && modern_name_ok(s),
    }
}

/// The digit the facade hashes `s` to under `dialect` and `class`.
pub open spec fn facade_digit(s: Seq<char>, dialect: Dialect, class: Option<
    CharacterClass,
>) -> int {
    match dialect {
        Dialect::Legacy => legacy_digit(s),
        Dialect::Modern => modern_digit(s, optional_offset(class)),
    }
}

/// The first error the facade meets: under the modern dialect a missing
/// class is reported before the name is looked at.
pub open spec fn facade_error(s: Seq<char>, dialect: Dialect, class: Option<
    CharacterClass,
>) -> SectionIdError {
    match dialect {
        Dialect::Legacy => name_error(s),
        Dialect::Modern => if class is None {
            SectionIdError::MissingClass
        } else {
            modern_error(s)
        },
    }
}

/// The complete guild record for a name under either dialect. The class
/// is read only by the modern dialect, which requires one here; legacy
/// callers pass `None`.
pub fn calculate_with(name: &str, dialect: Dialect, class: Option<CharacterClass>) -> (r: Result<
    SectionID,
    SectionIdError,
>)
    ensures
        r is Ok <==> facade_ok(name@, dialect, class),
        r is Ok ==> (r->Ok_0).wf() && (r->Ok_0).id == facade_digit(name@, dialect, class),
        r is Err ==> r->Err_0 == facade_error(name@, dialect, class),
{
    match dialect {
        Dialect::Legacy => calculate(name),
        Dialect::Modern => {
            if class.is_none() {
                return Err(SectionIdError::MissingClass);
            }
            let digit: u32 = match modern_section_id(name, class) {
                Ok(d) => d,
                Err(e) => {
                    return Err(e);
                },
            };
            match get_section_id(digit) {
                Some(record) => Ok(record),
                None => Err(SectionIdError::InvalidKey(digit)),
            }
        },
    }
}

/// The guild record for a name under the legacy dialect, in the older
/// guild-centric shape.
pub fn get_guild_for_name(name: &str) -> (r: Result<Guild, SectionIdError>)
    ensures
        r is Ok <==> name_ok(name@, Dialect::Legacy),
        r is Ok ==> (r->Ok_0).wf() && (r->Ok_0).section_id == legacy_digit(name@),
        r is Err ==> r->Err_0 == name_error(name@),
{
    let digit: u32 = match calculate_section_id(name) {
        Ok(d) => d,
        Err(e) => {
            return Err(e);
        },
    };
    match get_guild(digit) {
        Some(record) => Ok(record),
        None => Err(SectionIdError::InvalidKey(digit)),
    }
}

/// The calculation is a pure function of its input: any two results that
/// `calculate` may return for the same name agree — they succeed or fail
/// together, successes carry the same observable record, and failures
/// carry the same error.
pub proof fn lemma_calculate_deterministic(
    s: Seq<char>,
    r1: Result<SectionID, SectionIdError>,
    r2: Result<SectionID, SectionIdError>,
)
    requires
        calculate_post(s, r1),
        calculate_post(s, r2),
    ensures
        r1 is Ok <==> r2 is Ok,
        r1 is Ok ==> same_record(r1->Ok_0, r2->Ok_0),
        r1 is Err ==> r1->Err_0 == r2->Err_0,
{
}

} // verus!
