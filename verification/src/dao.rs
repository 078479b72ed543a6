//! Organisations and their creation.

use vstd::prelude::*;
use crate::error::ErrorCode;
use crate::identity::Identity;
use crate::text::{byte_len, fits};

verus! {

/// The most bytes that an organisation's name may take.
pub const MAX_NAME_LEN: usize = 64;

/// The most bytes that an organisation's description may take.
pub const MAX_DAO_DESCRIPTION_LEN: usize = 256;

/// A governance namespace: the owner of a numbered series of proposals.
#[derive(Clone, Debug, PartialEq, Eq)]
pub struct DAO {
    /// Who created the organisation. Never changes.
    pub authority: Identity,
    pub name: String,
    pub description: String,
    /// How many proposals have been created so far; the last one carries
    /// this number as its id.
    pub proposal_count: u64,
}

/// What a [`DAO`] is, mathematically.
pub struct DaoView {
    pub authority: Identity,
    pub name: Seq<char>,
    pub description: Seq<char>,
    pub proposal_count: nat,
}

impl DaoView {
    /// Both text fields are within their limits.
    pub open spec fn well_formed(self) -> bool {
        &&& byte_len(self.name) <= MAX_NAME_LEN
        &&& byte_len(self.description) <= MAX_DAO_DESCRIPTION_LEN
    }
}

impl View for DAO {
    type V = DaoView;

    open spec fn view(&self) -> DaoView {
        DaoView {
            authority: self.authority,
            name: self.name@,
            description: self.description@,
            proposal_count: self.proposal_count as nat,
        }
    }
}

/// The outcome of creating an organisation: the name is checked before the
/// description, and an accepted organisation starts without proposals.
pub open spec fn create_dao_outcome(
    creator: Identity,
    name: Seq<char>,
    description: Seq<char>,
) -> Result<DaoView, ErrorCode> {
    if byte_len(name) > MAX_NAME_LEN {
        Err(ErrorCode::NameTooLong)
    } else if byte_len(description) > MAX_DAO_DESCRIPTION_LEN {
        Err(ErrorCode::DescriptionTooLong)
    } else {
        Ok(DaoView { authority: creator, name, description, proposal_count: 0 })
    }
}

/// Creates an organisation owned by `creator`.
///
/// Nothing is stored: the caller persists the record that comes back.
pub fn create_dao(creator: Identity, name: String, description: String) -> (result: Result<
    DAO,
    ErrorCode,
>)
    ensures
        byte_len(name@) > MAX_NAME_LEN ==> result == Err::<DAO, ErrorCode>(ErrorCode::NameTooLong),
        byte_len(name@) <= MAX_NAME_LEN && byte_len(description@) > MAX_DAO_DESCRIPTION_LEN
            ==> result == Err::<DAO, ErrorCode>(ErrorCode::DescriptionTooLong),
        byte_len(name@) <= MAX_NAME_LEN && byte_len(description@) <= MAX_DAO_DESCRIPTION_LEN
            ==> result is Ok,
        match create_dao_outcome(creator, name@, description@) {
            Ok(dao) => result is Ok && result->Ok_0@ == dao,
            Err(e) => result == Err::<DAO, ErrorCode>(e),
        },
        result matches Ok(dao) ==> dao@.well_formed(),
{
    if !fits(&name, MAX_NAME_LEN) {
        return Err(ErrorCode::NameTooLong);
    }
    if !fits(&description, MAX_DAO_DESCRIPTION_LEN) {
        return Err(ErrorCode::DescriptionTooLong);
    }
    Ok(DAO { authority: creator, name, description, proposal_count: 0 })
}

} // verus!
