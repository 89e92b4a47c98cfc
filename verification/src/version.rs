//! Versions of the program that keeps a registry, and whether what is kept
//! was written by an older one.

use vstd::prelude::*;
use crate::error::{ContractError, ContractErrorView};
use crate::msg::MigrateMsg;

verus! {

/// Whether the version `stored` precedes the version `current`, as the crate
/// `semver` reads and orders versions; or, where one of the two texts is no
/// version, what `semver` says of it, of `current` first.
pub uninterp spec fn version_precedes(stored: Seq<char>, current: Seq<char>) -> Result<bool, Seq<char>>;

/// The value of an order of versions, or of the reason why there is none.
pub open spec fn order_view(order: Result<bool, String>) -> Result<bool, Seq<char>> {
    match order {
        Ok(older) => Ok(older),
        Err(text) => Err(text@),
    }
}

/// Reads both texts with `semver::Version::parse`, `current` first, and
/// orders the versions with `<`. Where a text is no version, the error's
/// text (`to_string`) is returned. The result depends on the two texts alone.
#[verifier::external_body]
pub(crate) fn precedes(stored: &String, current: &String) -> (order: Result<bool, String>)
    ensures
        order_view(order) == version_precedes(stored@, current@),
{
    match semver::Version::parse(current) {
        Err(e) => Err(e.to_string()),
        Ok(current) => match semver::Version::parse(stored) {
            Err(e) => Err(e.to_string()),
            Ok(stored) => Ok(stored < current),
        },
    }
}

/// What a migration does for an order of versions: whether the version kept
/// is to be replaced by the current one, or the error for a text that is no
/// version.
pub open spec fn migration_for(order: Result<bool, Seq<char>>) -> Result<bool, ContractErrorView> {
    match order {
        Ok(older) => Ok(older),
        Err(text) => Err(ContractErrorView::SemVer(text)),
    }
}

/// The value of what a migration returned.
pub open spec fn migration_view(result: Result<bool, ContractError>) -> Result<bool, ContractErrorView> {
    match result {
        Ok(replace) => Ok(replace),
        Err(e) => Err(e@),
    }
}

/// Decides a migration from the order of the two versions.
pub fn migration_due(order: Result<bool, String>) -> (result: Result<bool, ContractError>)
    ensures
        migration_view(result) == migration_for(order_view(order)),
{
    match order {
        Ok(older) => Ok(older),
        Err(text) => Err(ContractError::SemVer(text)),
    }
}

/// Decides whether the version kept with a registry, `stored_version`, is to
/// be replaced by `current_version`: it is where it precedes it.
pub fn migrate(stored_version: &String, current_version: &String, msg: MigrateMsg) -> (result: Result<
    bool,
    ContractError,
>)
    ensures
        migration_view(result) == migration_for(version_precedes(stored_version@, current_version@)),
{
    migration_due(precedes(stored_version, current_version))
}

} // verus!
