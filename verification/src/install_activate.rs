//! Installing an application whose bundles ask for no membrane proof, and
//! judging the answer to enabling it.

use vstd::prelude::*;
use crate::error::BootstrapError;
use crate::install_enable::{
    enable_outcome,
    install_outcome,
    install_units,
    install_view,
    InstallUnit,
    Registration,
};

verus! {

/// Folds the answers of the registration tasks into one install request
/// whose units carry no membrane proof. All units are returned, or none: the
/// first failed task in the order of the bundles decides the error.
pub fn install_app(agent_key: &Vec<u8>, dnas: &Vec<(Registration, String)>) -> (result: Result<
    Vec<InstallUnit>,
    BootstrapError,
>)
    ensures
        install_view(result) == install_outcome(agent_key@, dnas@, None),
{
    install_units(agent_key, dnas, &Ok(None))
}

/// Judges the runtime's answer to enabling the application `app_id`: an
/// application that the runtime does not list afterwards is an error; else
/// the first component error that was reported, if any, fails the whole.
pub fn enable_app(app_id: String, app_known: bool, cell_errors: &Vec<String>) -> (result: Result<
    (),
    BootstrapError,
>)
    ensures
        result == enable_outcome(app_id, app_known, cell_errors@),
{
    crate::install_enable::enable_app(app_id, app_known, cell_errors)
}

} // verus!
