//! Settings model and decision logic for a Discord rich presence configurator.
use vstd::prelude::*;

pub mod activity;
pub mod dropdown;
pub mod gui;
pub mod launch;
pub mod req;
pub mod settings;
pub mod text;
pub mod timestamp;

pub use settings::{
    ActivityDetails, AppSettings, Assets, AutoUpdateStates, Button, ButtonTrait, EndTimestampTypes,
    Party, SettingsJson, SettingsJsonTrait, StartTimestampTypes,
};

verus! {

/// The greeting string of the library.
pub fn test() -> (r: String)
    ensures
        r@ == "hi?"@,
{
    "hi?".to_owned()
}

} // verus!
