//! A StreamDock plugin that shows Twitch channels' live status on keypad
//! buttons: the verified core (settings, key state machine, image pixels,
//! text formatting and request/response decisions).
use vstd::prelude::*;

pub mod strs;
pub mod creds;
pub mod urlenc;
pub mod viewers;
pub mod settings;
pub mod messages;
pub mod plugin;
pub mod events;
pub mod twitch;
pub mod poll;
pub mod index;
pub mod raster;
pub mod images;
pub mod oauth;
pub mod kick;
pub mod startup;
pub mod clock;
pub mod audio;

verus! {
} // verus!
