//! Renderless logic of a modal dialog: when the native element is presented
//! or closed, when the caller's close callback runs, and the identifiers
//! handed to rendered elements. The host UI layer feeds events in and
//! carries out the reactions that come back.

pub mod dialog;
pub mod id;
pub mod open_closed;
