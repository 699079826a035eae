//! Translation of a backend-independent widget tree into an HTML node tree.
//!
//! [`value`] and [`attribute`] hold the typed attribute model, [`widget`]
//! the abstract tree, [`html`] the concrete tree, [`translate`] the walk
//! that turns the first into the second, and [`event`] the events that the
//! callbacks of a tree take.

pub mod attribute;
pub mod conversions;
pub mod data_uri;
pub mod decimal;
pub mod event;
pub mod html;
pub mod mime;
pub mod translate;
pub mod translate_laws;
pub mod value;
pub mod value_laws;
pub mod widget;
