//! Recording, editing and replaying mouse macros.
//!
//! Raw samples of the pointer and of the buttons are classified into a
//! timeline of rows (`recorder`), runs of pointer samples are folded into
//! polylines and unfolded again (`timeline`), and a timeline is replayed by an
//! engine that is driven step by step (`playback`). A `session` holds the
//! three together with the `editor` of rows.
//!
//! The library touches nothing outside itself: it reads no clock, no screen
//! and no file, and moves no pointer. Its caller does, and hands over what it
//! has read. Everything the library decides is stated in contracts and
//! proved; the laws that relate its parts stand beside them, most of them in
//! the `laws` modules.
//!
//! - `model`: the rows of a timeline and their values.
//! - `recorder`: from samples to rows.
//! - `timeline`: the compact and the editable shape of a timeline.
//! - `playback`: the engine that replays a timeline.
//! - `region`: squares on the screen.
//! - `patch`, `codec`: reference images as PNG files in base64 text.
//! - `editor`, `modal`, `session`: the commands of the user interface.
//! - `formatting`, `text`: rows and numbers as text.
//! - `hook`: picking a point by clicking anywhere.

pub mod codec;
pub mod editor;
pub mod formatting;
pub mod hook;
pub mod modal;
pub mod model;
pub mod patch;
pub mod playback;
pub mod recorder;
pub mod region;
pub mod session;
pub mod text;
pub mod timeline;
