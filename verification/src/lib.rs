//! Decision logic of a desktop panel: where the panel window sits and how much
//! of the screen it reserves, how the window reacts to the events of the
//! windowing system, and how a launcher button finds and reads its desktop
//! entry. The library performs no input or output: it is handed plain values
//! and hands back the requests that its caller is to carry out.

pub mod atoms;
pub mod button;
pub mod desktop;
pub mod entry;
pub mod search;
pub mod strut;
pub mod window;
