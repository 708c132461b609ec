pub mod dispatch_laws;
pub mod edit_laws;
pub mod grid;
pub mod laws;
pub mod render;
pub mod screen;
pub mod types;
pub mod vt100;

pub use screen::ScreenBuffer;
pub use types::{CharAttr, Charset, TermCell, COLOR_TABLE};
pub use vt100::Vt100Performer;
