//! Safety and encoding layer over the ezTrans J2K translation engine.
//!
//! The library holds every decision of the engine access layer: the
//! reversible escape transform for characters the engine mishandles, the
//! session lifecycle, the choice between the wide and the narrow entry
//! points, and what becomes of each native reply. The native calls
//! themselves are made by the caller, who hands their outcomes back.
pub mod codec;
pub mod engine;
pub mod error;
pub mod registry;
pub mod text;

pub use engine::{EzTransLib, Phase};
pub use error::{EzTransError, TransErr};
