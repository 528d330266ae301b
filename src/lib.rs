//! A frame-rendering engine core: the scene model, the compiler that flattens a
//! scene into per-frame GPU buffers, the presentation-surface rules, the frame
//! scheduler's state machine, the fixed command-recording order, and the
//! assembly of meshes and material libraries from OBJ and MTL statements.
pub mod matrix;
pub mod vector;
pub mod error;
pub mod scene;
pub mod batch;
pub mod surface;
pub mod scheduler;
pub mod recorder;
pub mod editor;
pub mod obj;
