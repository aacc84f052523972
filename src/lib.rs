//! Window bookkeeping and render-surface lifecycle for a Direct3D 11 triangle
//! demo: message words, window creation parameters, the per-window handler
//! table, the class-wide registry that routes window messages, and the state
//! of the views that depend on the swap chain's size.
pub mod registry;
pub mod renderer;
pub mod window;
