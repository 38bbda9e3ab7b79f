//! What the shortcuts do.

pub mod bindings;
pub mod chinese;
pub mod post_process;
pub mod start;
pub mod start_laws;
pub mod stop;
pub mod stop_laws;
