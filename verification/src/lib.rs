//! Model logic for a pair of small desktop demos: a todo-list manager and a
//! hex-editor/file-inspector.
//!
//! The GUI shell (window setup, styling, the reactive view tree) lives
//! outside this crate; here stand the parts that compute: the todo event
//! handler, the hex editor's selection and inspector state machine,
//! endian-aware integer decoding, and the grid layout arithmetic.

pub mod app_data;
pub mod decode;
pub mod grid;
pub mod model;
