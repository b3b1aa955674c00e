//! PrestoEdit's pane engine: a tree of panes with focus, navigation,
//! layout, scoped variables and a close protocol, stated and proved
//! with Verus.
//!
//! The screen is a tree of panes. Leaves show a text file, the bytes of a
//! file, the log, the color table or nothing; containers split their
//! region in two or stack panes as tabs. Every node meets one contract
//! (`buffer`), and a session (`data`) runs the editor's commands on the
//! tree and on the tables around it.
//!
//! The library does no input or output. Panes record what they draw in a
//! frame (`drawer`) and what they ask of the outside world (`lsp`); files
//! arrive through `Buffer::wants_load` and `Buffer::load`; a command that
//! needs the user, a script or a language server says so in its result.
//! The host carries all of that out.
//!
//! Each type has a model, its view, and each operation is a function on
//! models that the executable code is proved to compute. What holds of the
//! tree whatever is done to it is proved in `buffer::lemmas`.

pub mod bind;
pub mod buffer;
pub mod data;
pub mod drawer;
pub mod drawers;
pub mod event;
pub mod highlight;
pub mod logging;
pub mod lsp;
pub mod math;
pub mod script;
pub mod strmap;
pub mod text;
