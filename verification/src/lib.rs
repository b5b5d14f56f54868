//! Builders for native file-selection and message dialogs.
//!
//! A caller gathers a configuration through chained calls and ends the
//! chain with one terminal operation. The terminal operation hands the
//! configuration to the platform's native layer and gives back what the
//! user chose, or nothing when the user cancelled.
//!
//! The native layer is no part of this crate. It is whatever type
//! implements the traits of [`backend`] for the platform at hand, and every
//! terminal operation takes it as an argument.
pub mod async_file_dialog;
pub mod backend;
pub mod config;
pub mod file_dialog;
pub mod file_handle;
pub mod message_dialog;
pub mod selection;

pub use async_file_dialog::AsyncFileDialog;
pub use backend::{
    AsyncFilePickerDialogImpl, AsyncFileSaveDialogImpl, AsyncFolderPickerDialogImpl,
    FilePickerDialogImpl, FileSaveDialogImpl, FolderPickerDialogImpl, MessageDialogImpl,
};
pub use config::{Configuration, Filter, FilterView};
pub use file_dialog::FileDialog;
pub use file_handle::FileHandle;
pub use message_dialog::{MessageButtons, MessageDialog, MessageLevel, MessageView};
pub use selection::{confirmed_selection, Selection};
