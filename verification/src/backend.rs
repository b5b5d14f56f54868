//! What a platform's native layer offers to the builders.
//!
//! One trait per capability, so that a platform without folder or save
//! dialogs leaves those traits out and a caller finds out when compiling.
//! No method has a precondition: a native layer takes every configuration,
//! the empty one included, and answers a cancellation or a refusal of the
//! platform with an absent result, never with a failure. It owns the
//! configuration it is handed and must not keep it once the call is over.
use crate::file_dialog::FileDialog;
use crate::file_handle::FileHandle;
use crate::message_dialog::MessageDialog;
use crate::selection::Selection;
use std::future::Future;
use std::path::PathBuf;
use vstd::prelude::*;

verus! {

/// Blocking dialogs that pick existing files.
pub trait FilePickerDialogImpl {
    /// Shows the dialog for one file and returns once it is closed.
    fn pick_file(&self, dialog: FileDialog) -> Option<PathBuf>;

    /// Shows the dialog for several files and returns once it is closed.
    fn pick_files(&self, dialog: FileDialog) -> Option<Vec<PathBuf>>;
}

/// The blocking dialog that picks a folder.
pub trait FolderPickerDialogImpl {
    /// Shows the dialog and returns once it is closed.
    fn pick_folder(&self, dialog: FileDialog) -> Option<PathBuf>;
}

/// The blocking dialog that names a file to save to.
pub trait FileSaveDialogImpl {
    /// Shows the dialog and returns once it is closed.
    fn save_file(&self, dialog: FileDialog) -> Option<PathBuf>;
}

/// Dialogs that pick existing files without blocking the caller.
pub trait AsyncFilePickerDialogImpl {
    /// Resolves once, when the dialog for one file is closed.
    type PickFile: Future<Output = Option<FileHandle>>;

    /// Resolves once, when the dialog for several files is closed. The
    /// native layer answers through [`Selection::confirmed`], so that
    /// nothing selected reaches the caller as a cancellation.
    type PickFiles: Future<Output = Selection<FileHandle>>;

    /// Presents the dialog for one file.
    fn pick_file_async(&self, dialog: FileDialog) -> Self::PickFile;

    /// Presents the dialog for several files.
    fn pick_files_async(&self, dialog: FileDialog) -> Self::PickFiles;
}

/// The dialog that picks a folder without blocking the caller.
pub trait AsyncFolderPickerDialogImpl {
    /// Resolves once, when the dialog is closed.
    type PickFolder: Future<Output = Option<FileHandle>>;

    /// Presents the dialog.
    fn pick_folder_async(&self, dialog: FileDialog) -> Self::PickFolder;
}

/// The dialog that names a file to save to without blocking the caller.
pub trait AsyncFileSaveDialogImpl {
    /// Resolves once, when the dialog is closed.
    type SaveFile: Future<Output = Option<FileHandle>>;

    /// Presents the dialog.
    fn save_file_async(&self, dialog: FileDialog) -> Self::SaveFile;
}

/// The native message box.
pub trait MessageDialogImpl {
    /// Shows the message and returns once the box is closed.
    fn show(&self, dialog: MessageDialog);
}

/// No blocking dialog can turn a configuration down: whatever the
/// configuration, the one of a fresh builder included, every dialog of
/// every native layer may be shown with it.
pub proof fn lemma_blocking_dialogs_take_every_configuration<P, F, S>(
    picker: &P,
    folders: &F,
    saver: &S,
    dialog: FileDialog,
) where P: FilePickerDialogImpl, F: FolderPickerDialogImpl, S: FileSaveDialogImpl
    ensures
        call_requires(P::pick_file, (picker, dialog)),
        call_requires(P::pick_files, (picker, dialog)),
        call_requires(F::pick_folder, (folders, dialog)),
        call_requires(S::save_file, (saver, dialog)),
{
}

/// No dialog that leaves the caller free can turn a configuration down:
/// whatever the configuration, the one of a fresh builder included, every
/// dialog of every native layer may be presented with it.
pub proof fn lemma_deferred_dialogs_take_every_configuration<P, F, S>(
    picker: &P,
    folders: &F,
    saver: &S,
    dialog: FileDialog,
) where P: AsyncFilePickerDialogImpl, F: AsyncFolderPickerDialogImpl, S: AsyncFileSaveDialogImpl
    ensures
        call_requires(P::pick_file_async, (picker, dialog)),
        call_requires(P::pick_files_async, (picker, dialog)),
        call_requires(F::pick_folder_async, (folders, dialog)),
        call_requires(S::save_file_async, (saver, dialog)),
{
}

} // verus!
