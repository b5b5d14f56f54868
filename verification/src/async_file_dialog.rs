//! The non-blocking file dialog builder.
use crate::backend::{
    AsyncFilePickerDialogImpl, AsyncFileSaveDialogImpl, AsyncFolderPickerDialogImpl,
};
use crate::config::{Configuration, FilterView};
use crate::file_dialog::FileDialog;
use crate::selection::lemma_selection_is_never_empty;
use std::path::PathBuf;
use vstd::future::FutureAdditionalSpecFns;
use vstd::prelude::*;

verus! {

/// Builder of a file dialog that does not block the caller.
///
/// It gathers the same configuration as [`FileDialog`]. A terminal
/// operation presents the dialog and returns the native layer's deferred
/// result, which resolves once, when the user confirms or cancels. Every
/// call owns its configuration, so dialogs in flight at the same time share
/// nothing.
pub struct AsyncFileDialog {
    file_dialog: FileDialog,
}

impl View for AsyncFileDialog {
    type V = Configuration;

    open spec fn view(&self) -> Configuration {
        self.file_dialog()@
    }
}

impl AsyncFileDialog {
    /// The blocking builder that carries this builder's configuration, and
    /// that a terminal operation hands to the native layer.
    pub closed spec fn file_dialog(self) -> FileDialog {
        self.file_dialog
    }

    /// A builder with no filters and no starting directory.
    pub fn new() -> (dialog: Self)
        ensures
            dialog@ == Configuration::empty(),
    {
        AsyncFileDialog { file_dialog: FileDialog::new() }
    }

    /// Adds a filter named `name` for `extensions`, after the filters
    /// already added. An empty list of extensions is accepted.
    pub fn add_filter(self, name: &str, extensions: &[&str]) -> (dialog: Self)
        ensures
            dialog@ == self@.add_filter(
                (FilterView { name: name@, extensions: extensions.deep_view() }),
            ),
    {
        AsyncFileDialog { file_dialog: self.file_dialog.add_filter(name, extensions) }
    }

    /// Sets the directory the dialog starts in, replacing one set before.
    pub fn set_directory(self, path: PathBuf) -> (dialog: Self)
        ensures
            dialog@ == self@.set_directory(path),
    {
        AsyncFileDialog { file_dialog: self.file_dialog.set_directory(path) }
    }

    /// Presents the dialog for one file: hands the configuration to
    /// `native` and returns its deferred result as it is.
    pub fn pick_file<L: AsyncFilePickerDialogImpl>(self, native: &L) -> (deferred: L::PickFile)
        ensures
            call_ensures(L::pick_file_async, (native, self.file_dialog()), deferred),
    {
        native.pick_file_async(self.file_dialog)
    }

    /// Presents the dialog for several files: hands the configuration to
    /// `native` and returns its deferred result as it is. Whatever the
    /// native layer reports, the selection that the result resolves to is
    /// absent or holds at least one file: nothing selected counts as a
    /// cancellation.
    pub fn pick_files<L: AsyncFilePickerDialogImpl>(self, native: &L) -> (deferred: L::PickFiles)
        ensures
            call_ensures(L::pick_files_async, (native, self.file_dialog()), deferred),
            deferred@@ matches Some(files) ==> files.len() > 0,
    {
        let deferred = native.pick_files_async(self.file_dialog);
        proof {
            lemma_selection_is_never_empty(deferred@);
        }
        deferred
    }

    /// Presents the dialog for a folder: hands the configuration to
    /// `native` and returns its deferred result as it is.
    pub fn pick_folder<L: AsyncFolderPickerDialogImpl>(self, native: &L) -> (deferred: L::PickFolder)
        ensures
            call_ensures(L::pick_folder_async, (native, self.file_dialog()), deferred),
    {
        native.pick_folder_async(self.file_dialog)
    }

    /// Presents the save dialog: hands the configuration to `native` and
    /// returns its deferred result as it is.
    pub fn save_file<L: AsyncFileSaveDialogImpl>(self, native: &L) -> (deferred: L::SaveFile)
        ensures
            call_ensures(L::save_file_async, (native, self.file_dialog()), deferred),
    {
        native.save_file_async(self.file_dialog)
    }
}

impl Default for AsyncFileDialog {
    fn default() -> (dialog: Self)
        ensures
            dialog@ == Configuration::empty(),
    {
        AsyncFileDialog::new()
    }
}

} // verus!
