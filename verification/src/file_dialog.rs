//! The blocking file dialog builder.
use crate::backend::{FilePickerDialogImpl, FileSaveDialogImpl, FolderPickerDialogImpl};
use crate::config::{Configuration, Filter, FilterView};
use crate::selection::confirmed_selection;
use std::path::PathBuf;
use vstd::prelude::*;

verus! {

/// Builder of a blocking file dialog.
///
/// Each builder call takes the builder and gives back a new one, and a
/// terminal operation takes it for good: a builder serves one dialog.
pub struct FileDialog {
    /// The filters, first added first. Where the platform has a notion of
    /// an active filter, the first one is active when the dialog opens.
    pub filters: Vec<Filter>,
    /// Where the dialog starts, if set. Never checked against the file
    /// system: the native layer decides what to do with a directory that
    /// does not exist.
    pub starting_directory: Option<PathBuf>,
}

impl View for FileDialog {
    type V = Configuration;

    open spec fn view(&self) -> Configuration {
        Configuration {
            filters: self.filters@.map_values(|filter: Filter| filter@),
            starting_directory: self.starting_directory,
        }
    }
}

impl FileDialog {
    /// A builder with no filters and no starting directory.
    pub fn new() -> (dialog: Self)
        ensures
            dialog@ == Configuration::empty(),
    {
        FileDialog { filters: Vec::new(), starting_directory: None }
    }

    /// Adds a filter named `name` for `extensions`, after the filters
    /// already added. An empty list of extensions is accepted.
    pub fn add_filter(self, name: &str, extensions: &[&str]) -> (dialog: Self)
        ensures
            dialog@ == self@.add_filter(
                (FilterView { name: name@, extensions: extensions.deep_view() }),
            ),
    {
        let mut owned: Vec<String> = Vec::new();
        let mut i: usize = 0;
        while i < extensions.len()
            invariant
                i <= extensions.len(),
                owned@.len() == i,
                forall|k: int| 0 <= k < i ==> owned@[k]@ == extensions@[k]@,
            decreases extensions.len() - i,
        {
            owned.push(extensions[i].to_string());
            i += 1;
        }
        let filter = Filter { name: name.to_string(), extensions: owned };
        assert(filter@.extensions =~= extensions.deep_view());
        let mut dialog = self;
        dialog.filters.push(filter);
        dialog
    }

    /// Sets the directory the dialog starts in, replacing one set before.
    pub fn set_directory(self, path: PathBuf) -> (dialog: Self)
        ensures
            dialog@ == self@.set_directory(path),
    {
        let mut dialog = self;
        dialog.starting_directory = Some(path);
        dialog
    }

    /// Lets the user pick one file. Hands this builder to the single-file
    /// dialog of `native` and returns what that reports: the file, or
    /// `None` when the user cancelled or the platform refused.
    pub fn pick_file<L: FilePickerDialogImpl>(self, native: &L) -> (picked: Option<PathBuf>)
        ensures
            call_ensures(L::pick_file, (native, self), picked),
    {
        native.pick_file(self)
    }

    /// Lets the user pick any number of files. Hands this builder to the
    /// multiple-file dialog of `native` and returns the files that reports.
    /// A report of no files counts as a cancellation, so a returned
    /// selection is never empty.
    pub fn pick_files<L: FilePickerDialogImpl>(self, native: &L) -> (picked: Option<Vec<PathBuf>>)
        ensures
            (exists|reported: Option<Vec<PathBuf>>|
                {
                    &&& #[trigger] call_ensures(L::pick_files, (native, self), reported)
                    &&& picked == confirmed_selection(reported)
                }),
            picked matches Some(files) ==> files@.len() > 0,
    {
        confirmed_selection(native.pick_files(self))
    }

    /// Lets the user pick one folder. Hands this builder to the folder
    /// dialog of `native` and returns what that reports.
    pub fn pick_folder<L: FolderPickerDialogImpl>(self, native: &L) -> (picked: Option<PathBuf>)
        ensures
            call_ensures(L::pick_folder, (native, self), picked),
    {
        native.pick_folder(self)
    }

    /// Lets the user name a file to save to. Hands this builder to the save
    /// dialog of `native` and returns what that reports. The path need not
    /// name a file that exists.
    pub fn save_file<L: FileSaveDialogImpl>(self, native: &L) -> (picked: Option<PathBuf>)
        ensures
            call_ensures(L::save_file, (native, self), picked),
    {
        native.save_file(self)
    }
}

impl Default for FileDialog {
    fn default() -> (dialog: Self)
        ensures
            dialog@ == Configuration::empty(),
    {
        FileDialog::new()
    }
}

} // verus!
