//! The data a file dialog is configured with, and its mathematical model.
use std::path::PathBuf;
use vstd::prelude::*;

verus! {

/// `std::path::PathBuf`, carried through as an opaque value: nothing is
/// claimed about what a path holds, and the builders never look inside one.
#[verifier::external_type_specification]
#[verifier::external_body]
pub struct ExPathBuf(PathBuf);

/// A named group of file-extension patterns, such as "Images" with
/// `png` and `jpg`.
pub struct Filter {
    /// The name shown to the user where the platform shows filter names.
    pub name: String,
    /// The extensions, in the order given, exactly as given.
    pub extensions: Vec<String>,
}

/// What a [`Filter`] says: its name and its extensions as texts.
#[verifier::ext_equal]
pub struct FilterView {
    pub name: Seq<char>,
    pub extensions: Seq<Seq<char>>,
}

impl View for Filter {
    type V = FilterView;

    open spec fn view(&self) -> FilterView {
        FilterView { name: self.name@, extensions: self.extensions.deep_view() }
    }
}

/// What a file dialog is configured with: its filters in the order they
/// were added, and the directory it starts in, if one was set.
#[verifier::ext_equal]
pub struct Configuration {
    pub filters: Seq<FilterView>,
    pub starting_directory: Option<PathBuf>,
}

impl Configuration {
    /// The configuration of a fresh builder: no filtering, and the
    /// platform's own starting location.
    pub open spec fn empty() -> Configuration {
        Configuration { filters: Seq::empty(), starting_directory: None }
    }

    /// This configuration with one more filter after those it has.
    pub open spec fn add_filter(self, filter: FilterView) -> Configuration {
        Configuration { filters: self.filters.push(filter), ..self }
    }

    /// This configuration starting in `path`, whatever it started in before.
    pub open spec fn set_directory(self, path: PathBuf) -> Configuration {
        Configuration { starting_directory: Some(path), ..self }
    }

    /// This configuration after one `add_filter` call for each element of
    /// `added`, made in the order of the sequence.
    pub open spec fn add_filters(self, added: Seq<FilterView>) -> Configuration
        decreases added.len(),
    {
        if added.len() == 0 {
            self
        } else {
            self.add_filters(added.drop_last()).add_filter(added.last())
        }
    }
}

/// Filters keep the order of the calls that added them: after any sequence
/// of `add_filter` calls the configuration holds the filters it had before,
/// followed by the added ones in call order, and starts where it did.
pub proof fn lemma_filters_keep_call_order(config: Configuration, added: Seq<FilterView>)
    ensures
        config.add_filters(added).filters == config.filters + added,
        config.add_filters(added).starting_directory == config.starting_directory,
    decreases added.len(),
{
    if added.len() > 0 {
        lemma_filters_keep_call_order(config, added.drop_last());
    }
}

/// The last `set_directory` wins: setting the directory twice leaves the
/// configuration exactly as if only the second call had been made, also
/// when filters were added between the two calls.
pub proof fn lemma_last_directory_wins(
    config: Configuration,
    first: PathBuf,
    between: Seq<FilterView>,
    second: PathBuf,
)
    ensures
        config.set_directory(first).set_directory(second) == config.set_directory(second),
        config.set_directory(first).add_filters(between).set_directory(second)
            == config.add_filters(between).set_directory(second),
{
    lemma_filters_keep_call_order(config.set_directory(first), between);
    lemma_filters_keep_call_order(config, between);
}

} // verus!
