//! Choosing the configuration files among the entries of a directory.

use crate::text::ends_with;
use vstd::prelude::*;

verus! {

/// Ending of the name of a virtual-host configuration file.
pub const VHOST_CONFIG_FILE_EXTENSION: &'static str = ".conf";

/// One entry of a directory listing.
#[derive(Debug, Clone, PartialEq, Eq)]
pub struct DirectoryEntry {
    /// The entry's name, without the directory.
    pub file_name: String,
    /// Whether the entry is a regular file.
    pub is_file: bool,
}

/// Mathematical value of a [`DirectoryEntry`].
pub struct DirectoryEntryView {
    pub file_name: Seq<char>,
    pub is_file: bool,
}

impl View for DirectoryEntry {
    type V = DirectoryEntryView;

    open spec fn view(&self) -> DirectoryEntryView {
        DirectoryEntryView { file_name: self.file_name@, is_file: self.is_file }
    }
}

impl DeepView for DirectoryEntry {
    type V = DirectoryEntryView;

    open spec fn deep_view(&self) -> DirectoryEntryView {
        self@
    }
}

/// Whether `entry` is a configuration file: a regular file whose name ends
/// with `extension`.
pub open spec fn is_config_file(entry: DirectoryEntryView, extension: Seq<char>) -> bool {
    entry.is_file && extension.is_suffix_of(entry.file_name)
}

/// The names of the configuration files among `entries`, in listing order.
pub open spec fn config_file_names(entries: Seq<DirectoryEntryView>, extension: Seq<char>) -> Seq<
    Seq<char>,
> {
    entries.filter(|entry: DirectoryEntryView| is_config_file(entry, extension)).map_values(
        |entry: DirectoryEntryView| entry.file_name,
    )
}

/// Picks the configuration files out of a directory listing: the regular
/// files whose name ends with [`VHOST_CONFIG_FILE_EXTENSION`]. Their names
/// come back in the order of the listing.
pub fn get_vhost_config_file_list(entries: &Vec<DirectoryEntry>) -> (names: Vec<String>)
    ensures
        names.deep_view() == config_file_names(entries.deep_view(), VHOST_CONFIG_FILE_EXTENSION@),
{
    let ghost listing = entries.deep_view();
    let ghost wanted = |entry: DirectoryEntryView|
        is_config_file(entry, VHOST_CONFIG_FILE_EXTENSION@);
    let ghost name = |entry: DirectoryEntryView| entry.file_name;
    let mut names: Vec<String> = Vec::new();
    let mut i: usize = 0;
    while i < entries.len()
        invariant
            i <= entries.len(),
            listing == entries.deep_view(),
            wanted == |entry: DirectoryEntryView|
                is_config_file(entry, VHOST_CONFIG_FILE_EXTENSION@),
            name == |entry: DirectoryEntryView| entry.file_name,
            names.deep_view() == listing.take(i as int).filter(wanted).map_values(name),
        decreases entries.len() - i,
    {
        let entry = &entries[i];
        let ghost before = names.deep_view();
        proof {
            assert(listing.take(i + 1) == listing.take(i as int).push(entry@));
            listing.take(i as int).lemma_filter_push(entry@, wanted);
        }
        if entry.is_file && ends_with(entry.file_name.as_str(), VHOST_CONFIG_FILE_EXTENSION) {
            names.push(entry.file_name.clone());
            assert(listing.take(i as int).filter(wanted).push(entry@).map_values(name)
                =~= before.push(entry@.file_name));
        }
        i += 1;
    }
    assert(listing.take(i as int) == listing);
    names
}

} // verus!
