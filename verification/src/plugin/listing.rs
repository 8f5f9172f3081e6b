//! Discovery: from the files of the plugins directory to the list of plugins.

use crate::plugin::error::{ErrorView, PluginError};
use crate::plugin::manifest::{
    describe_text, manifest_reading, read_manifest, PluginInfo, PluginInfoView,
};
use crate::text::{chars_of, ends_with};
use vstd::prelude::*;

verus! {

/// The ending of a manifest's file name.
pub open spec fn manifest_suffix() -> Seq<char> {
    seq!['.', 'j', 's', 'o', 'n']
}

/// Whether a file of this name is a manifest: its extension, the part after
/// the last dot, is `json`, and something stands before that dot. A file
/// named just `.json` is a hidden file without an extension.
pub open spec fn manifest_name(file_name: Seq<char>) -> bool {
    file_name.len() > manifest_suffix().len() && manifest_suffix().is_suffix_of(file_name)
}

/// Whether a file of this name is a manifest.
pub fn is_manifest_file(file_name: &str) -> (wanted: bool)
    ensures
        wanted == manifest_name(file_name@),
{
    let name = chars_of(file_name);
    let suffix = chars_of(".json");
    proof {
        reveal_strlit(".json");
        assert(suffix@ =~= manifest_suffix());
    }
    name.len() > suffix.len() && ends_with(&name, &suffix)
}

/// One entry of the plugins directory as the host found it.
#[derive(Debug)]
pub struct DirectoryEntry {
    /// The entry's name within the directory.
    pub file_name: String,
    /// Whether the entry is a regular file.
    pub regular: bool,
    /// The file's text, or the reason it could not be read. Looked at only
    /// where the entry is a manifest.
    pub content: Result<String, String>,
}

/// Whether `entry` is a manifest: a regular file with a manifest's name.
pub open spec fn is_manifest(entry: DirectoryEntry) -> bool {
    entry.regular && manifest_name(entry.file_name@)
}

/// What one entry contributes to a listing: nothing if it is no manifest,
/// its plugin if it is a well-formed one, and otherwise the error that ends
/// the listing.
pub open spec fn entry_reading(entry: DirectoryEntry) -> Result<Option<PluginInfoView>, ErrorView> {
    if !is_manifest(entry) {
        Ok(None)
    } else {
        match entry.content {
            Err(reason) => Err(ErrorView::Directory(reason@)),
            Ok(text) => match manifest_reading(text@) {
                Ok(plugin) => Ok(Some(plugin)),
                Err(error) => Err(
                    ErrorView::ManifestParse {
                        path: entry.file_name@,
                        detail: describe_text(error),
                    },
                ),
            },
        }
    }
}

/// The plugins of the first `upto` files, in directory order, where each of
/// those files is either no manifest or a well-formed one.
pub open spec fn collected(entries: Seq<DirectoryEntry>, upto: int) -> Seq<PluginInfoView>
    decreases upto,
{
    if upto <= 0 {
        Seq::empty()
    } else {
        match entry_reading(entries[upto - 1]) {
            Ok(Some(plugin)) => collected(entries, upto - 1).push(plugin),
            _ => collected(entries, upto - 1),
        }
    }
}

/// The number of manifests among the first `upto` files.
pub open spec fn manifest_count(entries: Seq<DirectoryEntry>, upto: int) -> nat
    decreases upto,
{
    if upto <= 0 {
        0
    } else if is_manifest(entries[upto - 1]) {
        manifest_count(entries, upto - 1) + 1
    } else {
        manifest_count(entries, upto - 1)
    }
}

/// The listing of a directory: the plugins of its manifests in directory
/// order, or, where a manifest cannot be read or is malformed, the error of
/// the first such file. One bad manifest fails the whole listing.
pub open spec fn listing(entries: Seq<DirectoryEntry>) -> Result<Seq<PluginInfoView>, ErrorView> {
    if exists|i: int| 0 <= i < entries.len() && entry_reading(#[trigger] entries[i]) is Err {
        let first = choose|i: int|
            0 <= i < entries.len() && entry_reading(#[trigger] entries[i]) is Err && forall|j: int|
                0 <= j < i ==> entry_reading(#[trigger] entries[j]) is Ok;
        Err(entry_reading(entries[first])->Err_0)
    } else {
        Ok(collected(entries, entries.len() as int))
    }
}

/// The mathematical content of a list of plugins.
pub open spec fn plugins_view(plugins: Seq<PluginInfo>) -> Seq<PluginInfoView> {
    plugins.map_values(|plugin: PluginInfo| plugin@)
}

/// The mathematical content of the result of a listing.
pub open spec fn listing_view(listed: Result<Vec<PluginInfo>, PluginError>) -> Result<
    Seq<PluginInfoView>,
    ErrorView,
> {
    match listed {
        Ok(plugins) => Ok(plugins_view(plugins@)),
        Err(error) => Err(error@),
    }
}

/// The mathematical content of the result of reading one entry.
pub open spec fn entry_view(read: Result<Option<PluginInfo>, PluginError>) -> Result<
    Option<PluginInfoView>,
    ErrorView,
> {
    match read {
        Ok(Some(plugin)) => Ok(Some(plugin@)),
        Ok(None) => Ok(None),
        Err(error) => Err(error@),
    }
}

/// Reads what one entry contributes to a listing.
pub fn read_entry(entry: &DirectoryEntry) -> (read: Result<Option<PluginInfo>, PluginError>)
    ensures
        entry_view(read) == entry_reading(*entry),
{
    if !entry.regular || !is_manifest_file(entry.file_name.as_str()) {
        return Ok(None);
    }
    match &entry.content {
        Err(reason) => Err(PluginError::Directory(reason.clone())),
        Ok(text) => match read_manifest(text.as_str()) {
            Ok(plugin) => Ok(Some(plugin)),
            Err(error) => Err(
                PluginError::ManifestParse {
                    path: entry.file_name.clone(),
                    detail: error.describe(),
                },
            ),
        },
    }
}

/// Lists the plugins of a directory from its files, given in the order the
/// directory was enumerated.
pub fn load_plugins(entries: &Vec<DirectoryEntry>) -> (listed: Result<Vec<PluginInfo>, PluginError>)
    ensures
        listing_view(listed) == listing(entries@),
{
    let mut plugins: Vec<PluginInfo> = Vec::new();
    let mut i: usize = 0;
    while i < entries.len()
        invariant
            i <= entries.len(),
            forall|j: int| 0 <= j < i ==> entry_reading(#[trigger] entries@[j]) is Ok,
            plugins_view(plugins@) == collected(entries@, i as int),
        decreases entries.len() - i,
    {
        match read_entry(&entries[i]) {
            Err(error) => {
                proof {
                    first_failure_is_reported(entries@, i as int);
                }
                return Err(error);
            },
            Ok(None) => {},
            Ok(Some(plugin)) => {
                proof {
                    assert(plugins_view(plugins@.push(plugin)) =~= plugins_view(plugins@).push(
                        plugin@,
                    ));
                }
                plugins.push(plugin);
            },
        }
        i += 1;
    }
    Ok(plugins)
}

/// If the file at `at` fails and none before it does, the listing is that
/// file's error.
pub proof fn first_failure_is_reported(entries: Seq<DirectoryEntry>, at: int)
    requires
        0 <= at < entries.len(),
        entry_reading(entries[at]) is Err,
        forall|j: int| 0 <= j < at ==> entry_reading(#[trigger] entries[j]) is Ok,
    ensures
        listing(entries) == Err::<Seq<PluginInfoView>, _>(entry_reading(entries[at])->Err_0),
{
    let first = choose|i: int|
        0 <= i < entries.len() && entry_reading(#[trigger] entries[i]) is Err && forall|j: int|
            0 <= j < i ==> entry_reading(#[trigger] entries[j]) is Ok;
    assert(first == at) by {
        if first < at {
            assert(entry_reading(entries[first]) is Ok);
        }
        if at < first {
            assert(entry_reading(entries[at]) is Ok);
        }
    }
}

/// Where every manifest of a directory is well-formed, the listing succeeds
/// and holds exactly one plugin per manifest file.
pub proof fn one_plugin_per_manifest(entries: Seq<DirectoryEntry>)
    requires
        forall|i: int| 0 <= i < entries.len() ==> entry_reading(#[trigger] entries[i]) is Ok,
    ensures
        listing(entries) is Ok,
        listing(entries)->Ok_0.len() == manifest_count(entries, entries.len() as int),
{
    collected_counts_manifests(entries, entries.len() as int);
}

/// Among files that all read well, as many plugins are collected as there
/// are manifests.
pub proof fn collected_counts_manifests(entries: Seq<DirectoryEntry>, upto: int)
    requires
        0 <= upto <= entries.len(),
        forall|i: int| 0 <= i < upto ==> entry_reading(#[trigger] entries[i]) is Ok,
    ensures
        collected(entries, upto).len() == manifest_count(entries, upto),
    decreases upto,
{
    if upto > 0 {
        collected_counts_manifests(entries, upto - 1);
        assert(entry_reading(entries[upto - 1]) is Ok);
    }
}

/// A directory without manifests lists no plugin, whatever else it holds.
pub proof fn no_manifest_no_plugin(entries: Seq<DirectoryEntry>)
    requires
        forall|i: int| 0 <= i < entries.len() ==> !is_manifest(#[trigger] entries[i]),
    ensures
        listing(entries) == Ok::<_, ErrorView>(Seq::<PluginInfoView>::empty()),
{
    assert forall|i: int| 0 <= i < entries.len() implies entry_reading(
        #[trigger] entries[i],
    ) is Ok by {
        assert(!is_manifest(entries[i]));
    }
    collected_counts_manifests(entries, entries.len() as int);
    no_manifest_counts_zero(entries, entries.len() as int);
    assert(collected(entries, entries.len() as int) =~= Seq::<PluginInfoView>::empty());
}

proof fn no_manifest_counts_zero(entries: Seq<DirectoryEntry>, upto: int)
    requires
        0 <= upto <= entries.len(),
        forall|i: int| 0 <= i < entries.len() ==> !is_manifest(#[trigger] entries[i]),
    ensures
        manifest_count(entries, upto) == 0,
    decreases upto,
{
    if upto > 0 {
        no_manifest_counts_zero(entries, upto - 1);
        assert(!is_manifest(entries[upto - 1]));
    }
}

} // verus!
