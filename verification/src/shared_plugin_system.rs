//! Discovery of native plugins in the plugin folder (one file per plugin).
use vstd::prelude::*;

use crate::plugin_system::{extension_of, has_extension, PluginFile};

verus! {

/// Event publishing from plugins.
pub struct PluginEvent {
    sender: String,
    data: String,
}

impl PluginEvent {
    /// The name of the plugin that published the event.
    pub closed spec fn sender_text(self) -> Seq<char> {
        self.sender@
    }

    /// What the plugin published.
    pub closed spec fn data_text(self) -> Seq<char> {
        self.data@
    }

    /// The event `data` published by the plugin named `sender`.
    pub fn new(sender: String, data: String) -> (r: Self)
        ensures
            r.sender_text() == sender@,
            r.data_text() == data@,
    {
        PluginEvent { sender, data }
    }

    /// The name of the plugin that published the event.
    pub fn sender(&self) -> (r: &String)
        ensures
            r@ == self.sender_text(),
    {
        &self.sender
    }

    /// What the plugin published.
    pub fn data(&self) -> (r: &String)
        ensures
            r@ == self.data_text(),
    {
        &self.data
    }
}

/// A request in words, from a plugin.
pub struct ReadableRequest(pub String);

/// The file extension of plugin libraries: `so` on Unix, `dll` elsewhere.
pub fn plugin_extension(is_unix: bool) -> (r: &'static str)
    ensures
        r@ == (if is_unix { "so"@ } else { "dll"@ }),
{
    if is_unix {
        "so"
    } else {
        "dll"
    }
}

/// The paths of the first `n` files whose extension is `ext`, in order.
pub open spec fn paths_with_extension(files: Seq<PluginFile>, ext: Seq<char>, n: int) -> Seq<Seq<char>>
    decreases n,
{
    if n <= 0 {
        Seq::empty()
    } else if extension_of(files[n - 1].file_name@) == Some(ext) {
        paths_with_extension(files, ext, n - 1).push(files[n - 1].path@)
    } else {
        paths_with_extension(files, ext, n - 1)
    }
}

/// A file is a plugin library for `ext` when its extension is `ext`.
pub open spec fn is_library(ext: Seq<char>) -> spec_fn(PluginFile) -> bool {
    |f: PluginFile| extension_of(f.file_name@) == Some(ext)
}

proof fn lemma_paths_are_filtered(files: Seq<PluginFile>, ext: Seq<char>, n: int)
    requires
        0 <= n <= files.len(),
    ensures
        paths_with_extension(files, ext, n) == files.take(n).filter(is_library(ext)).map_values(
            |f: PluginFile| f.path@,
        ),
    decreases n,
{
    let pf = |f: PluginFile| f.path@;
    if n == 0 {
        reveal(Seq::filter);
        assert(files.take(0) =~= Seq::<PluginFile>::empty());
        assert(files.take(0).filter(is_library(ext)).map_values(pf) =~= Seq::<Seq<char>>::empty());
    } else {
        lemma_paths_are_filtered(files, ext, n - 1);
        let t = files.take(n);
        assert(t.drop_last() =~= files.take(n - 1));
        assert(t.last() == files[n - 1]);
        let sub = files.take(n - 1).filter(is_library(ext));
        assert(t.drop_last().filter(is_library(ext)) == sub);
        assert(t.len() > 0);
        assert(is_library(ext)(t.last()) == (extension_of(files[n - 1].file_name@) == Some(ext)));
        reveal(Seq::filter);
        if extension_of(files[n - 1].file_name@) == Some(ext) {
            assert(t.filter(is_library(ext)) == sub.push(files[n - 1]));
            assert(sub.push(files[n - 1]).map_values(pf) =~= sub.map_values(pf).push(files[n - 1].path@));
        } else {
            assert(t.filter(is_library(ext)) == sub);
        }
    }
}

/// The plugin libraries found among a folder's files are exactly the paths
/// of the files whose extension is the library extension, in the folder's
/// order: every such file is found, and no other file is.
pub proof fn lemma_plugins_found_exactly(files: Seq<PluginFile>, ext: Seq<char>)
    ensures
        paths_with_extension(files, ext, files.len() as int) == files.filter(
            |f: PluginFile| extension_of(f.file_name@) == Some(ext),
        ).map_values(|f: PluginFile| f.path@),
        forall|i: int|
            0 <= i < files.len() && extension_of(files[i].file_name@) == Some(ext) ==> paths_with_extension(
                files,
                ext,
                files.len() as int,
            ).contains(#[trigger] files[i].path@),
{
    lemma_paths_are_filtered(files, ext, files.len() as int);
    assert(files.take(files.len() as int) =~= files);
    let pred = |f: PluginFile| extension_of(f.file_name@) == Some(ext);
    assert(is_library(ext) == pred);
    let found = files.filter(pred);
    assert forall|i: int|
        0 <= i < files.len() && extension_of(files[i].file_name@) == Some(ext) implies found.map_values(
            |f: PluginFile| f.path@,
        ).contains(#[trigger] files[i].path@) by {
        files.lemma_filter_contains(pred, i);
        let k = choose|k: int| 0 <= k < found.len() && found[k] == files[i];
        assert(found.map_values(|f: PluginFile| f.path@)[k] == files[i].path@);
    }
}

/// The plugin libraries among the files of the plugin folder (the files
/// that are not directories and whose path is valid text): the paths of
/// those with the platform's library extension, in order.
pub fn find_plugins(files: &Vec<PluginFile>, is_unix: bool) -> (r: Vec<String>)
    ensures
        crate::text::views(r@) == paths_with_extension(
            files@,
            if is_unix { "so"@ } else { "dll"@ },
            files@.len() as int,
        ),
{
    let extension = plugin_extension(is_unix);
    let mut res: Vec<String> = Vec::new();
    let mut i: usize = 0;
    while i < files.len()
        invariant
            i <= files@.len(),
            extension@ == (if is_unix { "so"@ } else { "dll"@ }),
            crate::text::views(res@) == paths_with_extension(files@, extension@, i as int),
        decreases files.len() - i,
    {
        if has_extension(files[i].file_name.as_str(), extension) {
            let ghost before = res@;
            res.push(files[i].path.clone());
            assert(crate::text::views(res@) =~= crate::text::views(before).push(files@[i as int].path@));
        }
        i = i + 1;
    }
    res
}

} // verus!
