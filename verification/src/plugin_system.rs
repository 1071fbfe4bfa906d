//! Plugin discovery: which files of the plugin folders are plugins.
use vstd::prelude::*;

use crate::text::{
    ends_with, ends_with_str, replace_all, replace_str, rfind_char, rfind_in, starts_with,
    starts_with_str, string_of, chars_of, eq_str,
};

verus! {

/// The name of a plugin that sent something.
pub struct Sender(pub String);

/// What a plugin published.
pub struct Event(pub String);

/// Event publishing from plugins.
pub struct PluginEvent {
    sender: Sender,
    data: Event,
}

impl PluginEvent {
    /// The name of the plugin that published the event.
    pub closed spec fn sender_text(self) -> Seq<char> {
        self.sender.0@
    }

    /// What the plugin published.
    pub closed spec fn data_text(self) -> Seq<char> {
        self.data.0@
    }

    /// The event `data` published by the plugin `sender`.
    pub fn new(sender: Sender, data: Event) -> (r: Self)
        ensures
            r.sender_text() == sender.0@,
            r.data_text() == data.0@,
    {
        PluginEvent { sender, data }
    }

    /// The plugin that published the event.
    pub fn sender(&self) -> (r: &Sender)
        ensures
            r.0@ == self.sender_text(),
    {
        &self.sender
    }

    /// What the plugin published.
    pub fn data(&self) -> (r: &Event)
        ensures
            r.0@ == self.data_text(),
    {
        &self.data
    }
}

/// A plugin found on disk.
pub enum FoundedPlugin {
    /// A shared library (`.so`).
    Native { path: String },
    /// A .NET assembly and the runtime configuration that goes with it.
    Dotnet { dll_path: String, runtimeconfig_path: String },
}

/// A request in words, from a plugin.
pub struct ReadableRequest {
    pub request: String,
}

/// A file in a plugin folder: its full path and its file name.
pub struct PluginFile {
    pub path: String,
    pub file_name: String,
}

/// `Path::extension` of a file name: the part after the last `.`, unless
/// there is no `.`, the only `.` starts the name, or the name is `..`.
pub open spec fn extension_of(name: Seq<char>) -> Option<Seq<char>> {
    let i = rfind_char(name, '.');
    if name == ".."@ || i <= 0 {
        None
    } else {
        Some(name.skip(i + 1))
    }
}

/// The extension of a file name (`Path::extension`).
pub fn extension(file_name: &str) -> (r: Option<String>)
    ensures
        match r {
            Some(e) => extension_of(file_name@) == Some(e@),
            None => extension_of(file_name@) is None,
        },
{
    if eq_str(file_name, "..") {
        return None;
    }
    let v = chars_of(file_name);
    match rfind_in(&v, '.', v.len()) {
        Some(i) => {
            assert(v@.take(v.len() as int) =~= v@);
            if i == 0 {
                None
            } else {
                proof {
                    crate::text::lemma_rfind_char(v@, '.');
                }
                let e = string_of(&v, i + 1, v.len());
                assert(e@ =~= file_name@.skip(i + 1));
                Some(e)
            }
        },
        None => {
            assert(v@.take(v.len() as int) =~= v@);
            None
        },
    }
}

/// Whether a file name has the given extension.
pub fn has_extension(file_name: &str, ext: &str) -> (r: bool)
    ensures
        r == (extension_of(file_name@) == Some(ext@)),
{
    match extension(file_name) {
        Some(e) => eq_str(e.as_str(), ext),
        None => false,
    }
}

/// A native plugin: a `.so` file.
pub open spec fn is_native(f: PluginFile) -> bool {
    extension_of(f.file_name@) == Some("so"@)
}

/// A .NET plugin assembly: a `.dll` file.
pub open spec fn is_dll(f: PluginFile) -> bool {
    extension_of(f.file_name@) == Some("dll"@)
}

/// The name a `.dll`'s runtime configuration starts with: its file name
/// with every `.dll` removed.
pub open spec fn dll_stem(name: Seq<char>) -> Seq<char> {
    replace_all(name, ".dll"@, Seq::empty())
}

/// A runtime configuration for `stem`: starts with it and ends in `json`.
pub open spec fn is_runtime_config(f: PluginFile, stem: Seq<char>) -> bool {
    starts_with(f.file_name@, stem) && ends_with(f.file_name@, "json"@)
}

/// Among the first `n` files, the position of the first runtime
/// configuration for `stem`.
pub open spec fn first_runtime_config(files: Seq<PluginFile>, stem: Seq<char>, n: int) -> Option<int>
    decreases n,
{
    if n <= 0 {
        None
    } else {
        match first_runtime_config(files, stem, n - 1) {
            Some(j) => Some(j),
            None => if is_runtime_config(files[n - 1], stem) {
                Some(n - 1)
            } else {
                None
            },
        }
    }
}

/// The native plugins among the first `n` files, in order.
pub open spec fn natives(files: Seq<PluginFile>, n: int) -> Seq<FoundedPlugin>
    decreases n,
{
    if n <= 0 {
        Seq::empty()
    } else if is_native(files[n - 1]) {
        natives(files, n - 1).push(FoundedPlugin::Native { path: files[n - 1].path })
    } else {
        natives(files, n - 1)
    }
}

/// The .NET plugins among the first `n` files, in order: each `.dll` for
/// which the folder holds a runtime configuration, paired with the first one.
pub open spec fn dotnets(files: Seq<PluginFile>, n: int) -> Seq<FoundedPlugin>
    decreases n,
{
    if n <= 0 {
        Seq::empty()
    } else if is_dll(files[n - 1]) {
        match first_runtime_config(files, dll_stem(files[n - 1].file_name@), files.len() as int) {
            Some(j) => dotnets(files, n - 1).push(
                FoundedPlugin::Dotnet { dll_path: files[n - 1].path, runtimeconfig_path: files[j].path },
            ),
            None => dotnets(files, n - 1),
        }
    } else {
        dotnets(files, n - 1)
    }
}

/// The plugins of one folder: its native plugins, then its .NET plugins.
pub open spec fn folder_plugins(files: Seq<PluginFile>) -> Seq<FoundedPlugin> {
    natives(files, files.len() as int) + dotnets(files, files.len() as int)
}

/// The plugins of the first `n` folders, folder by folder.
pub open spec fn qualified(dirs: Seq<Vec<PluginFile>>, n: int) -> Seq<FoundedPlugin>
    decreases n,
{
    if n <= 0 {
        Seq::empty()
    } else {
        qualified(dirs, n - 1) + folder_plugins(dirs[n - 1]@)
    }
}

proof fn lemma_first_runtime_config_stays(files: Seq<PluginFile>, stem: Seq<char>, n: int, m: int)
    requires
        n <= m,
        first_runtime_config(files, stem, n) is Some,
    ensures
        first_runtime_config(files, stem, m) == first_runtime_config(files, stem, n),
    decreases m - n,
{
    if n < m {
        lemma_first_runtime_config_stays(files, stem, n, m - 1);
    }
}

/// Position of the runtime configuration for `stem` among `files`.
fn find_runtime_config(files: &Vec<PluginFile>, stem: &str) -> (r: Option<usize>)
    ensures
        match r {
            Some(j) => first_runtime_config(files@, stem@, files@.len() as int) == Some(j as int)
                && j < files@.len(),
            None => first_runtime_config(files@, stem@, files@.len() as int) is None,
        },
{
    let mut j: usize = 0;
    while j < files.len()
        invariant
            j <= files@.len(),
            first_runtime_config(files@, stem@, j as int) is None,
        decreases files.len() - j,
    {
        let name = files[j].file_name.as_str();
        if starts_with_str(name, stem) && ends_with_str(name, "json") {
            proof {
                lemma_first_runtime_config_stays(files@, stem@, j + 1, files@.len() as int);
            }
            return Some(j);
        }
        j = j + 1;
    }
    None
}

/// The plugins in the given plugin folders: for each folder, its `.so`
/// files as native plugins, then each `.dll` that has a runtime
/// configuration (a `json` file whose name starts with the `.dll`'s name
/// without `.dll`) as a .NET plugin.
pub fn qualify_plugins(plugin_dirs: Vec<Vec<PluginFile>>) -> (r: Vec<FoundedPlugin>)
    ensures
        r@ == qualified(plugin_dirs@, plugin_dirs@.len() as int),
{
    let mut res: Vec<FoundedPlugin> = Vec::new();
    let mut d: usize = 0;
    while d < plugin_dirs.len()
        invariant
            d <= plugin_dirs@.len(),
            res@ == qualified(plugin_dirs@, d as int),
        decreases plugin_dirs.len() - d,
    {
        let files = &plugin_dirs[d];
        let ghost start = res@;
        let mut i: usize = 0;
        while i < files.len()
            invariant
                i <= files@.len(),
                res@ == start + natives(files@, i as int),
            decreases files.len() - i,
        {
            if has_extension(files[i].file_name.as_str(), "so") {
                res.push(FoundedPlugin::Native { path: files[i].path.clone() });
            }
            i = i + 1;
        }
        let ghost mid = res@;
        let mut i: usize = 0;
        while i < files.len()
            invariant
                i <= files@.len(),
                res@ == mid + dotnets(files@, i as int),
            decreases files.len() - i,
        {
            if has_extension(files[i].file_name.as_str(), "dll") {
                proof {
                    reveal_strlit(".dll");
                    reveal_strlit("");
                    assert(""@ =~= Seq::<char>::empty());
                }
                let stem = replace_str(files[i].file_name.as_str(), ".dll", "");
                match find_runtime_config(files, stem.as_str()) {
                    Some(j) => {
                        res.push(
                            FoundedPlugin::Dotnet {
                                dll_path: files[i].path.clone(),
                                runtimeconfig_path: files[j].path.clone(),
                            },
                        );
                    },
                    None => {},
                }
            }
            assert(mid + dotnets(files@, i + 1) =~= res@);
            i = i + 1;
        }
        assert(res@ =~= qualified(plugin_dirs@, d + 1));
        d = d + 1;
    }
    res
}

/// A found plugin is backed by the folder's files: a native plugin by a
/// `.so` file, a .NET plugin by a `.dll` and a runtime configuration whose
/// name starts with the `.dll`'s name without `.dll` and ends in `json`.
pub open spec fn backed_by(p: FoundedPlugin, files: Seq<PluginFile>) -> bool {
    match p {
        FoundedPlugin::Native { path } => exists|i: int|
            0 <= i < files.len() && #[trigger] is_native(files[i]) && files[i].path == path,
        FoundedPlugin::Dotnet { dll_path, runtimeconfig_path } => exists|i: int, j: int|
            0 <= i < files.len() && 0 <= j < files.len() && #[trigger] is_dll(files[i])
                && files[i].path == dll_path && #[trigger] is_runtime_config(
                files[j],
                dll_stem(files[i].file_name@),
            ) && files[j].path == runtimeconfig_path,
    }
}

proof fn lemma_first_runtime_config_found(files: Seq<PluginFile>, stem: Seq<char>, n: int)
    requires
        n <= files.len(),
    ensures
        first_runtime_config(files, stem, n) matches Some(j) ==> 0 <= j < n && is_runtime_config(
            files[j],
            stem,
        ),
    decreases n,
{
    if n > 0 {
        lemma_first_runtime_config_found(files, stem, n - 1);
    }
}

proof fn lemma_natives_backed(files: Seq<PluginFile>, n: int)
    requires
        n <= files.len(),
    ensures
        forall|k: int| 0 <= k < natives(files, n).len() ==> backed_by(#[trigger] natives(files, n)[k], files),
    decreases n,
{
    if n > 0 {
        lemma_natives_backed(files, n - 1);
        let prev = natives(files, n - 1);
        assert forall|k: int| 0 <= k < natives(files, n).len() implies backed_by(#[trigger] natives(files, n)[k], files) by {
            if k < prev.len() {
                assert(natives(files, n)[k] == prev[k]);
            } else {
                assert(is_native(files[n - 1]));
            }
        }
    }
}

proof fn lemma_dotnets_backed(files: Seq<PluginFile>, n: int)
    requires
        n <= files.len(),
    ensures
        forall|k: int| 0 <= k < dotnets(files, n).len() ==> backed_by(#[trigger] dotnets(files, n)[k], files),
    decreases n,
{
    if n > 0 {
        lemma_dotnets_backed(files, n - 1);
        let prev = dotnets(files, n - 1);
        let stem = dll_stem(files[n - 1].file_name@);
        lemma_first_runtime_config_found(files, stem, files.len() as int);
        assert forall|k: int| 0 <= k < dotnets(files, n).len() implies backed_by(#[trigger] dotnets(files, n)[k], files) by {
            if k < prev.len() {
                assert(dotnets(files, n)[k] == prev[k]);
            } else {
                let j = first_runtime_config(files, stem, files.len() as int)->0;
                assert(is_dll(files[n - 1]));
                assert(is_runtime_config(files[j], stem));
            }
        }
    }
}

proof fn lemma_natives_filtered(files: Seq<PluginFile>, n: int)
    requires
        0 <= n <= files.len(),
    ensures
        natives(files, n) == files.take(n).filter(|f: PluginFile| is_native(f)).map_values(
            |f: PluginFile| FoundedPlugin::Native { path: f.path },
        ),
    decreases n,
{
    reveal(Seq::filter);
    let pred = |f: PluginFile| is_native(f);
    let mk = |f: PluginFile| FoundedPlugin::Native { path: f.path };
    if n == 0 {
        assert(files.take(0) =~= Seq::<PluginFile>::empty());
        assert(files.take(0).filter(pred).map_values(mk) =~= Seq::<FoundedPlugin>::empty());
    } else {
        lemma_natives_filtered(files, n - 1);
        let t = files.take(n);
        assert(t.drop_last() =~= files.take(n - 1));
        let sub = files.take(n - 1).filter(pred);
        assert(t.drop_last().filter(pred) == sub);
        if is_native(files[n - 1]) {
            assert(sub.push(files[n - 1]).map_values(mk) =~= sub.map_values(mk).push(mk(files[n - 1])));
        }
    }
}

/// The native plugins of a folder are exactly its `.so` files, in the
/// folder's order: every such file is one, and no other file is.
pub proof fn lemma_natives_exactly(files: Seq<PluginFile>)
    ensures
        natives(files, files.len() as int) == files.filter(|f: PluginFile| is_native(f)).map_values(
            |f: PluginFile| FoundedPlugin::Native { path: f.path },
        ),
{
    lemma_natives_filtered(files, files.len() as int);
    assert(files.take(files.len() as int) =~= files);
}

/// The runtime configuration found for a stem is the first file that starts
/// with the stem and ends in `json`: no earlier file does; when none is
/// found, no file does.
pub proof fn lemma_first_runtime_config_is_first(files: Seq<PluginFile>, stem: Seq<char>, n: int)
    requires
        0 <= n <= files.len(),
    ensures
        match first_runtime_config(files, stem, n) {
            Some(j) => 0 <= j < n && starts_with(files[j].file_name@, stem) && ends_with(
                files[j].file_name@,
                "json"@,
            ) && forall|k: int|
                0 <= k < j ==> !(starts_with((#[trigger] files[k]).file_name@, stem) && ends_with(
                    files[k].file_name@,
                    "json"@,
                )),
            None => forall|k: int|
                0 <= k < n ==> !(starts_with((#[trigger] files[k]).file_name@, stem) && ends_with(
                    files[k].file_name@,
                    "json"@,
                )),
        },
    decreases n,
{
    if n > 0 {
        lemma_first_runtime_config_is_first(files, stem, n - 1);
    }
}

/// Every plugin found in a folder is backed by that folder's files.
pub proof fn lemma_folder_plugins_backed(files: Seq<PluginFile>)
    ensures
        forall|k: int|
            0 <= k < folder_plugins(files).len() ==> backed_by(#[trigger] folder_plugins(files)[k], files),
{
    let n = files.len() as int;
    lemma_natives_backed(files, n);
    lemma_dotnets_backed(files, n);
    let a = natives(files, n);
    let b = dotnets(files, n);
    assert forall|k: int| 0 <= k < folder_plugins(files).len() implies backed_by(#[trigger] folder_plugins(files)[k], files) by {
        if k < a.len() {
            assert(folder_plugins(files)[k] == a[k]);
        } else {
            assert(folder_plugins(files)[k] == b[k - a.len()]);
        }
    }
}

} // verus!
