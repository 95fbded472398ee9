//! Plugin manifests: where they are found, which are accepted, and the path
//! grants they declare.
//!
//! Manifests are files named `package.json`, either directly in the
//! extensions directory or one level below it. A manifest is accepted when
//! its entry names an existing file with the `.wasm` extension and its
//! package is neither loaded already nor accepted earlier in the same scan.
use vstd::prelude::*;
use crate::placeholders::{expand_placeholders, expanded};
use crate::registry::{is_loaded, ExtensionHandlerInner};
use crate::text::same;

verus! {

/// Paths a plugin may reach (declared path key, directory) and hosts it may
/// contact.
pub struct ExtensionPermissions {
    pub paths: Vec<(String, String)>,
    pub hosts: Vec<String>,
}

/// A plugin's manifest; `extension_entry` is resolved against the
/// manifest's own directory before acceptance is decided.
pub struct ExtensionManifest {
    pub name: String,
    pub display_name: String,
    pub version: String,
    pub author: Option<String>,
    pub icon: String,
    pub extension_entry: String,
    pub permissions: Option<ExtensionPermissions>,
}

/// An entry one level below a directory of the extensions directory.
pub struct FsChild {
    pub path: String,
    pub file_name: String,
    pub is_file: bool,
}

/// An entry of the extensions directory, with the entries of it when it is
/// a directory.
pub struct FsEntry {
    pub path: String,
    pub file_name: String,
    pub is_file: bool,
    pub is_dir: bool,
    pub children: Vec<FsChild>,
}

/// A parsed manifest, and whether its resolved entry file exists.
pub struct ManifestCandidate {
    pub manifest: ExtensionManifest,
    pub entry_exists: bool,
}

pub open spec fn views(v: Seq<String>) -> Seq<Seq<char>> {
    v.map_values(|s: String| s@)
}

pub open spec fn is_manifest_file(is_file: bool, file_name: Seq<char>) -> bool {
    is_file && file_name == "package.json"@
}

pub open spec fn child_manifests(cs: Seq<FsChild>) -> Seq<Seq<char>>
    decreases cs.len(),
{
    if cs.len() == 0 {
        Seq::empty()
    } else {
        child_manifests(cs.drop_last()) + if is_manifest_file(cs.last().is_file, cs.last().file_name@) {
            seq![cs.last().path@]
        } else {
            Seq::empty()
        }
    }
}

pub open spec fn entry_manifests(e: FsEntry) -> Seq<Seq<char>> {
    if e.is_dir {
        child_manifests(e.children@)
    } else if is_manifest_file(e.is_file, e.file_name@) {
        seq![e.path@]
    } else {
        Seq::empty()
    }
}

/// The manifest paths in a listing of the extensions directory, in listing
/// order.
pub open spec fn manifest_paths(es: Seq<FsEntry>) -> Seq<Seq<char>>
    decreases es.len(),
{
    if es.len() == 0 {
        Seq::empty()
    } else {
        manifest_paths(es.drop_last()) + entry_manifests(es.last())
    }
}

/// The entry names a file with the `.wasm` extension: its last path
/// component ends in `.wasm` after at least one other character.
pub open spec fn has_wasm_extension(p: Seq<char>) -> bool {
    &&& p.len() > 5
    &&& p.subrange(p.len() - 5, p.len() as int) == seq!['.', 'w', 'a', 's', 'm']
    &&& p[p.len() - 6] != '/'
}

pub open spec fn entry_ok(c: ManifestCandidate) -> bool {
    has_wasm_extension(c.manifest.extension_entry@) && c.entry_exists
}

pub open spec fn name_taken(acc: Seq<ExtensionManifest>, name: Seq<char>) -> bool {
    exists|i: int| 0 <= i < acc.len() && acc[i].name@ == name
}

/// The manifests a scan accepts from `cs`, given the loaded instances.
pub open spec fn accepted<P>(loaded: Seq<crate::registry::Extension<P>>, cs: Seq<ManifestCandidate>) -> Seq<
    ExtensionManifest,
>
    decreases cs.len(),
{
    if cs.len() == 0 {
        Seq::empty()
    } else {
        let acc = accepted(loaded, cs.drop_last());
        let c = cs.last();
        if entry_ok(c) && !is_loaded(loaded, c.manifest.name@) && !name_taken(acc, c.manifest.name@) {
            acc.push(c.manifest)
        } else {
            acc
        }
    }
}

proof fn lemma_views_push(v: Seq<String>, s: String)
    ensures
        views(v.push(s)) == views(v).push(s@),
{
    assert(views(v.push(s)) =~= views(v).push(s@));
}

/// The paths of the manifests in a listing of the extensions directory:
/// files named `package.json` at the top, and in each directory one level
/// down.
pub fn find_extension_manifests(entries: &Vec<FsEntry>) -> (r: Vec<String>)
    ensures
        views(r@) == manifest_paths(entries@),
{
    let mut out: Vec<String> = Vec::new();
    let mut i: usize = 0;
    while i < entries.len()
        invariant
            0 <= i <= entries@.len(),
            views(out@) == manifest_paths(entries@.subrange(0, i as int)),
        decreases entries@.len() - i,
    {
        let e = &entries[i];
        proof {
            assert(entries@.subrange(0, i + 1).drop_last() =~= entries@.subrange(0, i as int));
        }
        let ghost base = views(out@);
        if e.is_dir {
            let mut j: usize = 0;
            while j < e.children.len()
                invariant
                    0 <= j <= e.children@.len(),
                    e == entries@[i as int],
                    views(out@) == base + child_manifests(e.children@.subrange(0, j as int)),
                decreases e.children@.len() - j,
            {
                let c = &e.children[j];
                proof {
                    assert(e.children@.subrange(0, j + 1).drop_last() =~= e.children@.subrange(
                        0,
                        j as int,
                    ));
                }
                if c.is_file && same(c.file_name.as_str(), "package.json") {
                    proof {
                        lemma_views_push(out@, c.path);
                    }
                    out.push(c.path.clone());
                    proof {
                        assert(views(out@) =~= base + child_manifests(
                            e.children@.subrange(0, j + 1),
                        ));
                    }
                } else {
                    proof {
                        assert(views(out@) =~= base + child_manifests(
                            e.children@.subrange(0, j + 1),
                        ));
                    }
                }
                j = j + 1;
            }
            proof {
                assert(e.children@.subrange(0, j as int) =~= e.children@);
                assert(views(out@) =~= manifest_paths(entries@.subrange(0, i + 1)));
            }
        } else if e.is_file && same(e.file_name.as_str(), "package.json") {
            proof {
                lemma_views_push(out@, e.path);
            }
            out.push(e.path.clone());
            proof {
                assert(views(out@) =~= manifest_paths(entries@.subrange(0, i + 1)));
            }
        } else {
            proof {
                assert(views(out@) =~= manifest_paths(entries@.subrange(0, i + 1)));
            }
        }
        i = i + 1;
    }
    proof {
        assert(entries@.subrange(0, i as int) =~= entries@);
    }
    out
}

/// Whether a resolved entry path names a `.wasm` file.
pub fn is_wasm_entry(path: &str) -> (r: bool)
    ensures
        r == has_wasm_extension(path@),
{
    let n = path.unicode_len();
    if n <= 5 {
        return false;
    }
    let r = path.get_char(n - 5) == '.' && path.get_char(n - 4) == 'w' && path.get_char(n - 3) == 'a'
        && path.get_char(n - 2) == 's' && path.get_char(n - 1) == 'm' && path.get_char(n - 6)
        != '/';
    proof {
        let tail = path@.subrange(n - 5, n as int);
        if r {
            assert(tail =~= seq!['.', 'w', 'a', 's', 'm']);
        } else if tail == seq!['.', 'w', 'a', 's', 'm'] {
            assert(tail[0] == path@[n - 5]);
            assert(tail[1] == path@[n - 4]);
            assert(tail[2] == path@[n - 3]);
            assert(tail[3] == path@[n - 2]);
            assert(tail[4] == path@[n - 1]);
        }
    }
    r
}

fn name_in(acc: &Vec<ExtensionManifest>, name: &String) -> (r: bool)
    ensures
        r == name_taken(acc@, name@),
{
    let mut i: usize = 0;
    while i < acc.len()
        invariant
            0 <= i <= acc@.len(),
            forall|j: int| 0 <= j < i ==> acc@[j].name@ != name@,
        decreases acc@.len() - i,
    {
        if same(acc[i].name.as_str(), name.as_str()) {
            return true;
        }
        i = i + 1;
    }
    false
}

impl<P> ExtensionHandlerInner<P> {
    /// The manifests of one discovery scan that get an instance: each one
    /// whose entry is an existing `.wasm` file and whose package is neither
    /// loaded nor accepted earlier in the scan, in scan order.
    pub fn find_extensions(&self, candidates: Vec<ManifestCandidate>) -> (r: Vec<ExtensionManifest>)
        ensures
            r@ == accepted(self.extensions(), candidates@),
    {
        let ghost start = candidates@;
        let n = candidates.len();
        let mut rest = candidates;
        let mut out: Vec<ExtensionManifest> = Vec::new();
        let mut i: usize = 0;
        while i < n
            invariant
                0 <= i <= n,
                n == start.len(),
                rest@ == start.subrange(i as int, n as int),
                out@ == accepted(self.extensions(), start.subrange(0, i as int)),
            decreases n - i,
        {
            let c = rest.remove(0);
            proof {
                assert(start.subrange(0, i + 1).drop_last() =~= start.subrange(0, i as int));
                assert(start.subrange(0, i + 1).last() == c);
                assert(rest@ =~= start.subrange(i + 1, n as int));
            }
            if is_wasm_entry(c.manifest.extension_entry.as_str()) && c.entry_exists && !self.contains(
                &c.manifest.name,
            ) && !name_in(&out, &c.manifest.name) {
                out.push(c.manifest);
            }
            i = i + 1;
        }
        proof {
            assert(start.subrange(0, n as int) =~= start);
        }
        out
    }
}

/// What a scan accepts: only manifests whose entry is an existing `.wasm`
/// file, none of a package already loaded, and no package twice.
pub proof fn lemma_accepted_sound<P>(loaded: Seq<crate::registry::Extension<P>>, cs: Seq<ManifestCandidate>)
    ensures
        forall|i: int|
            0 <= i < accepted(loaded, cs).len() ==> exists|j: int|
                0 <= j < cs.len() && cs[j].manifest == #[trigger] accepted(loaded, cs)[i] && entry_ok(
                    cs[j],
                ),
        forall|i: int|
            0 <= i < accepted(loaded, cs).len() ==> !is_loaded(
                loaded,
                #[trigger] accepted(loaded, cs)[i].name@,
            ),
        forall|a: int, b: int|
            0 <= a < accepted(loaded, cs).len() && 0 <= b < accepted(loaded, cs).len() && a != b
                ==> accepted(loaded, cs)[a].name@ != accepted(loaded, cs)[b].name@,
    decreases cs.len(),
{
    if cs.len() > 0 {
        let prev = cs.drop_last();
        lemma_accepted_sound(loaded, prev);
        let acc = accepted(loaded, prev);
        let now = accepted(loaded, cs);
        assert forall|i: int| 0 <= i < now.len() implies exists|j: int|
            0 <= j < cs.len() && cs[j].manifest == #[trigger] now[i] && entry_ok(cs[j]) by {
            if i < acc.len() {
                let j = choose|j: int| 0 <= j < prev.len() && prev[j].manifest == acc[i] && entry_ok(prev[j]);
                assert(cs[j] == prev[j]);
            } else {
                assert(cs[cs.len() - 1] == cs.last());
            }
        }
        assert forall|a: int, b: int|
            0 <= a < now.len() && 0 <= b < now.len() && a != b implies now[a].name@
            != now[b].name@ by {
            if a < acc.len() && b < acc.len() {
            } else if a < acc.len() {
                assert(now[a] == acc[a]);
            } else {
                assert(now[b] == acc[b]);
            }
        }
    }
}

/// The declared path grants with `{NAME}` placeholders in their keys
/// replaced from `vars` (an undefined variable gives the empty string).
pub fn expand_permission_paths(paths: &Vec<(String, String)>, vars: &Vec<(String, String)>) -> (r: Vec<
    (String, String),
>)
    ensures
        r@.len() == paths@.len(),
        forall|i: int|
            0 <= i < r@.len() ==> (#[trigger] r@[i]).0@ == expanded(paths@[i].0@, vars@) && r@[i].1
                == paths@[i].1,
{
    let mut out: Vec<(String, String)> = Vec::new();
    let mut i: usize = 0;
    while i < paths.len()
        invariant
            0 <= i <= paths@.len(),
            out@.len() == i,
            forall|j: int|
                0 <= j < i ==> (#[trigger] out@[j]).0@ == expanded(paths@[j].0@, vars@) && out@[j].1
                    == paths@[j].1,
        decreases paths@.len() - i,
    {
        let key = expand_placeholders(paths[i].0.as_str(), vars);
        out.push((key, paths[i].1.clone()));
        i = i + 1;
    }
    out
}

/// The grants that are kept: those whose expanded path exists.
pub open spec fn kept(ps: Seq<(String, String)>, exists: Seq<bool>) -> Seq<(String, String)>
    decreases ps.len(),
{
    if ps.len() == 0 || exists.len() != ps.len() {
        Seq::empty()
    } else {
        let acc = kept(ps.drop_last(), exists.drop_last());
        if exists.last() {
            acc.push(ps.last())
        } else {
            acc
        }
    }
}

/// Drops the grants whose expanded path does not exist; `exists[i]` tells
/// whether `paths[i]`'s path exists.
pub fn retain_existing(paths: Vec<(String, String)>, exists: &Vec<bool>) -> (r: Vec<(String, String)>)
    requires
        exists@.len() == paths@.len(),
    ensures
        r@ == kept(paths@, exists@),
{
    let ghost start = paths@;
    let n = paths.len();
    let mut rest = paths;
    let mut out: Vec<(String, String)> = Vec::new();
    let mut i: usize = 0;
    while i < n
        invariant
            0 <= i <= n,
            n == start.len(),
            exists@.len() == n,
            rest@ == start.subrange(i as int, n as int),
            out@ == kept(start.subrange(0, i as int), exists@.subrange(0, i as int)),
        decreases n - i,
    {
        let p = rest.remove(0);
        proof {
            assert(start.subrange(0, i + 1).drop_last() =~= start.subrange(0, i as int));
            assert(exists@.subrange(0, i + 1).drop_last() =~= exists@.subrange(0, i as int));
            assert(start.subrange(0, i + 1).last() == p);
            assert(rest@ =~= start.subrange(i + 1, n as int));
        }
        if exists[i] {
            out.push(p);
        }
        i = i + 1;
    }
    proof {
        assert(start.subrange(0, n as int) =~= start);
        assert(exists@.subrange(0, n as int) =~= exists@);
    }
    out
}

} // verus!
