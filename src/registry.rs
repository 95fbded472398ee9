//! The extension registry: the loaded plugin instances, at most one per
//! package, and the runner commands that query and change it.
use vstd::prelude::*;
use crate::entities::ExtensionCommandResponse;
use crate::router::{initial_reply, initial_reply_spec};
use crate::text::same;

verus! {

/// A loaded plugin instance with the metadata copied from its manifest.
/// `P` is the handle of the sandboxed module, owned by this instance alone.
pub struct Extension<P> {
    pub plugin: P,
    pub package_name: String,
    pub name: String,
    pub icon: String,
    pub author: Option<String>,
    pub version: String,
    pub path: String,
}

/// What the host shows of an installed extension.
pub struct ExtensionDetail {
    pub name: String,
    pub package_name: String,
    pub desc: Option<String>,
    pub author: Option<String>,
    pub version: String,
    pub has_started: bool,
    pub entry: String,
    pub preferences: Vec<String>,
    pub extension_path: String,
    pub extension_icon: Option<String>,
}

pub struct PackageNameArgs {
    pub package_name: String,
}

pub struct ToggleExtensionStatusArgs {
    pub package_name: String,
    pub enabled: bool,
}

/// Commands of the host to the extension runner.
pub enum RunnerCommand {
    GetInstalledExtensions,
    FindNewExtensions,
    GetExtensionIcon(PackageNameArgs),
    ToggleExtensionStatus(ToggleExtensionStatusArgs),
    RemoveExtension(PackageNameArgs),
    StopProcess,
    GetDisplayName(PackageNameArgs),
}

pub enum RunnerCommandResp {
    ExtensionList(Vec<ExtensionDetail>),
    Empty,
    ExtensionIcon(Option<String>),
}

/// The runner's answer to a command, and whether the extensions directory
/// must be scanned for new packages before the answer goes out.
pub struct RunnerStep {
    pub rescan: bool,
    pub reply: RunnerCommandResp,
}

/// `d` shows extension `e`.
pub open spec fn detail_of<P>(e: Extension<P>, d: ExtensionDetail) -> bool {
    &&& d.name == e.name
    &&& d.package_name == e.package_name
    &&& d.desc is None
    &&& d.author == e.author
    &&& d.version == e.version
    &&& d.has_started
    &&& d.entry == e.path
    &&& d.preferences@.len() == 0
    &&& d.extension_path == e.path
    &&& d.extension_icon == Some(e.icon)
}

fn clone_opt(o: &Option<String>) -> (r: Option<String>)
    ensures
        r == *o,
{
    match o {
        Some(s) => Some(s.clone()),
        None => None,
    }
}

impl<P> Extension<P> {
    /// What the host shows of this extension.
    pub fn detail(&self) -> (r: ExtensionDetail)
        ensures
            detail_of(*self, r),
    {
        ExtensionDetail {
            name: self.name.clone(),
            package_name: self.package_name.clone(),
            desc: None,
            author: clone_opt(&self.author),
            version: self.version.clone(),
            has_started: true,
            entry: self.path.clone(),
            preferences: Vec::new(),
            extension_path: self.path.clone(),
            extension_icon: Some(self.icon.clone()),
        }
    }
}

/// No two instances share a package name.
pub open spec fn names_unique<P>(s: Seq<Extension<P>>) -> bool {
    forall|a: int, b: int|
        0 <= a < s.len() && 0 <= b < s.len() && a != b ==> s[a].package_name@ != s[b].package_name@
}

/// Whether an instance of package `name` is loaded.
pub open spec fn is_loaded<P>(s: Seq<Extension<P>>, name: Seq<char>) -> bool {
    exists|i: int| 0 <= i < s.len() && s[i].package_name@ == name
}

/// The position of the instance a by-name query picks first: the first
/// instance for the empty name, else the instance of that package.
pub open spec fn first_selected<P>(s: Seq<Extension<P>>, name: Seq<char>) -> Option<int> {
    if name.len() == 0 {
        if s.len() > 0 {
            Some(0)
        } else {
            None
        }
    } else if is_loaded(s, name) {
        Some(choose|i: int| 0 <= i < s.len() && s[i].package_name@ == name)
    } else {
        None
    }
}

/// The registry of loaded extensions.
pub struct ExtensionHandlerInner<P> {
    extensions_path: String,
    cache_path: String,
    extensions_map: Vec<Extension<P>>,
}

impl<P> ExtensionHandlerInner<P> {
    /// The loaded instances, in the order they were loaded.
    pub closed spec fn extensions(&self) -> Seq<Extension<P>> {
        self.extensions_map@
    }

    pub closed spec fn extensions_dir(&self) -> Seq<char> {
        self.extensions_path@
    }

    pub closed spec fn cache_dir(&self) -> Seq<char> {
        self.cache_path@
    }

    pub open spec fn wf(&self) -> bool {
        names_unique(self.extensions())
    }

    /// An empty registry over the given extensions and cache directories.
    /// Discovery runs separately and inserts what it finds.
    pub fn new(extensions_path: String, cache_path: String) -> (r: Self)
        ensures
            r.wf(),
            r.extensions().len() == 0,
            r.extensions_dir() == extensions_path@,
            r.cache_dir() == cache_path@,
    {
        ExtensionHandlerInner { extensions_path, cache_path, extensions_map: Vec::new() }
    }

    /// The extensions directory that discovery scans.
    pub fn extensions_path(&self) -> (r: &String)
        ensures
            r@ == self.extensions_dir(),
    {
        &self.extensions_path
    }

    /// The directory the sandbox may use as its compilation cache.
    pub fn cache_path(&self) -> (r: &String)
        ensures
            r@ == self.cache_dir(),
    {
        &self.cache_path
    }

    fn position(&self, package_name: &String) -> (r: Option<usize>)
        ensures
            r is Some <==> is_loaded(self.extensions(), package_name@),
            r is Some ==> r->0 < self.extensions().len() && self.extensions()[r->0 as int].package_name@
                == package_name@,
    {
        let mut i: usize = 0;
        while i < self.extensions_map.len()
            invariant
                0 <= i <= self.extensions().len(),
                forall|j: int| 0 <= j < i ==> self.extensions()[j].package_name@ != package_name@,
            decreases self.extensions().len() - i,
        {
            if same(self.extensions_map[i].package_name.as_str(), package_name.as_str()) {
                return Some(i);
            }
            i = i + 1;
        }
        None
    }

    /// Whether an instance of `package_name` is loaded.
    pub fn contains(&self, package_name: &String) -> (r: bool)
        ensures
            r == is_loaded(self.extensions(), package_name@),
    {
        self.position(package_name).is_some()
    }

    /// Adds a newly spawned instance, unless its package is already loaded
    /// (then nothing changes and `false` comes back).
    pub fn insert_extension(&mut self, extension: Extension<P>) -> (r: bool)
        requires
            old(self).wf(),
        ensures
            final(self).wf(),
            r == !is_loaded(old(self).extensions(), extension.package_name@),
            r ==> final(self).extensions() == old(self).extensions().push(extension),
            !r ==> final(self).extensions() == old(self).extensions(),
            final(self).extensions_dir() == old(self).extensions_dir(),
    {
        if self.contains(&extension.package_name) {
            return false;
        }
        self.extensions_map.push(extension);
        true
    }

    /// The instances a command for `package_name` goes to: all of them for
    /// the empty name, else the one of that package, if loaded.
    pub fn get_extensions(&self, package_name: &String) -> (r: Vec<&Extension<P>>)
        requires
            self.wf(),
        ensures
            package_name@.len() == 0 ==> r@.len() == self.extensions().len() && forall|i: int|
                0 <= i < r@.len() ==> *#[trigger] r@[i] == self.extensions()[i],
            package_name@.len() > 0 && !is_loaded(self.extensions(), package_name@) ==> r@.len()
                == 0,
            package_name@.len() > 0 && is_loaded(self.extensions(), package_name@) ==> {
                &&& r@.len() == 1
                &&& r@[0].package_name@ == package_name@
                &&& exists|i: int| 0 <= i < self.extensions().len() && self.extensions()[i] == *r@[0]
            },
    {
        let mut plugins: Vec<&Extension<P>> = Vec::new();
        if package_name.unicode_len() == 0 {
            let mut i: usize = 0;
            while i < self.extensions_map.len()
                invariant
                    0 <= i <= self.extensions().len(),
                    plugins@.len() == i,
                    forall|j: int| 0 <= j < i ==> *#[trigger] plugins@[j] == self.extensions()[j],
                decreases self.extensions().len() - i,
            {
                plugins.push(&self.extensions_map[i]);
                i = i + 1;
            }
        } else {
            match self.position(package_name) {
                Some(i) => plugins.push(&self.extensions_map[i]),
                None => {},
            }
        }
        plugins
    }

    /// Drops the instance of `package_name` from the registry, if loaded.
    /// Its background thread is not stopped.
    pub fn remove_extension(&mut self, package_name: &String)
        requires
            old(self).wf(),
        ensures
            final(self).wf(),
            !is_loaded(final(self).extensions(), package_name@),
            !is_loaded(old(self).extensions(), package_name@) ==> final(self).extensions() == old(
                self,
            ).extensions(),
            is_loaded(old(self).extensions(), package_name@) ==> exists|i: int|
                0 <= i < old(self).extensions().len() && old(self).extensions()[i].package_name@
                    == package_name@ && final(self).extensions() == old(self).extensions().remove(i),
            forall|i: int|
                0 <= i < old(self).extensions().len() && old(self).extensions()[i].package_name@
                    != package_name@ ==> final(self).extensions().contains(old(self).extensions()[i]),
            forall|i: int|
                0 <= i < final(self).extensions().len() ==> old(self).extensions().contains(
                    #[trigger] final(self).extensions()[i],
                ),
            final(self).extensions_dir() == old(self).extensions_dir(),
    {
        let ghost start = self.extensions_map@;
        match self.position(package_name) {
            Some(i) => {
                self.extensions_map.remove(i);
                proof {
                    let s = self.extensions_map@;
                    assert forall|j: int| 0 <= j < s.len() implies start.contains(#[trigger] s[j]) by {
                        if j < i {
                            assert(s[j] == start[j]);
                        } else {
                            assert(s[j] == start[j + 1]);
                        }
                    }
                    assert forall|j: int|
                        0 <= j < start.len() && start[j].package_name@
                            != package_name@ implies s.contains(start[j]) by {
                        if j < i {
                            assert(s[j] == start[j]);
                        } else {
                            assert(j != i);
                            assert(s[j - 1] == start[j]);
                        }
                    }
                    if is_loaded(s, package_name@) {
                        let k = choose|k: int| 0 <= k < s.len() && s[k].package_name@ == package_name@;
                        if k < i {
                            assert(s[k] == start[k]);
                        } else {
                            assert(s[k] == start[k + 1]);
                        }
                    }
                }
            },
            None => {},
        }
    }

    fn first_of(&self, package_name: &String) -> (r: Option<&Extension<P>>)
        requires
            self.wf(),
        ensures
            r is Some <==> first_selected(self.extensions(), package_name@) is Some,
            r is Some ==> *r->0 == self.extensions()[first_selected(
                self.extensions(),
                package_name@,
            )->0],
    {
        let found = self.get_extensions(package_name);
        if found.len() == 0 {
            return None;
        }
        let e = found[0];
        proof {
            if package_name@.len() > 0 {
                let s = self.extensions();
                let i = choose|i: int| 0 <= i < s.len() && s[i] == *found@[0];
                let k = choose|k: int| 0 <= k < s.len() && s[k].package_name@ == package_name@;
                assert(s[i].package_name@ == package_name@);
                assert(i == k);
            }
        }
        Some(e)
    }

    /// What the host shows of every loaded extension, in load order.
    pub fn installed_extensions(&self) -> (r: Vec<ExtensionDetail>)
        ensures
            r@.len() == self.extensions().len(),
            forall|i: int| 0 <= i < r@.len() ==> detail_of(self.extensions()[i], #[trigger] r@[i]),
    {
        let mut out: Vec<ExtensionDetail> = Vec::new();
        let mut i: usize = 0;
        while i < self.extensions_map.len()
            invariant
                0 <= i <= self.extensions().len(),
                out@.len() == i,
                forall|j: int| 0 <= j < i ==> detail_of(self.extensions()[j], #[trigger] out@[j]),
            decreases self.extensions().len() - i,
        {
            out.push(self.extensions_map[i].detail());
            i = i + 1;
        }
        out
    }

    /// Answers a runner command. Finding new extensions asks the caller to
    /// rescan the extensions directory first; toggling an extension and
    /// stopping the process are not supported.
    pub fn handle_runner_command(&mut self, command: RunnerCommand) -> (r: RunnerStep)
        requires
            old(self).wf(),
            !(command is ToggleExtensionStatus),
            !(command is StopProcess),
        ensures
            final(self).wf(),
            r.rescan == command is FindNewExtensions,
            final(self).extensions_dir() == old(self).extensions_dir(),
            !(command is RemoveExtension) ==> final(self).extensions() == old(self).extensions(),
            match command {
                RunnerCommand::GetInstalledExtensions => {
                    &&& r.reply matches RunnerCommandResp::ExtensionList(l)
                    &&& l@.len() == old(self).extensions().len()
                    &&& forall|i: int|
                        0 <= i < l@.len() ==> detail_of(old(self).extensions()[i], #[trigger] l@[i])
                },
                RunnerCommand::FindNewExtensions => r.reply is Empty,
                RunnerCommand::GetExtensionIcon(p) => r.reply == RunnerCommandResp::ExtensionIcon(
                    match first_selected(old(self).extensions(), p.package_name@) {
                        Some(i) => Some(old(self).extensions()[i].icon),
                        None => None,
                    },
                ),
                RunnerCommand::GetDisplayName(p) => r.reply == RunnerCommandResp::ExtensionIcon(
                    match first_selected(old(self).extensions(), p.package_name@) {
                        Some(i) => Some(old(self).extensions()[i].name),
                        None => None,
                    },
                ),
                RunnerCommand::RemoveExtension(p) => {
                    &&& r.reply is Empty
                    &&& !is_loaded(final(self).extensions(), p.package_name@)
                    &&& forall|i: int|
                        0 <= i < old(self).extensions().len() && old(self).extensions()[i].package_name@
                            != p.package_name@ ==> final(self).extensions().contains(
                            old(self).extensions()[i],
                        )
                    &&& forall|i: int|
                        0 <= i < final(self).extensions().len() ==> old(self).extensions().contains(
                            #[trigger] final(self).extensions()[i],
                        )
                },
                _ => true,
            },
    {
        match command {
            RunnerCommand::GetInstalledExtensions => RunnerStep {
                rescan: false,
                reply: RunnerCommandResp::ExtensionList(self.installed_extensions()),
            },
            RunnerCommand::FindNewExtensions => RunnerStep {
                rescan: true,
                reply: RunnerCommandResp::Empty,
            },
            RunnerCommand::GetExtensionIcon(p) => {
                let icon = match self.first_of(&p.package_name) {
                    Some(e) => Some(e.icon.clone()),
                    None => None,
                };
                RunnerStep { rescan: false, reply: RunnerCommandResp::ExtensionIcon(icon) }
            },
            RunnerCommand::RemoveExtension(p) => {
                self.remove_extension(&p.package_name);
                RunnerStep { rescan: false, reply: RunnerCommandResp::Empty }
            },
            RunnerCommand::GetDisplayName(p) => {
                let name = match self.first_of(&p.package_name) {
                    Some(e) => Some(e.name.clone()),
                    None => None,
                };
                RunnerStep { rescan: false, reply: RunnerCommandResp::ExtensionIcon(name) }
            },
            // Ruled out by the precondition.
            RunnerCommand::ToggleExtensionStatus(_) | RunnerCommand::StopProcess => RunnerStep {
                rescan: false,
                reply: RunnerCommandResp::Empty,
            },
        }
    }

    /// Dispatches a command for `package_name`: the instances it goes to
    /// (see `get_extensions`) and the reply owed to the caller at once (the
    /// empty marker when it goes to several, else none). Each instance's
    /// call is then settled with `settle_call` and answered with
    /// `plugin_reply`.
    fn execute_command(&self, package_name: &String) -> (r: (
        Vec<&Extension<P>>,
        Option<ExtensionCommandResponse>,
    ))
        requires
            self.wf(),
        ensures
            package_name@.len() == 0 ==> r.0@.len() == self.extensions().len() && forall|i: int|
                0 <= i < r.0@.len() ==> *#[trigger] r.0@[i] == self.extensions()[i],
            package_name@.len() > 0 ==> r.0@.len() == (if is_loaded(
                self.extensions(),
                package_name@,
            ) {
                1int
            } else {
                0int
            }),
            package_name@.len() > 0 && r.0@.len() == 1 ==> r.0@[0].package_name@ == package_name@
                && exists|i: int| 0 <= i < self.extensions().len() && self.extensions()[i] == *r.0@[0],
            r.1 == initial_reply_spec(r.0@.len() as nat),
    {
        let targets = self.get_extensions(package_name);
        let first = initial_reply(targets.len());
        (targets, first)
    }

    /// Takes a command for `package_name` (empty for every plugin) and
    /// dispatches it; see `execute_command`.
    pub fn handle_extension_command(&self, package_name: &String) -> (r: (
        Vec<&Extension<P>>,
        Option<ExtensionCommandResponse>,
    ))
        requires
            self.wf(),
        ensures
            package_name@.len() == 0 ==> r.0@.len() == self.extensions().len() && forall|i: int|
                0 <= i < r.0@.len() ==> *#[trigger] r.0@[i] == self.extensions()[i],
            package_name@.len() > 0 ==> r.0@.len() == (if is_loaded(
                self.extensions(),
                package_name@,
            ) {
                1int
            } else {
                0int
            }),
            package_name@.len() > 0 && r.0@.len() == 1 ==> r.0@[0].package_name@ == package_name@
                && exists|i: int| 0 <= i < self.extensions().len() && self.extensions()[i] == *r.0@[0],
            r.1 == initial_reply_spec(r.0@.len() as nat),
    {
        self.execute_command(package_name)
    }
}

} // verus!
