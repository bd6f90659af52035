//! The bundle scanner and the executable-directory scanner.
//!
//! Both work on snapshots the caller reads off the filesystem: a bundle
//! directory with its metadata text and resource files, or one plain
//! directory entry with its file kind and permission bits.

use vstd::prelude::*;

use crate::entry::{
    lower_of, opt_app_view, App, AppCommand, AppCommandV, AppV, Function, FunctionV,
};
use crate::resolver::{resolve_icon, spec_resolve, FileV, ResourceDir};
use crate::text::{ends_with, spec_ends_with};

verus! {

/// The operating-system family a scan runs on, chosen once at startup by
/// the caller.
#[derive(Clone, Copy, PartialEq, Eq, Structural, Debug)]
pub enum Platform {
    MacOs,
    Linux,
    Windows,
}

/// A snapshot of one directory found in an application root: its name,
/// its full path, whether it is a directory, the text of its metadata
/// file if one could be read, and the files of its resource
/// subdirectory.
pub struct BundleSnapshot {
    pub dir_name: String,
    pub path: String,
    pub is_dir: bool,
    pub metadata: Option<String>,
    pub resources: ResourceDir,
}

/// Spec-level value of a bundle snapshot.
pub struct BundleV {
    pub dir_name: Seq<char>,
    pub path: Seq<char>,
    pub is_dir: bool,
    pub metadata: Option<Seq<char>>,
    pub resources: Seq<FileV>,
}

impl View for BundleSnapshot {
    type V = BundleV;

    open spec fn view(&self) -> BundleV {
        BundleV {
            dir_name: self.dir_name@,
            path: self.path@,
            is_dir: self.is_dir,
            metadata: match self.metadata {
                Some(ref m) => Some(m@),
                None => None,
            },
            resources: self.resources@,
        }
    }
}

/// What scanning one bundle directory yields: nothing unless the entry
/// is a directory whose name ends with the bundle suffix; otherwise one
/// record named by the directory with the suffix stripped, described by
/// the fixed literal, opening the directory path, with the icon the
/// resolver finds.
pub open spec fn spec_scan_bundle(b: BundleV, store_icons: bool) -> Option<AppV> {
    if !b.is_dir || !spec_ends_with(b.dir_name, ".app"@) {
        None
    } else {
        let name = b.dir_name.take(b.dir_name.len() - ".app"@.len());
        Some(
            AppV {
                open_command: AppCommandV::Function(FunctionV::OpenApp(b.path)),
                desc: "Application"@,
                icon: spec_resolve(store_icons, None::<Seq<char>>, b.metadata, b.resources),
                name,
                name_lc: lower_of(name),
            },
        )
    }
}

/// Scans one candidate bundle directory.
pub fn scan_bundle(b: &BundleSnapshot, store_icons: bool) -> (r: Option<App>)
    ensures
        opt_app_view(r) == spec_scan_bundle(b@, store_icons),
        r is Some ==> r->Some_0.wf(),
{
    if !b.is_dir {
        return None;
    }
    if !ends_with(b.dir_name.as_str(), ".app") {
        return None;
    }
    let n: usize = b.dir_name.as_str().unicode_len();
    let suffix_len: usize = ".app".unicode_len();
    let name = b.dir_name.as_str().substring_char(0, n - suffix_len).to_owned();
    proof {
        assert(name@ =~= b.dir_name@.take(b.dir_name@.len() - ".app"@.len()));
    }
    let icon = resolve_icon(store_icons, None, b.metadata.as_ref(), &b.resources);
    let app = App::new(
        name,
        "Application".to_owned(),
        icon,
        AppCommand::Function(Function::OpenApp(b.path.clone())),
    );
    Some(app)
}

/// A snapshot of one immediate child of a configured extra directory:
/// its name, its full path, its kind, and its permission bits.
pub struct PathEntry {
    pub file_name: String,
    pub path: String,
    pub is_file: bool,
    pub is_dir: bool,
    pub mode: u32,
}

/// Spec-level value of a path entry.
pub struct PathEntryV {
    pub file_name: Seq<char>,
    pub path: Seq<char>,
    pub is_file: bool,
    pub is_dir: bool,
    pub mode: u32,
}

impl View for PathEntry {
    type V = PathEntryV;

    open spec fn view(&self) -> PathEntryV {
        PathEntryV {
            file_name: self.file_name@,
            path: self.path@,
            is_file: self.is_file,
            is_dir: self.is_dir,
            mode: self.mode,
        }
    }
}

/// The index just past the name's extension dot: the position of the
/// last dot, if any.
pub open spec fn last_dot_index(s: Seq<char>) -> Option<int>
    decreases s.len(),
{
    if s.len() == 0 {
        None
    } else if s.last() == '.' {
        Some(s.len() - 1)
    } else {
        last_dot_index(s.drop_last())
    }
}

/// A file name with its extension stripped; a lone leading dot is kept.
pub open spec fn spec_strip_extension(s: Seq<char>) -> Seq<char> {
    match last_dot_index(s) {
        Some(j) => if j > 0 {
            s.take(j)
        } else {
            s
        },
        None => s,
    }
}

proof fn lemma_last_dot_take(s: Seq<char>, b: int)
    requires
        0 <= b <= s.len(),
        forall|k: int| b <= k < s.len() ==> s[k] != '.',
    ensures
        last_dot_index(s) == last_dot_index(s.take(b)),
    decreases s.len() - b,
{
    if b == s.len() {
        assert(s.take(b) =~= s);
    } else {
        assert(s.last() != '.');
        assert(s.drop_last() =~= s.take(s.len() - 1));
        lemma_last_dot_take(s.take(s.len() - 1), b);
        assert(s.take(s.len() - 1).take(b) =~= s.take(b));
    }
}

fn strip_extension(s: &str) -> (r: String)
    ensures
        r@ == spec_strip_extension(s@),
{
    let n: usize = s.unicode_len();
    let mut b: usize = n;
    while b > 0
        invariant
            b <= n,
            n == s@.len(),
            forall|k: int| b <= k < n ==> s@[k] != '.',
        decreases b,
    {
        if s.get_char(b - 1) == '.' {
            proof {
                lemma_last_dot_take(s@, b as int);
                assert(s@.take(b as int).last() == s@[b - 1]);
            }
            if b - 1 > 0 {
                return s.substring_char(0, b - 1).to_owned();
            }
            return s.to_owned();
        }
        b -= 1;
    }
    proof {
        lemma_last_dot_take(s@, 0);
        assert(s@.take(0) =~= Seq::<char>::empty());
    }
    s.to_owned()
}

/// Whether a path entry qualifies as a launchable application: on
/// Windows-style platforms an executable-extension file; elsewhere a
/// file with an execute permission bit, or a bundle directory.
pub open spec fn spec_qualifies(platform: Platform, e: PathEntryV) -> bool {
    match platform {
        Platform::Windows => e.is_file && spec_ends_with(e.file_name, ".exe"@),
        _ => (e.is_file && e.mode & 0o111 != 0) || (e.is_dir && spec_ends_with(
            e.file_name,
            ".app"@,
        )),
    }
}

/// What scanning one extra-directory child yields: nothing unless it
/// qualifies; otherwise one record named by the file name with its
/// extension stripped, opening the full path, and never carrying an
/// icon.
pub open spec fn spec_scan_path_entry(platform: Platform, e: PathEntryV) -> Option<AppV> {
    if !spec_qualifies(platform, e) {
        None
    } else {
        let name = spec_strip_extension(e.file_name);
        Some(
            AppV {
                open_command: AppCommandV::Function(FunctionV::OpenApp(e.path)),
                desc: "Application"@,
                icon: None,
                name,
                name_lc: lower_of(name),
            },
        )
    }
}

/// Scans one immediate child of a configured extra directory.
pub fn scan_path_entry(platform: Platform, e: &PathEntry) -> (r: Option<App>)
    ensures
        opt_app_view(r) == spec_scan_path_entry(platform, e@),
        r is Some ==> r->Some_0.wf(),
{
    let qualifies: bool = match platform {
        Platform::Windows => e.is_file && ends_with(e.file_name.as_str(), ".exe"),
        _ => (e.is_file && e.mode & 0o111 != 0) || (e.is_dir && ends_with(
            e.file_name.as_str(),
            ".app",
        )),
    };
    if !qualifies {
        return None;
    }
    let name = strip_extension(e.file_name.as_str());
    let app = App::new(
        name,
        "Application".to_owned(),
        None,
        AppCommand::Function(Function::OpenApp(e.path.clone())),
    );
    Some(app)
}

} // verus!
