//! Building the full application index from per-root snapshots.
//!
//! The caller resolves the platform's default root list (plus any
//! user-configured extra directories), snapshots each root — in
//! parallel if it likes, since every unit of work here is pure — and
//! hands the snapshots in; the index is the concatenation of the
//! per-root scans.

use vstd::prelude::*;

use crate::desktop::{scan_desktop_file, spec_scan_desktop_file};
use crate::entry::{app_wf, apps_views, lemma_apps_views_push, App, AppV};
use crate::resolver::{FileV, ResourceDir};
use crate::scanner::{
    scan_bundle, scan_path_entry, spec_scan_bundle, spec_scan_path_entry, BundleSnapshot, BundleV,
    PathEntry, PathEntryV, Platform,
};
use crate::text::{contains_char, spec_contains_char};

verus! {

/// A snapshot of one desktop-entry file of a root: its name, its text,
/// and — when icon storage is on — a snapshot of the directory in which
/// its declared icon may live.
pub struct DesktopFile {
    pub file_name: String,
    pub content: String,
    pub icon_dir: Option<ResourceDir>,
}

/// Spec-level value of a desktop-file snapshot.
pub struct DesktopFileV {
    pub file_name: Seq<char>,
    pub content: Seq<char>,
    pub icon_dir: Option<Seq<FileV>>,
}

impl View for DesktopFile {
    type V = DesktopFileV;

    open spec fn view(&self) -> DesktopFileV {
        DesktopFileV {
            file_name: self.file_name@,
            content: self.content@,
            icon_dir: match self.icon_dir {
                Some(ref d) => Some(d@),
                None => None,
            },
        }
    }
}

/// Everything read out of one configured root, in the shape the root's
/// platform scanner expects.
pub enum RootListing {
    /// Candidate bundle directories of a bundle-platform root.
    Bundles(Vec<BundleSnapshot>),
    /// Desktop-entry files of a desktop-entry root.
    DesktopFiles(Vec<DesktopFile>),
    /// Immediate children of a configured extra directory.
    PathEntries(Platform, Vec<PathEntry>),
}

/// Spec-level value of a root listing.
pub enum RootV {
    Bundles(Seq<BundleV>),
    DesktopFiles(Seq<DesktopFileV>),
    PathEntries(Platform, Seq<PathEntryV>),
}

pub open spec fn bundles_views(s: Seq<BundleSnapshot>) -> Seq<BundleV> {
    s.map_values(|b: BundleSnapshot| b@)
}

pub open spec fn desktops_views(s: Seq<DesktopFile>) -> Seq<DesktopFileV> {
    s.map_values(|f: DesktopFile| f@)
}

pub open spec fn paths_views(s: Seq<PathEntry>) -> Seq<PathEntryV> {
    s.map_values(|e: PathEntry| e@)
}

pub open spec fn roots_views(s: Seq<RootListing>) -> Seq<RootV> {
    s.map_values(|r: RootListing| r@)
}

impl View for RootListing {
    type V = RootV;

    open spec fn view(&self) -> RootV {
        match self {
            RootListing::Bundles(bs) => RootV::Bundles(bundles_views(bs@)),
            RootListing::DesktopFiles(fs) => RootV::DesktopFiles(desktops_views(fs@)),
            RootListing::PathEntries(p, es) => RootV::PathEntries(*p, paths_views(es@)),
        }
    }
}

/// The records of a bundle root: one per qualifying directory, in
/// listing order.
pub open spec fn scan_bundles(bs: Seq<BundleV>, store_icons: bool) -> Seq<AppV>
    decreases bs.len(),
{
    if bs.len() == 0 {
        Seq::<AppV>::empty()
    } else {
        let rest = scan_bundles(bs.drop_first(), store_icons);
        match spec_scan_bundle(bs[0], store_icons) {
            Some(a) => seq![a] + rest,
            None => rest,
        }
    }
}

/// The records of a desktop-entry root: one per qualifying file, in
/// listing order.
pub open spec fn scan_desktop_files(fs: Seq<DesktopFileV>, store_icons: bool) -> Seq<AppV>
    decreases fs.len(),
{
    if fs.len() == 0 {
        Seq::<AppV>::empty()
    } else {
        let rest = scan_desktop_files(fs.drop_first(), store_icons);
        match spec_scan_desktop_file(fs[0].file_name, fs[0].content, store_icons, fs[0].icon_dir) {
            Some(a) => seq![a] + rest,
            None => rest,
        }
    }
}

/// The records of a configured extra directory: one per qualifying
/// child, in listing order.
pub open spec fn scan_path_entries(platform: Platform, es: Seq<PathEntryV>) -> Seq<AppV>
    decreases es.len(),
{
    if es.len() == 0 {
        Seq::<AppV>::empty()
    } else {
        let rest = scan_path_entries(platform, es.drop_first());
        match spec_scan_path_entry(platform, es[0]) {
            Some(a) => seq![a] + rest,
            None => rest,
        }
    }
}

/// The records of one root.
pub open spec fn spec_scan_root(root: RootV, store_icons: bool) -> Seq<AppV> {
    match root {
        RootV::Bundles(bs) => scan_bundles(bs, store_icons),
        RootV::DesktopFiles(fs) => scan_desktop_files(fs, store_icons),
        RootV::PathEntries(p, es) => scan_path_entries(p, es),
    }
}

/// The full index: the concatenation of the per-root scans, in root
/// order.
pub open spec fn spec_build(roots: Seq<RootV>, store_icons: bool) -> Seq<AppV>
    decreases roots.len(),
{
    if roots.len() == 0 {
        Seq::<AppV>::empty()
    } else {
        spec_scan_root(roots[0], store_icons) + spec_build(roots.drop_first(), store_icons)
    }
}

/// Scans one root's snapshot: per-entry failures were already turned
/// into absent fields by the snapshotting caller, and entries that do
/// not qualify are skipped, never fatal.
pub fn scan_root(root: &RootListing, store_icons: bool) -> (r: Vec<App>)
    ensures
        apps_views(r@) == spec_scan_root(root@, store_icons),
        forall|j: int| 0 <= j < r@.len() ==> app_wf(#[trigger] r@[j]@),
        !store_icons ==> forall|j: int| 0 <= j < r@.len() ==> (#[trigger] r@[j]@).icon is None,
{
    let mut out: Vec<App> = Vec::new();
    match root {
        RootListing::Bundles(bs) => {
            let ghost v = bundles_views(bs@);
            let mut i: usize = 0;
            proof {
                assert(v.skip(0) =~= v);
                assert(apps_views(out@) =~= Seq::<AppV>::empty());
                assert(Seq::<AppV>::empty() + scan_bundles(v, store_icons) =~= scan_bundles(
                    v,
                    store_icons,
                ));
            }
            while i < bs.len()
                invariant
                    i <= bs@.len(),
                    v == bundles_views(bs@),
                    apps_views(out@) + scan_bundles(v.skip(i as int), store_icons) == scan_bundles(
                        v,
                        store_icons,
                    ),
                    forall|j: int| 0 <= j < out@.len() ==> app_wf(#[trigger] out@[j]@),
                    !store_icons ==> forall|j: int|
                        0 <= j < out@.len() ==> (#[trigger] out@[j]@).icon is None,
                decreases bs@.len() - i,
            {
                proof {
                    assert(v[i as int] == bs@[i as int]@);
                    assert(v.skip(i as int)[0] == v[i as int]);
                    assert(v.skip(i as int).drop_first() =~= v.skip(i as int + 1));
                }
                if let Some(app) = scan_bundle(&bs[i], store_icons) {
                    proof {
                        lemma_apps_views_push(out@, app);
                        assert(apps_views(out@).push(app@) + scan_bundles(
                            v.skip(i as int + 1),
                            store_icons,
                        ) =~= apps_views(out@) + (seq![app@] + scan_bundles(
                            v.skip(i as int + 1),
                            store_icons,
                        )));
                    }
                    out.push(app);
                }
                i += 1;
            }
            proof {
                assert(v.skip(v.len() as int) =~= Seq::<BundleV>::empty());
                assert(apps_views(out@) + Seq::<AppV>::empty() =~= apps_views(out@));
            }
        },
        RootListing::DesktopFiles(fs) => {
            let ghost v = desktops_views(fs@);
            let mut i: usize = 0;
            proof {
                assert(v.skip(0) =~= v);
                assert(apps_views(out@) =~= Seq::<AppV>::empty());
                assert(Seq::<AppV>::empty() + scan_desktop_files(v, store_icons)
                    =~= scan_desktop_files(v, store_icons));
            }
            while i < fs.len()
                invariant
                    i <= fs@.len(),
                    v == desktops_views(fs@),
                    apps_views(out@) + scan_desktop_files(v.skip(i as int), store_icons)
                        == scan_desktop_files(v, store_icons),
                    forall|j: int| 0 <= j < out@.len() ==> app_wf(#[trigger] out@[j]@),
                    !store_icons ==> forall|j: int|
                        0 <= j < out@.len() ==> (#[trigger] out@[j]@).icon is None,
                decreases fs@.len() - i,
            {
                proof {
                    assert(v[i as int] == fs@[i as int]@);
                    assert(v.skip(i as int)[0] == v[i as int]);
                    assert(v.skip(i as int).drop_first() =~= v.skip(i as int + 1));
                }
                let f = &fs[i];
                if let Some(app) = scan_desktop_file(
                    f.file_name.as_str(),
                    &f.content,
                    store_icons,
                    f.icon_dir.as_ref(),
                ) {
                    proof {
                        lemma_apps_views_push(out@, app);
                        assert(apps_views(out@).push(app@) + scan_desktop_files(
                            v.skip(i as int + 1),
                            store_icons,
                        ) =~= apps_views(out@) + (seq![app@] + scan_desktop_files(
                            v.skip(i as int + 1),
                            store_icons,
                        )));
                    }
                    out.push(app);
                }
                i += 1;
            }
            proof {
                assert(v.skip(v.len() as int) =~= Seq::<DesktopFileV>::empty());
                assert(apps_views(out@) + Seq::<AppV>::empty() =~= apps_views(out@));
            }
        },
        RootListing::PathEntries(platform, es) => {
            let ghost v = paths_views(es@);
            let mut i: usize = 0;
            proof {
                assert(v.skip(0) =~= v);
                assert(apps_views(out@) =~= Seq::<AppV>::empty());
                assert(Seq::<AppV>::empty() + scan_path_entries(*platform, v) =~= scan_path_entries(
                    *platform,
                    v,
                ));
            }
            while i < es.len()
                invariant
                    i <= es@.len(),
                    v == paths_views(es@),
                    apps_views(out@) + scan_path_entries(*platform, v.skip(i as int))
                        == scan_path_entries(*platform, v),
                    forall|j: int| 0 <= j < out@.len() ==> app_wf(#[trigger] out@[j]@),
                    !store_icons ==> forall|j: int|
                        0 <= j < out@.len() ==> (#[trigger] out@[j]@).icon is None,
                decreases es@.len() - i,
            {
                proof {
                    assert(v[i as int] == es@[i as int]@);
                    assert(v.skip(i as int)[0] == v[i as int]);
                    assert(v.skip(i as int).drop_first() =~= v.skip(i as int + 1));
                }
                if let Some(app) = scan_path_entry(*platform, &es[i]) {
                    proof {
                        lemma_apps_views_push(out@, app);
                        assert(apps_views(out@).push(app@) + scan_path_entries(
                            *platform,
                            v.skip(i as int + 1),
                        ) =~= apps_views(out@) + (seq![app@] + scan_path_entries(
                            *platform,
                            v.skip(i as int + 1),
                        )));
                    }
                    out.push(app);
                }
                i += 1;
            }
            proof {
                assert(v.skip(v.len() as int) =~= Seq::<PathEntryV>::empty());
                assert(apps_views(out@) + Seq::<AppV>::empty() =~= apps_views(out@));
            }
        },
    }
    out
}

/// Builds the full index from the given root snapshots: every root's
/// records, concatenated in root order.  Callers must not rely on the
/// order across roots; duplicates across overlapping roots are kept.
pub fn build_index(roots: &Vec<RootListing>, store_icons: bool) -> (r: Vec<App>)
    ensures
        apps_views(r@) == spec_build(roots_views(roots@), store_icons),
        forall|j: int| 0 <= j < r@.len() ==> app_wf(#[trigger] r@[j]@),
        !store_icons ==> forall|j: int| 0 <= j < r@.len() ==> (#[trigger] r@[j]@).icon is None,
{
    let ghost rv = roots_views(roots@);
    let mut out: Vec<App> = Vec::new();
    let mut i: usize = 0;
    proof {
        assert(rv.skip(0) =~= rv);
        assert(apps_views(out@) =~= Seq::<AppV>::empty());
        assert(Seq::<AppV>::empty() + spec_build(rv, store_icons) =~= spec_build(rv, store_icons));
    }
    while i < roots.len()
        invariant
            i <= roots@.len(),
            rv == roots_views(roots@),
            apps_views(out@) + spec_build(rv.skip(i as int), store_icons) == spec_build(
                rv,
                store_icons,
            ),
            forall|j: int| 0 <= j < out@.len() ==> app_wf(#[trigger] out@[j]@),
            !store_icons ==> forall|j: int|
                0 <= j < out@.len() ==> (#[trigger] out@[j]@).icon is None,
        decreases roots@.len() - i,
    {
        proof {
            assert(rv[i as int] == roots@[i as int]@);
            assert(rv.skip(i as int)[0] == rv[i as int]);
            assert(rv.skip(i as int).drop_first() =~= rv.skip(i as int + 1));
        }
        let mut part = scan_root(&roots[i], store_icons);
        proof {
            assert(apps_views(out@ + part@) =~= apps_views(out@) + apps_views(part@));
            assert(apps_views(out@) + (apps_views(part@) + spec_build(
                rv.skip(i as int + 1),
                store_icons,
            )) =~= (apps_views(out@) + apps_views(part@)) + spec_build(
                rv.skip(i as int + 1),
                store_icons,
            ));
        }
        out.append(&mut part);
        i += 1;
    }
    proof {
        assert(rv.skip(rv.len() as int) =~= Seq::<RootV>::empty());
        assert(apps_views(out@) + Seq::<AppV>::empty() =~= apps_views(out@));
    }
    out
}

/// The concatenation of separately scanned parts, in order: the single
/// synchronization point when roots were scanned in parallel.
pub open spec fn spec_concat(parts: Seq<Seq<AppV>>) -> Seq<AppV>
    decreases parts.len(),
{
    if parts.len() == 0 {
        Seq::<AppV>::empty()
    } else {
        parts[0] + spec_concat(parts.drop_first())
    }
}

/// The values of separately produced record vectors.
pub open spec fn parts_views(s: Seq<Vec<App>>) -> Seq<Seq<AppV>> {
    s.map_values(|v: Vec<App>| apps_views(v@))
}

/// Joins the results of separately scanned roots into one collection.
pub fn aggregate(parts: Vec<Vec<App>>) -> (r: Vec<App>)
    ensures
        apps_views(r@) == spec_concat(parts_views(parts@)),
{
    let ghost total = parts_views(parts@);
    let mut rest = parts;
    let mut out: Vec<App> = Vec::new();
    proof {
        assert(apps_views(out@) =~= Seq::<AppV>::empty());
        assert(Seq::<AppV>::empty() + spec_concat(total) =~= spec_concat(total));
    }
    while rest.len() > 0
        invariant
            apps_views(out@) + spec_concat(parts_views(rest@)) == spec_concat(total),
        decreases rest@.len(),
    {
        let ghost before = rest@;
        let mut p = rest.remove(0);
        proof {
            let pv = parts_views(before);
            assert(parts_views(rest@) =~= pv.drop_first());
            assert(pv[0] == apps_views(p@));
            assert(spec_concat(pv) == pv[0] + spec_concat(pv.drop_first()));
            assert(apps_views(out@ + p@) =~= apps_views(out@) + apps_views(p@));
            assert(apps_views(out@) + (apps_views(p@) + spec_concat(parts_views(rest@)))
                =~= (apps_views(out@) + apps_views(p@)) + spec_concat(parts_views(rest@)));
        }
        out.append(&mut p);
    }
    proof {
        assert(parts_views(rest@) =~= Seq::<Seq<AppV>>::empty());
        assert(apps_views(out@) + Seq::<AppV>::empty() =~= apps_views(out@));
    }
    out
}

/// The platform's fixed, well-known application install directories; a
/// path may hold a glob wildcard, which the caller expands before
/// snapshotting.
pub fn default_app_paths(platform: Platform) -> (r: Vec<String>)
    ensures
        match platform {
            Platform::MacOs => r@.len() == 3 && r@[0]@ == "/Applications"@ && r@[1]@
                == "/System/Applications"@ && r@[2]@ == "/System/Applications/Utilities"@,
            Platform::Linux => r@.len() == 3 && r@[0]@ == "/usr/share/applications"@ && r@[1]@
                == "/usr/local/share/applications"@ && r@[2]@
                == "/home/*/.local/share/applications"@,
            Platform::Windows => r@.len() == 2 && r@[0]@ == "C:\\Program Files"@ && r@[1]@
                == "C:\\Program Files (x86)"@,
        },
{
    match platform {
        Platform::MacOs => vec![
            "/Applications".to_owned(),
            "/System/Applications".to_owned(),
            "/System/Applications/Utilities".to_owned(),
        ],
        Platform::Linux => vec![
            "/usr/share/applications".to_owned(),
            "/usr/local/share/applications".to_owned(),
            "/home/*/.local/share/applications".to_owned(),
        ],
        Platform::Windows => vec![
            "C:\\Program Files".to_owned(),
            "C:\\Program Files (x86)".to_owned(),
        ],
    }
}

/// Whether a configured root needs glob expansion before it can be read
/// as a directory.
pub fn has_wildcard(s: &str) -> (r: bool)
    ensures
        r == spec_contains_char(s@, '*'),
{
    contains_char(s, '*')
}

/// Rebuilding against an unchanged snapshot is idempotent: two builds
/// over the same root snapshots yield the same records, and so
/// set-equal collections however the caller later orders them.
pub proof fn lemma_build_idempotent(
    r1: Seq<AppV>,
    r2: Seq<AppV>,
    roots: Seq<RootV>,
    store_icons: bool,
)
    requires
        r1 == spec_build(roots, store_icons),
        r2 == spec_build(roots, store_icons),
    ensures
        r1 == r2,
        r1.to_multiset() == r2.to_multiset(),
{
}

} // verus!
