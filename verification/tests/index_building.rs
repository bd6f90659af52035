//! Scanning roots and building the whole index.

use rustcast::builder::{
    aggregate, build_index, default_app_paths, has_wildcard, scan_root, DesktopFile, RootListing,
};
use rustcast::entry::{App, AppCommand, Function};
use rustcast::resolver::ResourceDir;
use rustcast::scanner::{scan_bundle, scan_path_entry, BundleSnapshot, PathEntry, Platform};

fn solid_container(size: u32, pixel: [u8; 4]) -> Vec<u8> {
    let mut data = Vec::new();
    for _ in 0..(size * size) {
        data.extend_from_slice(&pixel);
    }
    let image = icns::Image::from_data(icns::PixelFormat::RGBA, size, size, data).unwrap();
    let mut family = icns::IconFamily::new();
    family.add_icon(&image).unwrap();
    let mut out = Vec::new();
    family.write(&mut out).unwrap();
    out
}

fn bundle(name: &str, store_icon_file: Option<(&str, Vec<u8>)>) -> BundleSnapshot {
    BundleSnapshot {
        dir_name: name.to_string(),
        path: format!("/Applications/{}", name),
        is_dir: true,
        metadata: None,
        resources: ResourceDir {
            files: store_icon_file
                .into_iter()
                .map(|(n, d)| rustcast::resolver::NamedFile {
                    name: n.to_string(),
                    data: d,
                })
                .collect(),
        },
    }
}

fn desktop_file(name: &str, app_name: &str) -> DesktopFile {
    DesktopFile {
        file_name: name.to_string(),
        content: format!("[Desktop Entry]\nName={}\nExec=/bin/x\n", app_name),
        icon_dir: None,
    }
}

#[test]
fn bundle_scan_strips_suffix_and_opens_path() {
    let b = bundle("Safari.app", None);
    let app = scan_bundle(&b, false).unwrap();
    assert_eq!(app.name, "Safari");
    assert_eq!(app.name_lc, "safari");
    assert_eq!(app.desc, "Application");
    assert!(app.icon.is_none());
    match app.open_command {
        AppCommand::Function(Function::OpenApp(p)) => {
            assert_eq!(p, "/Applications/Safari.app")
        }
        _ => panic!("expected an open action"),
    }
}

#[test]
fn non_bundle_directory_is_skipped() {
    let mut b = bundle("Notes", None);
    assert!(scan_bundle(&b, false).is_none());
    b = bundle("Safari.app", None);
    b.is_dir = false;
    assert!(scan_bundle(&b, false).is_none());
}

#[test]
fn bundle_icon_comes_from_resources() {
    let b = bundle("Mail.app", Some(("AppIcon.icns", solid_container(16, [9, 9, 9, 255]))));
    let app = scan_bundle(&b, true).unwrap();
    let img = app.icon.unwrap();
    assert_eq!(&img.data[0..4], &[9, 9, 9, 255]);
}

#[test]
fn bundle_metadata_declared_name_wins_over_fallback() {
    // The metadata file declares "Foo"; the resource directory holds both
    // Foo.icns and the canonical AppIcon.icns.  The declared name wins.
    let foo = solid_container(16, [1, 0, 0, 255]);
    let canon = solid_container(16, [0, 2, 0, 255]);
    let b = BundleSnapshot {
        dir_name: "Painter.app".to_string(),
        path: "/Applications/Painter.app".to_string(),
        is_dir: true,
        metadata: Some(
            "<dict>\n  <key>CFBundleIconFile</key>\n  <string>Foo</string>\n</dict>\n".to_string(),
        ),
        resources: ResourceDir {
            files: vec![
                rustcast::resolver::NamedFile {
                    name: "Foo.icns".to_string(),
                    data: foo,
                },
                rustcast::resolver::NamedFile {
                    name: "AppIcon.icns".to_string(),
                    data: canon,
                },
            ],
        },
    };
    let app = scan_bundle(&b, true).unwrap();
    let img = app.icon.unwrap();
    assert_eq!(&img.data[0..4], &[1, 0, 0, 255]);
}

#[test]
fn bundle_without_declared_name_and_ambiguous_resources_has_no_icon() {
    let b = BundleSnapshot {
        dir_name: "Shy.app".to_string(),
        path: "/Applications/Shy.app".to_string(),
        is_dir: true,
        metadata: None,
        resources: ResourceDir {
            files: vec![
                rustcast::resolver::NamedFile {
                    name: "One.icns".to_string(),
                    data: solid_container(16, [1, 1, 1, 255]),
                },
                rustcast::resolver::NamedFile {
                    name: "Two.icns".to_string(),
                    data: solid_container(16, [2, 2, 2, 255]),
                },
            ],
        },
    };
    let app = scan_bundle(&b, true).unwrap();
    assert!(app.icon.is_none());
}

#[test]
fn search_key_is_lowercased_name() {
    let b = bundle("GIMP Editor.app", None);
    let app = scan_bundle(&b, false).unwrap();
    assert_eq!(app.name, "GIMP Editor");
    assert_eq!(app.name_lc, "gimp editor");
}

#[test]
fn executable_file_qualifies_on_unix() {
    let e = PathEntry {
        file_name: "tool.bin".to_string(),
        path: "/opt/extra/tool.bin".to_string(),
        is_file: true,
        is_dir: false,
        mode: 0o755,
    };
    let app = scan_path_entry(Platform::Linux, &e).unwrap();
    assert_eq!(app.name, "tool");
    assert!(app.icon.is_none());
}

#[test]
fn non_executable_file_is_skipped_on_unix() {
    let e = PathEntry {
        file_name: "notes.txt".to_string(),
        path: "/opt/extra/notes.txt".to_string(),
        is_file: true,
        is_dir: false,
        mode: 0o644,
    };
    assert!(scan_path_entry(Platform::Linux, &e).is_none());
}

#[test]
fn bundle_directory_qualifies_as_path_entry() {
    let e = PathEntry {
        file_name: "Tool.app".to_string(),
        path: "/opt/extra/Tool.app".to_string(),
        is_file: false,
        is_dir: true,
        mode: 0o755,
    };
    let app = scan_path_entry(Platform::MacOs, &e).unwrap();
    assert_eq!(app.name, "Tool");
}

#[test]
fn exe_extension_qualifies_on_windows() {
    let e = PathEntry {
        file_name: "setup.exe".to_string(),
        path: "C:\\Program Files\\setup.exe".to_string(),
        is_file: true,
        is_dir: false,
        mode: 0,
    };
    let app = scan_path_entry(Platform::Windows, &e).unwrap();
    assert_eq!(app.name, "setup");
    let other = PathEntry {
        file_name: "setup.msi".to_string(),
        path: "C:\\Program Files\\setup.msi".to_string(),
        is_file: true,
        is_dir: false,
        mode: 0,
    };
    assert!(scan_path_entry(Platform::Windows, &other).is_none());
}

#[test]
fn build_concatenates_all_roots() {
    let roots = vec![
        RootListing::Bundles(vec![bundle("Safari.app", None), bundle("skip-me", None)]),
        RootListing::DesktopFiles(vec![
            desktop_file("firefox.desktop", "Firefox"),
            DesktopFile {
                file_name: "hidden.desktop".to_string(),
                content: "[Desktop Entry]\nName=Hidden\nExec=/bin/x\nNoDisplay=true\n".to_string(),
                icon_dir: None,
            },
        ]),
        RootListing::PathEntries(
            Platform::Linux,
            vec![PathEntry {
                file_name: "tool".to_string(),
                path: "/opt/extra/tool".to_string(),
                is_file: true,
                is_dir: false,
                mode: 0o700,
            }],
        ),
    ];
    let index = build_index(&roots, false);
    let names: Vec<&str> = index.iter().map(|a| a.name.as_str()).collect();
    assert_eq!(names, vec!["Safari", "Firefox", "tool"]);
}

fn fields(a: &App) -> (String, String, String, bool) {
    (
        a.name.clone(),
        a.name_lc.clone(),
        a.desc.clone(),
        a.icon.is_some(),
    )
}

#[test]
fn build_twice_on_unchanged_snapshot_is_set_equal() {
    let make_roots = || {
        vec![
            RootListing::Bundles(vec![
                bundle("Mail.app", Some(("AppIcon.icns", solid_container(16, [3, 3, 3, 9])))),
                bundle("Safari.app", None),
            ]),
            RootListing::DesktopFiles(vec![desktop_file("firefox.desktop", "Firefox")]),
        ]
    };
    let first = build_index(&make_roots(), true);
    let second = build_index(&make_roots(), true);
    assert_eq!(first.len(), second.len());
    assert!(first.iter().zip(second.iter()).all(|(x, y)| x == y));
    let mut a: Vec<_> = first.iter().map(fields).collect();
    let mut b: Vec<_> = second.iter().map(fields).collect();
    a.sort();
    b.sort();
    assert_eq!(a, b);
}

#[test]
fn icons_stay_absent_when_store_icons_is_off() {
    let roots = vec![RootListing::Bundles(vec![bundle(
        "Mail.app",
        Some(("AppIcon.icns", solid_container(16, [3, 3, 3, 9]))),
    )])];
    let index = build_index(&roots, false);
    assert_eq!(index.len(), 1);
    assert!(index.iter().all(|a| a.icon.is_none()));
}

#[test]
fn scan_root_skips_unqualifying_entries_without_failing() {
    let root = RootListing::DesktopFiles(vec![
        DesktopFile {
            file_name: "broken.desktop".to_string(),
            content: "[Desktop Entry]\nName=NoCommand\n".to_string(),
            icon_dir: None,
        },
        DesktopFile {
            file_name: "README".to_string(),
            content: "not a desktop entry".to_string(),
            icon_dir: None,
        },
        desktop_file("good.desktop", "Good"),
    ]);
    let apps = scan_root(&root, false);
    let names: Vec<&str> = apps.iter().map(|a| a.name.as_str()).collect();
    assert_eq!(names, vec!["Good"]);
}

#[test]
fn aggregate_concatenates_in_order() {
    let part1 = scan_root(
        &RootListing::Bundles(vec![bundle("Safari.app", None)]),
        false,
    );
    let part2 = scan_root(
        &RootListing::DesktopFiles(vec![desktop_file("firefox.desktop", "Firefox")]),
        false,
    );
    let all = aggregate(vec![part1, part2]);
    let names: Vec<&str> = all.iter().map(|a| a.name.as_str()).collect();
    assert_eq!(names, vec!["Safari", "Firefox"]);
}

#[test]
fn default_paths_are_fixed_per_platform() {
    assert_eq!(
        default_app_paths(Platform::MacOs),
        vec![
            "/Applications".to_string(),
            "/System/Applications".to_string(),
            "/System/Applications/Utilities".to_string(),
        ]
    );
    assert_eq!(default_app_paths(Platform::Linux).len(), 3);
    assert_eq!(default_app_paths(Platform::Windows).len(), 2);
}

#[test]
fn wildcard_detection_drives_glob_expansion() {
    assert!(has_wildcard("/home/*/.local/share/applications"));
    assert!(!has_wildcard("/usr/share/applications"));
}
