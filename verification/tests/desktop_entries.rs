//! The desktop-entry scanner over real key-file text.

use rustcast::entry::{AppCommand, Function};
use rustcast::desktop::scan_desktop_file;
use rustcast::resolver::{NamedFile, ResourceDir};

fn entry(body: &str) -> String {
    format!("[Desktop Entry]\n{}", body)
}

#[test]
fn qualifying_entry_becomes_a_record() {
    let content = entry("Name=Firefox\nComment=Web Browser\nExec=/usr/bin/firefox %u\n");
    let app = scan_desktop_file("firefox.desktop", &content, false, None).unwrap();
    assert_eq!(app.name, "Firefox");
    assert_eq!(app.name_lc, "firefox");
    assert_eq!(app.desc, "Web Browser");
    assert!(app.icon.is_none());
    match app.open_command {
        AppCommand::Function(Function::RunShellCommand(cmd, args)) => {
            assert_eq!(cmd, "/usr/bin/firefox");
            assert!(args.is_empty());
        }
        _ => panic!("expected a shell command"),
    }
}

#[test]
fn field_codes_are_discarded_but_real_arguments_kept() {
    let content = entry("Name=Editor\nExec=editor --new-window %F --verbose %u\n");
    let app = scan_desktop_file("editor.desktop", &content, false, None).unwrap();
    match app.open_command {
        AppCommand::Function(Function::RunShellCommand(cmd, args)) => {
            assert_eq!(cmd, "editor");
            assert_eq!(args, vec!["--new-window".to_string(), "--verbose".to_string()]);
        }
        _ => panic!("expected a shell command"),
    }
}

#[test]
fn no_display_entry_is_absent() {
    let content = entry("Name=Hidden App\nExec=/bin/x\nNoDisplay=true\n");
    assert!(scan_desktop_file("hidden.desktop", &content, false, None).is_none());
}

#[test]
fn hidden_entry_is_absent() {
    let content = entry("Name=Gone\nExec=/bin/x\nHidden=true\n");
    assert!(scan_desktop_file("gone.desktop", &content, false, None).is_none());
}

#[test]
fn no_display_false_is_kept() {
    let content = entry("Name=Shown\nExec=/bin/x\nNoDisplay=false\n");
    assert!(scan_desktop_file("shown.desktop", &content, false, None).is_some());
}

#[test]
fn entry_without_name_is_skipped() {
    let content = entry("Exec=/bin/x\n");
    assert!(scan_desktop_file("a.desktop", &content, false, None).is_none());
}

#[test]
fn entry_without_exec_is_skipped() {
    let content = entry("Name=NoCommand\n");
    assert!(scan_desktop_file("a.desktop", &content, false, None).is_none());
}

#[test]
fn entry_whose_command_is_only_field_codes_is_skipped() {
    let content = entry("Name=Odd\nExec=%u %F\n");
    assert!(scan_desktop_file("odd.desktop", &content, false, None).is_none());
}

#[test]
fn missing_comment_defaults_to_empty() {
    let content = entry("Name=Plain\nExec=/bin/x\n");
    let app = scan_desktop_file("plain.desktop", &content, false, None).unwrap();
    assert_eq!(app.desc, "");
}

#[test]
fn wrong_extension_is_skipped() {
    let content = entry("Name=NotAnEntry\nExec=/bin/x\n");
    assert!(scan_desktop_file("notes.txt", &content, false, None).is_none());
}

fn solid_container(size: u32, pixel: [u8; 4]) -> Vec<u8> {
    let mut data = Vec::new();
    for _ in 0..(size * size) {
        data.extend_from_slice(&pixel);
    }
    let image = icns::Image::from_data(icns::PixelFormat::RGBA, size, size, data).unwrap();
    let mut family = icns::IconFamily::new();
    family.add_icon(&image).unwrap();
    let mut out = Vec::new();
    family.write(&mut out).unwrap();
    out
}

#[test]
fn declared_icon_feeds_resolution_when_storing_icons() {
    let content = entry("Name=Painted\nExec=/bin/x\nIcon=painted\n");
    let icon_dir = ResourceDir {
        files: vec![NamedFile {
            name: "painted.icns".to_string(),
            data: solid_container(16, [5, 5, 5, 255]),
        }],
    };
    let app = scan_desktop_file("painted.desktop", &content, true, Some(&icon_dir)).unwrap();
    let img = app.icon.unwrap();
    assert_eq!((img.width, img.height), (16, 16));
    assert_eq!(&img.data[0..4], &[5, 5, 5, 255]);
}

#[test]
fn store_icons_off_keeps_icon_absent_even_with_icon_dir() {
    let content = entry("Name=Painted\nExec=/bin/x\nIcon=painted\n");
    let icon_dir = ResourceDir {
        files: vec![NamedFile {
            name: "painted.icns".to_string(),
            data: solid_container(16, [5, 5, 5, 255]),
        }],
    };
    let app = scan_desktop_file("painted.desktop", &content, false, Some(&icon_dir)).unwrap();
    assert!(app.icon.is_none());
}
