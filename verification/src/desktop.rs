//! The desktop-entry scanner: one key-file describes one launchable
//! application.
//!
//! The key-file text is parsed by the `freedesktop-desktop-entry` crate
//! behind trusted wrappers; this module owns the skipping rules (hidden
//! and no-display entries, missing required fields), the tokenization of
//! the command line, and the discarding of substitution field codes.

use vstd::prelude::*;

use crate::entry::{
    lower_of, opt_app_view, App, AppCommand, AppCommandV, AppV, Function, FunctionV,
};
use crate::resolver::{resolve_icon, spec_resolve, FileV, ResourceDir};
use crate::text::{
    drop_field_codes, ends_with, spec_drop_field_codes, spec_ends_with, spec_split_ws, split_ws,
    views_of,
};

verus! {

#[verifier::external_type_specification]
#[verifier::external_body]
pub struct ExDesktopEntry(freedesktop_desktop_entry::DesktopEntry);

/// A parsed desktop-entry key file, keeping the text it was parsed from,
/// so that everything later read out of it is pinned to that text.
pub struct ParsedEntry {
    de: freedesktop_desktop_entry::DesktopEntry,
    src: String,
}

impl ParsedEntry {
    /// The key-file text this value was parsed from.
    pub closed spec fn src(&self) -> Seq<char> {
        self.src@
    }
}

/// Whether `DesktopEntry::from_str` accepts the text as a key file.
pub uninterp spec fn de_parses(content: Seq<char>) -> bool;

/// Whether the entry flags itself as not to be displayed.
pub uninterp spec fn de_no_display(content: Seq<char>) -> bool;

/// Whether the entry flags itself as hidden.
pub uninterp spec fn de_hidden(content: Seq<char>) -> bool;

/// The raw value of a key in the entry's main section, if present.
pub uninterp spec fn de_attr(content: Seq<char>, key: Seq<char>) -> Option<Seq<char>>;

/// The entry's executable command line, if present.
pub uninterp spec fn de_exec(content: Seq<char>) -> Option<Seq<char>>;

/// The entry's declared icon name, if present.
pub uninterp spec fn de_icon(content: Seq<char>) -> Option<Seq<char>>;

/// Relies on `freedesktop_desktop_entry::DesktopEntry::from_str`:
/// whether key-file text parses is a function of the text alone.  The
/// path argument only seeds the entry id, which this library never
/// reads; a fixed name is passed.
#[verifier::external_body]
fn parse_entry(content: &String) -> (r: Option<ParsedEntry>)
    ensures
        r is Some <==> de_parses(content@),
        r is Some ==> r->Some_0.src() == content@,
{
    let path = std::path::Path::new("entry.desktop");
    match freedesktop_desktop_entry::DesktopEntry::from_str(path, content.as_str(), None::<&[&str]>) {
        Ok(de) => Some(ParsedEntry { de, src: content.clone() }),
        Err(_) => None,
    }
}

/// Relies on `DesktopEntry::no_display`: true exactly when the main
/// section sets the no-display key to true.
#[verifier::external_body]
fn entry_no_display(e: &ParsedEntry) -> (r: bool)
    ensures
        r == de_no_display(e.src()),
{
    e.de.no_display()
}

/// Relies on `DesktopEntry::hidden`: true exactly when the main section
/// sets the hidden key to true.
#[verifier::external_body]
fn entry_hidden(e: &ParsedEntry) -> (r: bool)
    ensures
        r == de_hidden(e.src()),
{
    e.de.hidden()
}

/// Relies on `DesktopEntry::desktop_entry`: the raw, unlocalized value
/// of a key in the main section.
#[verifier::external_body]
fn entry_attr(e: &ParsedEntry, key: &str) -> (r: Option<String>)
    ensures
        (match r {
            Some(s) => Some(s@),
            None => None::<Seq<char>>,
        }) == de_attr(e.src(), key@),
{
    e.de.desktop_entry(key).map(str::to_owned)
}

/// Relies on `DesktopEntry::exec`: the entry's command line.
#[verifier::external_body]
fn entry_exec(e: &ParsedEntry) -> (r: Option<String>)
    ensures
        (match r {
            Some(s) => Some(s@),
            None => None::<Seq<char>>,
        }) == de_exec(e.src()),
{
    e.de.exec().map(str::to_owned)
}

/// Relies on `DesktopEntry::icon`: the entry's declared icon name.
#[verifier::external_body]
fn entry_icon(e: &ParsedEntry) -> (r: Option<String>)
    ensures
        (match r {
            Some(s) => Some(s@),
            None => None::<Seq<char>>,
        }) == de_icon(e.src()),
{
    e.de.icon().map(str::to_owned)
}

/// What scanning one desktop-entry file yields: nothing for files without
/// the right extension, unparsable files, entries flagged hidden or
/// no-display, and entries missing a name or a command; otherwise one
/// record whose command is the tokenized command line with field codes
/// discarded.
pub open spec fn spec_scan_desktop_file(
    file_name: Seq<char>,
    content: Seq<char>,
    store_icons: bool,
    icon_dir: Option<Seq<FileV>>,
) -> Option<AppV> {
    if !spec_ends_with(file_name, ".desktop"@) {
        None
    } else if !de_parses(content) {
        None
    } else if de_no_display(content) || de_hidden(content) {
        None
    } else {
        match (de_attr(content, "Name"@), de_exec(content)) {
            (Some(name), Some(exec)) => {
                let toks = spec_drop_field_codes(spec_split_ws(exec));
                if toks.len() == 0 {
                    None
                } else {
                    let desc = match de_attr(content, "Comment"@) {
                        Some(c) => c,
                        None => Seq::<char>::empty(),
                    };
                    let icon = match (icon_dir, de_icon(content)) {
                        (Some(files), Some(n)) => spec_resolve(store_icons, Some(n), None, files),
                        _ => None,
                    };
                    Some(
                        AppV {
                            open_command: AppCommandV::Function(
                                FunctionV::RunShellCommand(toks[0], toks.drop_first()),
                            ),
                            desc,
                            icon,
                            name,
                            name_lc: lower_of(name),
                        },
                    )
                }
            },
            _ => None,
        }
    }
}

/// Scans one desktop-entry file, given its name, its text, and — when
/// icon storage is on — a snapshot of the directory in which its declared
/// icon may live.
pub fn scan_desktop_file(
    file_name: &str,
    content: &String,
    store_icons: bool,
    icon_dir: Option<&ResourceDir>,
) -> (r: Option<App>)
    ensures
        opt_app_view(r) == spec_scan_desktop_file(
            file_name@,
            content@,
            store_icons,
            match icon_dir {
                Some(d) => Some(d@),
                None => None::<Seq<FileV>>,
            },
        ),
        r is Some ==> r->Some_0.wf(),
{
    if !ends_with(file_name, ".desktop") {
        return None;
    }
    let e = match parse_entry(content) {
        Some(e) => e,
        None => {
            return None;
        },
    };
    if entry_no_display(&e) || entry_hidden(&e) {
        return None;
    }
    let name = match entry_attr(&e, "Name") {
        Some(n) => n,
        None => {
            return None;
        },
    };
    let exec_line = match entry_exec(&e) {
        Some(x) => x,
        None => {
            return None;
        },
    };
    let mut toks = drop_field_codes(split_ws(exec_line.as_str()));
    if toks.len() == 0 {
        return None;
    }
    let ghost tv = spec_drop_field_codes(spec_split_ws(exec_line@));
    let cmd = toks.remove(0);
    proof {
        assert(views_of(toks@) =~= tv.drop_first());
    }
    let desc = match entry_attr(&e, "Comment") {
        Some(c) => c,
        None => String::new(),
    };
    let icon = match (icon_dir, entry_icon(&e)) {
        (Some(d), Some(n)) => resolve_icon(store_icons, Some(&n), None, d),
        _ => None,
    };
    let app = App::new(
        name,
        desc,
        icon,
        AppCommand::Function(Function::RunShellCommand(cmd, toks)),
    );
    Some(app)
}

} // verus!
