//! Locating the most likely icon for an application and decoding it.
//!
//! The caller hands in a snapshot of the application's resource
//! subdirectory (file names and contents) and, where present, the raw
//! text of its metadata file; resolution itself is pure.  Three tiers are
//! tried, each only if the previous produced nothing: the declared icon
//! name, a name scanned out of the metadata file, and a conservative
//! directory fallback.

use vstd::prelude::*;

use crate::entry::{RasterImage, RasterV};
use crate::icon::{decode, decode_result_view, spec_decode, DecodeError};
use crate::text::{
    ends_with, spec_ends_with, spec_split, spec_starts_with, spec_trim, split_char, starts_with,
    trim, views_of,
};

verus! {

/// One file of a resource-directory snapshot: its name and its contents.
pub struct NamedFile {
    pub name: String,
    pub data: Vec<u8>,
}

/// Spec-level value of a snapshot file: name and contents.
pub type FileV = (Seq<char>, Seq<u8>);

impl View for NamedFile {
    type V = FileV;

    open spec fn view(&self) -> FileV {
        (self.name@, self.data@)
    }
}

/// A snapshot of the files in an application's resource subdirectory.
pub struct ResourceDir {
    pub files: Vec<NamedFile>,
}

impl View for ResourceDir {
    type V = Seq<FileV>;

    open spec fn view(&self) -> Seq<FileV> {
        self.files@.map_values(|f: NamedFile| f@)
    }
}

/// The value of an optional image, for stating contracts.
pub open spec fn opt_image_view(r: Option<RasterImage>) -> Option<RasterV> {
    match r {
        Some(img) => Some(img@),
        None => None,
    }
}

/// The marker line whose following line carries the declared icon name.
pub open spec fn plist_key_marker() -> Seq<char> {
    "<key>CFBundleIconFile</key>"@
}

/// The line-scanning state after reading a prefix of the metadata lines:
/// whether the next line is to be captured, and the first captured line.
pub open spec fn plist_scan(lines: Seq<Seq<char>>) -> (bool, Option<Seq<char>>)
    decreases lines.len(),
{
    if lines.len() == 0 {
        (false, None::<Seq<char>>)
    } else {
        let st = plist_scan(lines.drop_last());
        let line = lines.last();
        if st.1 is Some {
            st
        } else if st.0 {
            (false, Some(line))
        } else {
            (spec_trim(line) == plist_key_marker(), None::<Seq<char>>)
        }
    }
}

/// Stripping the value's tag wrapper; a value not wrapped as expected
/// yields the empty name.
pub open spec fn spec_strip_wrap(t: Seq<char>) -> Seq<char> {
    let p = "<string>"@;
    let q = "</string>"@;
    if spec_starts_with(t, p) {
        let rest = t.skip(p.len() as int);
        if spec_ends_with(rest, q) {
            rest.take(rest.len() - q.len())
        } else {
            Seq::<char>::empty()
        }
    } else {
        Seq::<char>::empty()
    }
}

/// The icon name declared in a property-list metadata file: the line
/// following the first key-marker line, trimmed and unwrapped.
pub open spec fn spec_plist_icon_name(s: Seq<char>) -> Option<Seq<char>> {
    match plist_scan(spec_split(s, '\n')).1 {
        None => None,
        Some(line) => Some(spec_strip_wrap(spec_trim(line))),
    }
}

fn strip_wrap(t: &str) -> (r: String)
    ensures
        r@ == spec_strip_wrap(t@),
{
    let p = "<string>";
    let q = "</string>";
    if starts_with(t, p) {
        let pl: usize = p.unicode_len();
        let tl: usize = t.unicode_len();
        let rest = t.substring_char(pl, tl);
        proof {
            assert(rest@ =~= t@.skip(pl as int));
        }
        if ends_with(rest, q) {
            let ql: usize = q.unicode_len();
            let rl: usize = rest.unicode_len();
            let mid = rest.substring_char(0, rl - ql);
            proof {
                assert(mid@ =~= rest@.take(rest@.len() - q@.len()));
            }
            mid.to_owned()
        } else {
            String::new()
        }
    } else {
        String::new()
    }
}

/// Scans property-list text line by line for the icon-name key and
/// captures the value on the following line.
pub fn plist_icon_name(content: &str) -> (r: Option<String>)
    ensures
        (match r {
            Some(s) => Some(s@),
            None => None::<Seq<char>>,
        }) == spec_plist_icon_name(content@),
{
    let lines = split_char(content, '\n');
    let ghost lv = views_of(lines@);
    let mut expect: bool = false;
    let mut i: usize = 0;
    proof {
        assert(lv.subrange(0, 0) =~= Seq::<Seq<char>>::empty());
    }
    while i < lines.len()
        invariant
            i <= lines@.len(),
            lv == views_of(lines@),
            lv == spec_split(content@, '\n'),
            plist_scan(lv.subrange(0, i as int)) == (expect, None::<Seq<char>>),
        decreases lines@.len() - i,
    {
        let line = &lines[i];
        proof {
            assert(lv.subrange(0, i as int + 1).drop_last() =~= lv.subrange(0, i as int));
            assert(lv.subrange(0, i as int + 1).last() == lines@[i as int]@);
        }
        let t = trim(line.as_str());
        if expect {
            let name = strip_wrap(t.as_str());
            proof {
                let pre = lv.subrange(0, i as int);
                let cur = lv.subrange(0, i as int + 1);
                assert(cur.drop_last() =~= pre);
                assert(cur.last() == lines@[i as int]@);
                assert(plist_scan(pre) == (true, None::<Seq<char>>));
                assert(plist_scan(cur) == (false, Some(lines@[i as int]@)));
                lemma_plist_scan_found(lv, i as int + 1, lines@[i as int]@);
                assert(plist_scan(lv).1 == Some(lines@[i as int]@));
                assert(t@ == spec_trim(lines@[i as int]@));
                assert(name@ == spec_strip_wrap(spec_trim(lines@[i as int]@)));
                assert(lv == spec_split(content@, '\n'));
            }
            return Some(name);
        }
        let marker = "<key>CFBundleIconFile</key>".to_owned();
        expect = t == marker;
        i += 1;
    }
    proof {
        assert(lv.subrange(0, lv.len() as int) =~= lv);
    }
    None
}

/// Once a line is captured, scanning further lines does not change the
/// captured line.
proof fn lemma_plist_scan_found(lines: Seq<Seq<char>>, i: int, captured: Seq<char>)
    requires
        0 < i <= lines.len(),
        plist_scan(lines.subrange(0, i)).1 == Some(captured),
    ensures
        plist_scan(lines).1 == Some(captured),
    decreases lines.len() - i,
{
    if i == lines.len() {
        assert(lines.subrange(0, i) =~= lines);
    } else {
        assert(lines.subrange(0, i + 1).drop_last() =~= lines.subrange(0, i));
        lemma_plist_scan_found(lines, i + 1, captured);
    }
}

/// The first file of the snapshot with the given name, if any.
pub open spec fn find_file(files: Seq<FileV>, name: Seq<char>) -> Option<Seq<u8>>
    decreases files.len(),
{
    if files.len() == 0 {
        None
    } else if files[0].0 == name {
        Some(files[0].1)
    } else {
        find_file(files.drop_first(), name)
    }
}

proof fn lemma_find_file_skip(files: Seq<FileV>, name: Seq<char>, i: int)
    requires
        0 <= i <= files.len(),
        forall|j: int| 0 <= j < i ==> files[j].0 != name,
    ensures
        find_file(files, name) == find_file(files.skip(i), name),
    decreases i,
{
    if i > 0 {
        lemma_find_file_skip(files, name, i - 1);
        assert(files.skip(i - 1).drop_first() =~= files.skip(i));
        assert(files.skip(i - 1)[0] == files[i - 1]);
    } else {
        assert(files.skip(0) =~= files);
    }
}

fn lookup_file<'a>(dir: &'a ResourceDir, name: &String) -> (r: Option<&'a Vec<u8>>)
    ensures
        (match r {
            Some(d) => Some(d@),
            None => None::<Seq<u8>>,
        }) == find_file(dir@, name@),
{
    let mut i: usize = 0;
    while i < dir.files.len()
        invariant
            i <= dir.files@.len(),
            dir@ == dir.files@.map_values(|f: NamedFile| f@),
            forall|j: int| 0 <= j < i ==> dir@[j].0 != name@,
        decreases dir.files@.len() - i,
    {
        proof {
            assert(dir@[i as int] == dir.files@[i as int]@);
        }
        if dir.files[i].name == *name {
            proof {
                lemma_find_file_skip(dir@, name@, i as int);
                assert(dir@.skip(i as int)[0] == dir@[i as int]);
            }
            return Some(&dir.files[i].data);
        }
        i += 1;
    }
    proof {
        lemma_find_file_skip(dir@, name@, dir@.len() as int);
        assert(dir@.skip(dir@.len() as int) =~= Seq::<FileV>::empty());
    }
    None
}

/// The conventional icon-container file extension.
pub open spec fn icon_ext() -> Seq<char> {
    ".icns"@
}

/// The platform's canonical default icon file name.
pub open spec fn default_icon_file() -> Seq<char> {
    "AppIcon.icns"@
}

/// A name with the conventional icon extension appended if missing.
pub open spec fn spec_with_ext(n: Seq<char>) -> Seq<char> {
    if spec_ends_with(n, icon_ext()) {
        n
    } else {
        n + icon_ext()
    }
}

fn with_ext(n: &String) -> (r: String)
    ensures
        r@ == spec_with_ext(n@),
{
    if ends_with(n.as_str(), ".icns") {
        n.clone()
    } else {
        n.clone().concat(".icns")
    }
}

/// A successfully decoded container, or nothing; a decode error is
/// "no icon", never a failure.
pub open spec fn decode_opt(data: Seq<u8>) -> Option<RasterV> {
    match spec_decode(data) {
        Ok(img) => Some(img),
        Err(_) => None,
    }
}

/// Decoding the named file of the snapshot, extension appended if
/// missing; nothing when the file is absent or does not decode.
pub open spec fn try_name(files: Seq<FileV>, n: Seq<char>) -> Option<RasterV> {
    match find_file(files, spec_with_ext(n)) {
        Some(d) => decode_opt(d),
        None => None,
    }
}

fn try_name_exec(dir: &ResourceDir, n: &String) -> (r: Option<RasterImage>)
    ensures
        opt_image_view(r) == try_name(dir@, n@),
        r is Some ==> r->Some_0.wf(),
{
    let full = with_ext(n);
    match lookup_file(dir, &full) {
        Some(data) => match decode(data) {
            Ok(img) => Some(img),
            Err(_) => None,
        },
        None => None,
    }
}

/// How many snapshot files carry the icon-container extension.
pub open spec fn count_icns(files: Seq<FileV>) -> nat
    decreases files.len(),
{
    if files.len() == 0 {
        0
    } else {
        (if spec_ends_with(files[0].0, icon_ext()) {
            1nat
        } else {
            0nat
        }) + count_icns(files.drop_first())
    }
}

/// The first snapshot file carrying the icon-container extension.
pub open spec fn first_icns(files: Seq<FileV>) -> Option<FileV>
    decreases files.len(),
{
    if files.len() == 0 {
        None
    } else if spec_ends_with(files[0].0, icon_ext()) {
        Some(files[0])
    } else {
        first_icns(files.drop_first())
    }
}

/// The directory-fallback tier: exactly one candidate decodes; among
/// several, only a candidate bearing the canonical default name is tried;
/// ambiguity without a canonical match conservatively yields no icon.
pub open spec fn spec_tier3(files: Seq<FileV>) -> Option<RasterV> {
    let n = count_icns(files);
    if n == 1 {
        match first_icns(files) {
            Some(f) => decode_opt(f.1),
            None => None,
        }
    } else if n > 1 {
        match find_file(files, default_icon_file()) {
            Some(d) => decode_opt(d),
            None => None,
        }
    } else {
        None
    }
}

proof fn lemma_count_icns_skip_unfold(files: Seq<FileV>, i: int)
    requires
        0 <= i < files.len(),
    ensures
        count_icns(files.skip(i)) == (if spec_ends_with(files[i].0, icon_ext()) {
            1nat
        } else {
            0nat
        }) + count_icns(files.skip(i + 1)),
        first_icns(files.skip(i)) == (if spec_ends_with(files[i].0, icon_ext()) {
            Some(files[i])
        } else {
            first_icns(files.skip(i + 1))
        }),
{
    assert(files.skip(i)[0] == files[i]);
    assert(files.skip(i).drop_first() =~= files.skip(i + 1));
}

fn tier3_exec(dir: &ResourceDir) -> (r: Option<RasterImage>)
    ensures
        opt_image_view(r) == spec_tier3(dir@),
        r is Some ==> r->Some_0.wf(),
{
    let ghost v = dir@;
    let mut count: usize = 0;
    let mut first_idx: usize = 0;
    let mut i: usize = 0;
    proof {
        assert(v.skip(0) =~= v);
    }
    while i < dir.files.len()
        invariant
            i <= dir.files@.len(),
            v == dir@,
            dir@ == dir.files@.map_values(|f: NamedFile| f@),
            count + count_icns(v.skip(i as int)) == count_icns(v),
            count as int <= i as int,
            count > 0 ==> first_idx < i && first_icns(v) == Some(v[first_idx as int]),
            count == 0 ==> first_icns(v) == first_icns(v.skip(i as int)),
        decreases dir.files@.len() - i,
    {
        proof {
            assert(v[i as int] == dir.files@[i as int]@);
            lemma_count_icns_skip_unfold(v, i as int);
        }
        if ends_with(dir.files[i].name.as_str(), ".icns") {
            if count == 0 {
                first_idx = i;
            }
            count += 1;
        }
        i += 1;
    }
    proof {
        assert(v.skip(v.len() as int) =~= Seq::<FileV>::empty());
    }
    if count == 1 {
        proof {
            assert(v[first_idx as int] == dir.files@[first_idx as int]@);
        }
        match decode(&dir.files[first_idx].data) {
            Ok(img) => Some(img),
            Err(_) => None,
        }
    } else if count > 1 {
        let canonical = "AppIcon.icns".to_owned();
        match lookup_file(dir, &canonical) {
            Some(data) => match decode(data) {
                Ok(img) => Some(img),
                Err(_) => None,
            },
            None => None,
        }
    } else {
        None
    }
}

/// What icon resolution yields: nothing when icon storage is off, else
/// the first tier that produces an image, else nothing.
pub open spec fn spec_resolve(
    store_icons: bool,
    declared: Option<Seq<char>>,
    metadata: Option<Seq<char>>,
    files: Seq<FileV>,
) -> Option<RasterV> {
    if !store_icons {
        None
    } else {
        let t1 = match declared {
            Some(n) => try_name(files, n),
            None => None,
        };
        if t1 is Some {
            t1
        } else {
            let t2 = match metadata {
                Some(m) => match spec_plist_icon_name(m) {
                    Some(n) => try_name(files, n),
                    None => None,
                },
                None => None,
            };
            if t2 is Some {
                t2
            } else {
                spec_tier3(files)
            }
        }
    }
}

/// Resolves an application's icon from a snapshot of its resource
/// subdirectory, a declared icon name if one is known, and the raw
/// metadata text if present.  When `store_icons` is off, nothing is
/// resolved at all.
pub fn resolve_icon(
    store_icons: bool,
    declared: Option<&String>,
    metadata: Option<&String>,
    dir: &ResourceDir,
) -> (r: Option<RasterImage>)
    ensures
        opt_image_view(r) == spec_resolve(
            store_icons,
            match declared {
                Some(s) => Some(s@),
                None => None::<Seq<char>>,
            },
            match metadata {
                Some(s) => Some(s@),
                None => None::<Seq<char>>,
            },
            dir@,
        ),
        r is Some ==> r->Some_0.wf(),
{
    if !store_icons {
        return None;
    }
    if let Some(n) = declared {
        let t1 = try_name_exec(dir, n);
        if t1.is_some() {
            return t1;
        }
    }
    if let Some(m) = metadata {
        if let Some(n) = plist_icon_name(m.as_str()) {
            let t2 = try_name_exec(dir, &n);
            if t2.is_some() {
                return t2;
            }
        }
    }
    tier3_exec(dir)
}

} // verus!
