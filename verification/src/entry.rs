//! The canonical, platform-independent record produced for every
//! discovered application, together with the action it triggers and the
//! raster image type used for icons.

use vstd::prelude::*;

use crate::text::views_of;

verus! {

/// What a record does when it is activated.
#[derive(Clone)]
pub enum Function {
    /// Open the application installed at this path.
    OpenApp(String),
    /// Run a program with the given arguments.
    RunShellCommand(String, Vec<String>),
    /// A stored value handed to the dispatcher as it stands.
    RandomVar(i32),
    /// Search the web for this query.
    GoogleSearch(String),
    /// Open the preferences file.
    OpenPrefPane,
    /// Quit the launcher.
    Quit,
}

/// Spec-level mirror of [`Function`].
pub enum FunctionV {
    OpenApp(Seq<char>),
    RunShellCommand(Seq<char>, Seq<Seq<char>>),
    RandomVar(i32),
    GoogleSearch(Seq<char>),
    OpenPrefPane,
    Quit,
}

impl View for Function {
    type V = FunctionV;

    open spec fn view(&self) -> FunctionV {
        match self {
            Function::OpenApp(p) => FunctionV::OpenApp(p@),
            Function::RunShellCommand(cmd, args) => FunctionV::RunShellCommand(
                cmd@,
                views_of(args@),
            ),
            Function::RandomVar(v) => FunctionV::RandomVar(*v),
            Function::GoogleSearch(q) => FunctionV::GoogleSearch(q@),
            Function::OpenPrefPane => FunctionV::OpenPrefPane,
            Function::Quit => FunctionV::Quit,
        }
    }
}

/// What happens when a record is activated: run a function, emit an
/// application event, or nothing (the record is display-only).
#[derive(Clone)]
pub enum AppCommand {
    Function(Function),
    /// An application event, named by its identifier; the excluded
    /// dispatch layer interprets it.
    Message(u64),
    /// Display-only: the record must not be runnable.
    Display,
}

/// Spec-level mirror of [`AppCommand`].
pub enum AppCommandV {
    Function(FunctionV),
    Message(u64),
    Display,
}

impl View for AppCommand {
    type V = AppCommandV;

    open spec fn view(&self) -> AppCommandV {
        match self {
            AppCommand::Function(f) => AppCommandV::Function(f@),
            AppCommand::Message(m) => AppCommandV::Message(*m),
            AppCommand::Display => AppCommandV::Display,
        }
    }
}

/// A tightly packed, row-major RGBA raster image.
///
/// Invariant: the buffer holds exactly `width * height * 4` bytes.
#[derive(Clone)]
pub struct RasterImage {
    pub width: u32,
    pub height: u32,
    pub data: Vec<u8>,
}

/// Spec-level value of a raster image: width, height, and pixel bytes.
pub type RasterV = (u32, u32, Seq<u8>);

impl View for RasterImage {
    type V = RasterV;

    open spec fn view(&self) -> RasterV {
        (self.width, self.height, self.data@)
    }
}

/// The packing invariant every emitted image satisfies.
pub open spec fn raster_wf(v: RasterV) -> bool {
    v.2.len() == v.0 as int * v.1 as int * 4
}

impl RasterImage {
    pub open spec fn wf(&self) -> bool {
        raster_wf(self@)
    }

    /// Builds an image after checking that the buffer length is consistent
    /// with the claimed dimensions.
    pub fn new(width: u32, height: u32, data: Vec<u8>) -> (r: Option<RasterImage>)
        ensures
            r is Some <==> data@.len() == width as int * height as int * 4,
            r is Some ==> r->Some_0.wf() && r->Some_0@ == (width, height, data@),
    {
        let w: u128 = width as u128;
        let h: u128 = height as u128;
        proof {
            assert(w * h * 4 <= 0xffff_ffffu128 * 0xffff_ffffu128 * 4) by (nonlinear_arith)
                requires
                    w <= 0xffff_ffffu128,
                    h <= 0xffff_ffffu128,
            ;
        }
        let expected: u128 = w * h * 4;
        if (data.len() as u128) == expected {
            Some(RasterImage { width, height, data })
        } else {
            None
        }
    }
}

/// What `str::to_lowercase` returns; the result depends on the characters
/// alone.
pub uninterp spec fn lower_of(s: Seq<char>) -> Seq<char>;

/// Relies on `str::to_lowercase`: the Unicode lowercase form of the string,
/// a function of its characters alone.
#[verifier::external_body]
pub fn lowercase(s: &str) -> (r: String)
    ensures
        r@ == lower_of(s@),
{
    s.to_lowercase()
}

/// One searchable record: the normalized shape every scanner produces.
#[derive(Clone)]
pub struct App {
    /// What activating the record does.
    pub open_command: AppCommand,
    /// Secondary text shown under the name.
    pub desc: String,
    /// Decoded icon, or absent: absence is a valid, common state.
    pub icon: Option<RasterImage>,
    /// Human-readable name, as shown in results.
    pub name: String,
    /// Lowercased form of `name`, used for matching; derived once at
    /// creation and never recomputed.
    pub name_lc: String,
}

/// Spec-level mirror of [`App`].
pub struct AppV {
    pub open_command: AppCommandV,
    pub desc: Seq<char>,
    pub icon: Option<RasterV>,
    pub name: Seq<char>,
    pub name_lc: Seq<char>,
}

impl View for App {
    type V = AppV;

    open spec fn view(&self) -> AppV {
        AppV {
            open_command: self.open_command@,
            desc: self.desc@,
            icon: match self.icon {
                Some(img) => Some(img@),
                None => None,
            },
            name: self.name@,
            name_lc: self.name_lc@,
        }
    }
}

/// The value of an optional record, for stating contracts.
pub open spec fn opt_app_view(r: Option<App>) -> Option<AppV> {
    match r {
        Some(a) => Some(a@),
        None => None,
    }
}

/// The values of a sequence of records.
pub open spec fn apps_views(s: Seq<App>) -> Seq<AppV> {
    s.map_values(|a: App| a@)
}

pub proof fn lemma_apps_views_push(s: Seq<App>, a: App)
    ensures
        apps_views(s.push(a)) == apps_views(s).push(a@),
{
    assert(apps_views(s.push(a)) =~= apps_views(s).push(a@));
}

/// The record invariant: the search key is the lowercase form of the
/// display name, and an embedded icon is well formed.
pub open spec fn app_wf(a: AppV) -> bool {
    &&& a.name_lc == lower_of(a.name)
    &&& match a.icon {
        Some(img) => raster_wf(img),
        None => true,
    }
}

fn bytes_eq(a: &Vec<u8>, b: &Vec<u8>) -> (r: bool)
    ensures
        r == (a@ == b@),
{
    if a.len() != b.len() {
        return false;
    }
    let mut i: usize = 0;
    while i < a.len()
        invariant
            i <= a@.len(),
            a@.len() == b@.len(),
            forall|j: int| 0 <= j < i ==> a@[j] == b@[j],
        decreases a@.len() - i,
    {
        if a[i] != b[i] {
            return false;
        }
        i += 1;
    }
    proof {
        assert(a@ =~= b@);
    }
    true
}

/// Records are compared by their displayed fields and icon; what they do
/// when activated is deliberately left out of the comparison.
impl PartialEq for App {
    fn eq(&self, other: &Self) -> (r: bool) {
        let icons_match: bool = match (&self.icon, &other.icon) {
            (Some(a), Some(b)) => a.width == b.width && a.height == b.height && bytes_eq(
                &a.data,
                &b.data,
            ),
            (None, None) => true,
            _ => false,
        };
        icons_match && self.name_lc == other.name_lc && self.desc == other.desc && self.name
            == other.name
    }
}

impl vstd::std_specs::cmp::PartialEqSpecImpl for App {
    open spec fn obeys_eq_spec() -> bool {
        true
    }

    open spec fn eq_spec(&self, other: &Self) -> bool {
        &&& self.name_lc@ == other.name_lc@
        &&& self.desc@ == other.desc@
        &&& self.name@ == other.name@
        &&& match (self.icon, other.icon) {
            (Some(a), Some(b)) => a@ == b@,
            (None, None) => true,
            _ => false,
        }
    }
}

impl App {
    pub open spec fn wf(&self) -> bool {
        app_wf(self@)
    }

    /// Builds a record, deriving the search key from the display name.
    pub fn new(name: String, desc: String, icon: Option<RasterImage>, open_command: AppCommand) -> (r: App)
        requires
            match icon {
                Some(img) => img.wf(),
                None => true,
            },
        ensures
            r.wf(),
            r@.name == name@,
            r@.desc == desc@,
            r@.icon == (match icon {
                Some(img) => Some(img@),
                None => None::<RasterV>,
            }),
            r@.open_command == open_command@,
            r@.name_lc == lower_of(name@),
    {
        let name_lc = lowercase(name.as_str());
        App { open_command, desc, icon, name, name_lc }
    }
}

} // verus!
