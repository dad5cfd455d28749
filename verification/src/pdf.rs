//! Shared render context and the per-request render job: the immutable
//! catalog of sources, assets and fonts, template resolution by the final
//! path segment, and the lookup surface the external compiler consumes,
//! including the synthetic JSON input file and the current calendar time.
use vstd::prelude::*;

use chrono::{Datelike, Timelike};

use crate::assets::{
    assets_model_wf, has_asset_path, Assets, AssetsModel, BinaryAsset, FontRecord, SourceModel,
    TemplateSource,
};
use crate::error::AppError;
use crate::paths::{file_name_of, str_eq};

verus! {

/// The declared shape of `serde_json::Value`, so that values of it can run
/// through the library opaquely.
#[verifier::external_type_specification]
#[verifier::external_body]
pub struct ExValue(serde_json::Value);

/// The byte encoding `serde_json` produces for a JSON value. With the
/// default features, object keys are kept in sorted order, so the encoding
/// depends on the value alone.
pub uninterp spec fn json_bytes_of(v: serde_json::Value) -> Seq<u8>;

/// Relies on `serde_json::to_vec`: it serializes a `Value` to its JSON byte
/// encoding, a function of the value alone under the default features. For
/// a `Value` it cannot fail: writing to a vector raises no I/O error, every
/// object key is a string, and every number is finite.
#[verifier::external_body]
fn encode_payload(v: &serde_json::Value) -> (r: Option<Vec<u8>>)
    ensures
        r is Some,
        r matches Some(b) ==> b@ == json_bytes_of(*v),
{
    serde_json::to_vec(v).ok()
}

/// Shared compilation state used when rendering documents: the immutable
/// catalog every concurrent render job reads.
#[derive(Debug)]
pub struct PdfContext {
    pub sources: Vec<TemplateSource>,
    pub assets: Vec<BinaryAsset>,
    pub fonts: Vec<FontRecord>,
}

impl View for PdfContext {
    type V = AssetsModel;

    open spec fn view(&self) -> AssetsModel {
        AssetsModel {
            sources: self.sources@.map_values(|s: TemplateSource| s@),
            assets: self.assets@.map_values(|a: BinaryAsset| a@),
            fonts: self.fonts@.map_values(|f: FontRecord| f@),
        }
    }
}

/// Some template's final path segment equals `name`.
pub open spec fn spec_has_template(m: AssetsModel, name: Seq<char>) -> bool {
    exists|i: int|
        0 <= i < m.sources.len() && file_name_of((#[trigger] m.sources[i]).path) == name
}

/// `s` is the first source whose final path segment equals `name`.
pub open spec fn is_first_name_match(
    sources: Seq<SourceModel>,
    name: Seq<char>,
    s: SourceModel,
) -> bool {
    exists|i: int|
        {
            &&& 0 <= i < sources.len()
            &&& #[trigger] sources[i] == s
            &&& file_name_of(sources[i].path) == name
            &&& forall|j: int| 0 <= j < i ==> file_name_of((#[trigger] sources[j]).path) != name
        }
}

impl PdfContext {
    /// Well-formedness: the catalog's own invariant.
    pub open spec fn wf(&self) -> bool {
        assets_model_wf(self@)
    }

    /// Wrap a collected aggregate as the shared render context.
    pub fn from_assets(assets: Assets) -> (r: PdfContext)
        requires
            assets.wf(),
        ensures
            r@ == assets@,
            r.wf(),
    {
        let r = PdfContext { sources: assets.sources, assets: assets.assets, fonts: assets.fonts };
        proof {
            assert(r@ =~= assets@);
        }
        r
    }

    /// Index of the first template whose final path segment equals `name`.
    fn find_template(&self, name: &str) -> (r: Option<usize>)
        requires
            self.wf(),
        ensures
            match r {
                Some(i) => {
                    &&& i < self@.sources.len()
                    &&& file_name_of(self@.sources[i as int].path) == name@
                    &&& forall|j: int|
                        0 <= j < i ==> file_name_of((#[trigger] self@.sources[j]).path) != name@
                },
                None => !spec_has_template(self@, name@),
            },
    {
        let n = self.sources.len();
        let mut i: usize = 0;
        while i < n
            invariant
                i <= n,
                n == self.sources.len(),
                self.wf(),
                self@.sources.len() == n,
                forall|j: int|
                    0 <= j < i ==> file_name_of((#[trigger] self@.sources[j]).path) != name@,
            decreases n - i,
        {
            if str_eq(self.sources[i].name.as_str(), name) {
                proof {
                    assert(self@.sources[i as int].name == file_name_of(
                        self@.sources[i as int].path,
                    ));
                }
                return Some(i);
            }
            i = i + 1;
        }
        None
    }

    /// Check whether a template with the provided name exists in the
    /// context. This needs no compilation: it only reads the catalog.
    pub fn has_template(&self, source_name: &str) -> (r: bool)
        requires
            self.wf(),
        ensures
            r == spec_has_template(self@, source_name@),
    {
        match self.find_template(source_name) {
            Some(i) => {
                proof {
                    assert(spec_has_template(self@, source_name@)) by {
                        assert(file_name_of(self@.sources[i as int].path) == source_name@);
                    }
                }
                true
            },
            None => false,
        }
    }
}

/// Mathematical model of a render job: the shared catalog, the resolved
/// main source, and the bytes of the synthetic input file.
#[verifier::ext_equal]
pub struct JobModel {
    pub catalog: AssetsModel,
    pub main: SourceModel,
    pub input: Seq<u8>,
}

/// The reserved virtual path under which a render job serves its input
/// payload. A real asset at this exact path is shadowed: the synthetic file
/// always wins.
pub open spec fn input_virtual_path() -> Seq<char> {
    "input.json"@
}

/// The reserved virtual path of the synthetic input file.
pub fn input_path() -> (r: &'static str)
    ensures
        r@ == input_virtual_path(),
{
    "input.json"
}

/// The per-request binding of one resolved template, the shared catalog and
/// one synthetic input file; this is the lookup surface the external
/// compiler consumes.
#[derive(Debug)]
pub struct RenderInput<'a> {
    pub context: &'a PdfContext,
    pub main_index: usize,
    pub input_data: Vec<u8>,
}

impl View for RenderInput<'_> {
    type V = JobModel;

    open spec fn view(&self) -> JobModel {
        JobModel {
            catalog: self.context@,
            main: self.context@.sources[self.main_index as int],
            input: self.input_data@,
        }
    }
}

impl<'a> RenderInput<'a> {
    /// Well-formedness: the catalog is well-formed and the main index is in
    /// range.
    pub open spec fn wf(&self) -> bool {
        &&& self.context.wf()
        &&& self.main_index < self.context@.sources.len()
    }

    /// Build a render job from already-encoded payload bytes: resolve the
    /// template by its final path segment and bind the bytes under the
    /// reserved input path.
    pub fn from_encoded(context: &'a PdfContext, source_name: String, payload: Vec<u8>) -> (r:
        Result<RenderInput<'a>, AppError>)
        requires
            context.wf(),
        ensures
            match r {
                Ok(job) => {
                    &&& spec_has_template(context@, source_name@)
                    &&& job.wf()
                    &&& job@.catalog == context@
                    &&& is_first_name_match(context@.sources, source_name@, job@.main)
                    &&& job@.input == payload@
                },
                Err(e) => {
                    &&& e == AppError::MainSourceNotFound(source_name)
                    &&& !spec_has_template(context@, source_name@)
                },
            },
    {
        match context.find_template(source_name.as_str()) {
            Some(i) => {
                let job = RenderInput { context, main_index: i, input_data: payload };
                proof {
                    assert(is_first_name_match(context@.sources, source_name@, job@.main)) by {
                        assert(context@.sources[i as int] == job@.main);
                    }
                }
                Ok(job)
            },
            None => Err(AppError::MainSourceNotFound(source_name)),
        }
    }

    /// Build a new render input for the requested template and JSON data:
    /// resolve the template, then serialize the payload and bind it under
    /// the reserved input path. Serializing a JSON value cannot fail, so
    /// the only rejection is a missing template.
    pub fn new(context: &'a PdfContext, source_name: String, input: &serde_json::Value) -> (r:
        Result<RenderInput<'a>, AppError>)
        requires
            context.wf(),
        ensures
            match r {
                Ok(job) => {
                    &&& spec_has_template(context@, source_name@)
                    &&& job.wf()
                    &&& job@.catalog == context@
                    &&& is_first_name_match(context@.sources, source_name@, job@.main)
                    &&& job@.input == json_bytes_of(*input)
                },
                Err(e) => {
                    &&& e == AppError::MainSourceNotFound(source_name)
                    &&& !spec_has_template(context@, source_name@)
                },
            },
    {
        match encode_payload(input) {
            Some(bytes) => Self::from_encoded(context, source_name, bytes),
            None => {
                if context.has_template(source_name.as_str()) {
                    Err(AppError::InputSerialization)
                } else {
                    Err(AppError::MainSourceNotFound(source_name))
                }
            },
        }
    }

    /// The resolved main source: the compilation entry point.
    pub fn main_source(&self) -> (r: &TemplateSource)
        requires
            self.wf(),
        ensures
            r@ == self@.main,
    {
        &self.context.sources[self.main_index]
    }

    /// Retrieve a template source by its exact virtual path: the first
    /// source stored under that path, or nothing.
    #[verifier::loop_isolation(false)]
    pub fn source(&self, path: &str) -> (r: Option<&TemplateSource>)
        requires
            self.wf(),
        ensures
            match r {
                Some(s) => exists|i: int|
                    0 <= i < self@.catalog.sources.len() && #[trigger] self@.catalog.sources[i]
                        == s@ && s@.path == path@,
                None => forall|i: int|
                    0 <= i < self@.catalog.sources.len() ==> (
                    #[trigger] self@.catalog.sources[i]).path != path@,
            },
    {
        let n = self.context.sources.len();
        let mut i: usize = 0;
        while i < n
            invariant
                i <= n,
                n == self.context.sources.len(),
                self.wf(),
                self@.catalog.sources.len() == n,
                forall|j: int|
                    0 <= j < i ==> (#[trigger] self@.catalog.sources[j]).path != path@,
            decreases n - i,
        {
            if str_eq(self.context.sources[i].path.as_str(), path) {
                proof {
                    assert(self@.catalog.sources[i as int] == self.context.sources@[i as int]@);
                }
                return Some(&self.context.sources[i]);
            }
            i = i + 1;
        }
        None
    }

    /// Retrieve a binary file by its virtual path. The synthetic input file
    /// always wins at the reserved path; otherwise the catalog's binary
    /// asset under that path is served.
    #[verifier::loop_isolation(false)]
    pub fn file(&self, path: &str) -> (r: Option<&Vec<u8>>)
        requires
            self.wf(),
        ensures
            path@ == input_virtual_path() ==> (r matches Some(d) && d@ == self@.input),
            path@ != input_virtual_path() ==> match r {
                Some(d) => exists|i: int|
                    0 <= i < self@.catalog.assets.len() && (#[trigger] self@.catalog.assets[i]).path
                        == path@ && self@.catalog.assets[i].data == d@,
                None => !has_asset_path(self@.catalog, path@),
            },
    {
        if str_eq(path, input_path()) {
            return Some(&self.input_data);
        }
        let n = self.context.assets.len();
        let mut i: usize = 0;
        while i < n
            invariant
                i <= n,
                n == self.context.assets.len(),
                self.wf(),
                self@.catalog.assets.len() == n,
                forall|j: int|
                    0 <= j < i ==> (#[trigger] self@.catalog.assets[j]).path != path@,
            decreases n - i,
        {
            if str_eq(self.context.assets[i].path.as_str(), path) {
                proof {
                    assert(self@.catalog.assets[i as int] == self.context.assets@[i as int]@);
                }
                return Some(&self.context.assets[i].data);
            }
            i = i + 1;
        }
        None
    }

    /// Return a font from the context by index, if present.
    pub fn font(&self, index: usize) -> (r: Option<&FontRecord>)
        ensures
            match r {
                Some(f) => index < self@.catalog.fonts.len() && f@
                    == self@.catalog.fonts[index as int],
                None => index >= self@.catalog.fonts.len(),
            },
    {
        if index < self.context.fonts.len() {
            Some(&self.context.fonts[index])
        } else {
            None
        }
    }

    /// Provide the current date, optionally offset by whole hours. The
    /// clock decides the sampled instant; the result is exactly that
    /// instant's calendar moment shifted by the offset, as `spec_today`
    /// states it. Without an offset the sample itself is always
    /// representable, so a moment is always returned; an offset whose
    /// seconds overflow yields nothing, whatever the clock read.
    pub fn today(&self, offset: Option<i64>) -> (r: Option<CalendarMoment>)
        ensures
            exists|now: i64| #[trigger] spec_today(now, offset) == r && civil_of(now) is Some,
            offset matches Some(h) && (h * 3600 < i64::MIN || h * 3600 > i64::MAX) ==> r is None,
            offset is None ==> r is Some,
            r matches Some(m) ==> m.wf(),
    {
        let now = now_unix_seconds();
        let target = match offset {
            Some(hours) => match apply_hour_offset(now, hours) {
                Some(t) => t,
                None => {
                    proof {
                        assert(spec_today(now, offset) == None::<CalendarMoment>);
                    }
                    return None;
                },
            },
            None => now,
        };
        let r = moment_from_timestamp(target);
        proof {
            assert(spec_today(now, offset) == r);
        }
        r
    }
}

/// A calendar timestamp handed to the compiler: year, month, day, hour,
/// minute and second, in the usual calendar ranges.
#[derive(Debug, Clone, Copy, PartialEq, Eq, Structural)]
pub struct CalendarMoment {
    pub year: i32,
    pub month: u8,
    pub day: u8,
    pub hour: u8,
    pub minute: u8,
    pub second: u8,
}

impl CalendarMoment {
    /// The fields lie in the usual calendar ranges.
    pub open spec fn wf(&self) -> bool {
        &&& 1 <= self.month <= 12
        &&& 1 <= self.day <= 31
        &&& self.hour <= 23
        &&& self.minute <= 59
        &&& self.second <= 59
    }
}

/// The calendar decomposition chrono gives a Unix timestamp: year, month,
/// day, hour, minute and second, or nothing when the timestamp lies outside
/// chrono's representable range. The decomposition depends on the seconds
/// value alone.
pub uninterp spec fn civil_of(secs: i64) -> Option<(i32, u8, u8, u8, u8, u8)>;

/// Relies on `chrono::Utc::now` for the current time in Unix seconds. The
/// clock decides the value; what holds of every reading is that it comes
/// from a representable `DateTime`, so its own calendar decomposition
/// succeeds.
#[verifier::external_body]
fn now_unix_seconds() -> (r: i64)
    ensures
        civil_of(r) is Some,
{
    chrono::Utc::now().timestamp()
}

/// Relies on `chrono::DateTime::from_timestamp`, which accepts a timestamp
/// in chrono's representable range, returns nothing outside it, and
/// otherwise decomposes the seconds value alone, and on the `Datelike` and
/// `Timelike` accessors, whose documented ranges are months 1-12, days
/// 1-31, hours 0-23, minutes and seconds 0-59.
#[verifier::external_body]
fn civil_fields(secs: i64) -> (r: Option<(i32, u8, u8, u8, u8, u8)>)
    ensures
        r == civil_of(secs),
        r matches Some(t) ==> 1 <= t.1 <= 12 && 1 <= t.2 <= 31 && t.3 <= 23 && t.4 <= 59 && t.5
            <= 59,
{
    match chrono::DateTime::from_timestamp(secs, 0) {
        Some(dt) => Some(
            (
                dt.year(),
                dt.month() as u8,
                dt.day() as u8,
                dt.hour() as u8,
                dt.minute() as u8,
                dt.second() as u8,
            ),
        ),
        None => None,
    }
}

/// Shift a Unix timestamp by whole hours, refusing any overflow of the
/// 64-bit seconds value.
pub fn apply_hour_offset(secs: i64, hours: i64) -> (r: Option<i64>)
    ensures
        r matches Some(t) ==> t == secs + hours * 3600,
        r is None <==> hours * 3600 < i64::MIN || hours * 3600 > i64::MAX || secs + hours * 3600
            < i64::MIN || secs + hours * 3600 > i64::MAX,
{
    match hours.checked_mul(3600) {
        Some(h) => secs.checked_add(h),
        None => None,
    }
}

/// The calendar moment built from a decomposed field tuple.
pub open spec fn spec_moment_of(t: (i32, u8, u8, u8, u8, u8)) -> CalendarMoment {
    CalendarMoment { year: t.0, month: t.1, day: t.2, hour: t.3, minute: t.4, second: t.5 }
}

/// The calendar moment of a Unix timestamp: the named chrono decomposition,
/// or nothing outside the representable range.
pub open spec fn spec_moment_from(secs: i64) -> Option<CalendarMoment> {
    match civil_of(secs) {
        Some(t) => Some(spec_moment_of(t)),
        None => None,
    }
}

/// What `today` reports when the clock read `now`: the calendar moment of
/// `now` shifted by the requested whole hours, nothing when the shift
/// overflows 64-bit seconds or leaves the representable range; no offset
/// behaves exactly as an offset of zero hours.
pub open spec fn spec_today(now: i64, offset: Option<i64>) -> Option<CalendarMoment> {
    let shift: int = match offset {
        Some(h) => h * 3600,
        None => 0,
    };
    if shift < i64::MIN || shift > i64::MAX || now + shift < i64::MIN || now + shift > i64::MAX {
        None
    } else {
        spec_moment_from((now + shift) as i64)
    }
}

/// Decompose a Unix timestamp into its calendar moment: exactly the named
/// chrono decomposition, and a valid calendar moment whenever the timestamp
/// is representable.
pub fn moment_from_timestamp(secs: i64) -> (r: Option<CalendarMoment>)
    ensures
        r == spec_moment_from(secs),
        r matches Some(m) ==> m.wf(),
{
    match civil_fields(secs) {
        Some(t) => Some(
            CalendarMoment {
                year: t.0,
                month: t.1,
                day: t.2,
                hour: t.3,
                minute: t.4,
                second: t.5,
            },
        ),
        None => None,
    }
}

/// Rendering is deterministic up to the intentionally time-varying clock:
/// two render jobs built over the same catalog, the same template name and
/// the same input bytes are equal, so the external compiler is handed
/// identical worlds apart from `today`.
pub proof fn lemma_render_job_deterministic(
    m: AssetsModel,
    name: Seq<char>,
    j1: JobModel,
    j2: JobModel,
)
    requires
        j1.catalog == m,
        j2.catalog == m,
        j1.input == j2.input,
        is_first_name_match(m.sources, name, j1.main),
        is_first_name_match(m.sources, name, j2.main),
    ensures
        j1 == j2,
{
    let i1 = choose|i: int|
        {
            &&& 0 <= i < m.sources.len()
            &&& #[trigger] m.sources[i] == j1.main
            &&& file_name_of(m.sources[i].path) == name
            &&& forall|j: int| 0 <= j < i ==> file_name_of((#[trigger] m.sources[j]).path) != name
        };
    let i2 = choose|i: int|
        {
            &&& 0 <= i < m.sources.len()
            &&& #[trigger] m.sources[i] == j2.main
            &&& file_name_of(m.sources[i].path) == name
            &&& forall|j: int| 0 <= j < i ==> file_name_of((#[trigger] m.sources[j]).path) != name
        };
    if i1 < i2 {
        assert(file_name_of(m.sources[i1].path) != name);
    } else if i2 < i1 {
        assert(file_name_of(m.sources[i2].path) != name);
    }
    assert(j1 =~= j2);
}

} // verus!
