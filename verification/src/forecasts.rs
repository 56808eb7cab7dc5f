//! Darwin forecast data: platform information, forecast times and the
//! train status (`TS`) message, read from XML elements.

use vstd::prelude::*;
use crate::errors::{view_result, DarwinError, DarwinErrorView};
use crate::text::{parse_bool, parse_u32, spec_parse_bool, spec_parse_u32, str_eq};
use crate::time::{parse_date, parse_time, spec_parse_date, spec_parse_time, Date, Time};
use crate::xml::{
    last_text, opt_view, lemma_read_in_order_failed_prefix, lemma_read_in_order_next, read_in_order,
    XmlAttribute, XmlElement, XmlNode,
};

verus! {

/// Where a platform number came from.
#[derive(Debug, Clone, Copy, PartialEq, Eq, Structural)]
pub enum PlatformSource {
    Planned,
    Automatic,
    Manual,
}

impl View for PlatformSource {
    type V = PlatformSource;

    open spec fn view(&self) -> PlatformSource {
        *self
    }
}

impl Default for PlatformSource {
    fn default() -> (res: Self)
        ensures
            res == PlatformSource::Planned,
    {
        PlatformSource::Planned
    }
}

/// The platform source that a one-letter code names: `P`, `A` or `M`.
pub open spec fn spec_platform_source(s: Seq<char>) -> Option<PlatformSource> {
    if s == "P"@ {
        Some(PlatformSource::Planned)
    } else if s == "A"@ {
        Some(PlatformSource::Automatic)
    } else if s == "M"@ {
        Some(PlatformSource::Manual)
    } else {
        None
    }
}

/// What a platform source code reads as: the source, or the error that
/// names the accepted codes and the value found.
pub open spec fn spec_platform_source_result(s: Seq<char>) -> Result<PlatformSource, DarwinErrorView> {
    match spec_platform_source(s) {
        Some(p) => Ok(p),
        None => Err(DarwinErrorView::Expected("one of P, A, or M"@, s)),
    }
}

impl PlatformSource {
    /// Reads a platform source code.
    pub fn from_str(s: &str) -> (res: Result<PlatformSource, DarwinError>)
        ensures
            view_result(res) == spec_platform_source_result(s@),
    {
        if str_eq(s, "P") {
            Ok(PlatformSource::Planned)
        } else if str_eq(s, "A") {
            Ok(PlatformSource::Automatic)
        } else if str_eq(s, "M") {
            Ok(PlatformSource::Manual)
        } else {
            Err(DarwinError::Expected("one of P, A, or M", String::from_str(s)))
        }
    }
}

/// A boolean attribute or element value.
pub open spec fn spec_bool_value(v: Seq<char>) -> Result<bool, DarwinErrorView> {
    match spec_parse_bool(v) {
        Some(b) => Ok(b),
        None => Err(DarwinErrorView::InvalidBool(v)),
    }
}

/// An unsigned number given as an element value.
pub open spec fn spec_u32_value(v: Seq<char>) -> Result<u32, DarwinErrorView> {
    match spec_parse_u32(v) {
        Some(n) => Ok(n),
        None => Err(DarwinErrorView::InvalidInt(v)),
    }
}

/// A time attribute value.
pub open spec fn spec_time_value(v: Seq<char>) -> Result<Time, DarwinErrorView> {
    match spec_parse_time(v) {
        Some(t) => Ok(t),
        None => Err(DarwinErrorView::InvalidTime(v)),
    }
}

/// A date attribute value.
pub open spec fn spec_date_value(v: Seq<char>) -> Result<Date, DarwinErrorView> {
    match spec_parse_date(v) {
        Some(d) => Ok(d),
        None => Err(DarwinErrorView::InvalidDate(v)),
    }
}

fn bool_value(v: &String) -> (res: Result<bool, DarwinError>)
    ensures
        match res {
            Ok(b) => spec_bool_value(v@) == Ok::<bool, DarwinErrorView>(b),
            Err(e) => spec_bool_value(v@) == Err::<bool, DarwinErrorView>(e@),
        },
{
    match parse_bool(v.as_str()) {
        Some(b) => Ok(b),
        None => Err(DarwinError::InvalidBool(v.clone())),
    }
}

fn u32_value(v: &String) -> (res: Result<u32, DarwinError>)
    ensures
        match res {
            Ok(n) => spec_u32_value(v@) == Ok::<u32, DarwinErrorView>(n),
            Err(e) => spec_u32_value(v@) == Err::<u32, DarwinErrorView>(e@),
        },
{
    match parse_u32(v.as_str()) {
        Some(n) => Ok(n),
        None => Err(DarwinError::InvalidInt(v.clone())),
    }
}

fn time_value(v: &String) -> (res: Result<Time, DarwinError>)
    ensures
        match res {
            Ok(t) => spec_time_value(v@) == Ok::<Time, DarwinErrorView>(t),
            Err(e) => spec_time_value(v@) == Err::<Time, DarwinErrorView>(e@),
        },
{
    match parse_time(v.as_str()) {
        Some(t) => Ok(t),
        None => Err(DarwinError::InvalidTime(v.clone())),
    }
}

fn date_value(v: &String) -> (res: Result<Date, DarwinError>)
    ensures
        match res {
            Ok(d) => spec_date_value(v@) == Ok::<Date, DarwinErrorView>(d),
            Err(e) => spec_date_value(v@) == Err::<Date, DarwinErrorView>(e@),
        },
{
    match parse_date(v.as_str()) {
        Some(d) => Ok(d),
        None => Err(DarwinError::InvalidDate(v.clone())),
    }
}

} // verus!

verus! {

/// Platform number with associated flags.
#[derive(Debug, Clone)]
pub struct PlatformData {
    pub platform: String,
    /// Platform number is suppressed and should not be displayed.
    pub platsup: bool,
    /// Whether a CIS, or Darwin Workstation, has set platform suppression
    /// at this location.
    pub cis_platsup: bool,
    /// The source of the platform number.
    pub platsrc: PlatformSource,
    /// Whether the platform number is confirmed.
    pub conf: bool,
}

/// A `PlatformData` with its platform number taken as characters.
pub struct PlatformDataView {
    pub platform: Seq<char>,
    pub platsup: bool,
    pub cis_platsup: bool,
    pub platsrc: PlatformSource,
    pub conf: bool,
}

impl View for PlatformData {
    type V = PlatformDataView;

    open spec fn view(&self) -> PlatformDataView {
        PlatformDataView {
            platform: self.platform@,
            platsup: self.platsup,
            cis_platsup: self.cis_platsup,
            platsrc: self.platsrc,
            conf: self.conf,
        }
    }
}

/// The flags that the attributes of a `plat` element set.
#[derive(Debug, Clone, Copy)]
pub struct PlatformFlags {
    pub platsup: bool,
    pub cis_platsup: bool,
    pub platsrc: PlatformSource,
    pub conf: bool,
}

/// The flags before any attribute is read: all unset, source planned.
pub open spec fn platform_flags_default() -> PlatformFlags {
    PlatformFlags { platsup: false, cis_platsup: false, platsrc: PlatformSource::Planned, conf: false }
}

/// What one attribute of a `plat` element does to the flags: `platsup`,
/// `conf` and `cisPlatsup` are booleans, `platsrc` a source code; any other
/// attribute is passed over.
pub open spec fn platform_attr_step(f: PlatformFlags, a: XmlAttribute) -> Result<PlatformFlags, DarwinErrorView> {
    if a.name@ == "platsup"@ {
        match spec_bool_value(a.value@) {
            Ok(b) => Ok(PlatformFlags { platsup: b, ..f }),
            Err(e) => Err(e),
        }
    } else if a.name@ == "platsrc"@ {
        match spec_platform_source_result(a.value@) {
            Ok(p) => Ok(PlatformFlags { platsrc: p, ..f }),
            Err(e) => Err(e),
        }
    } else if a.name@ == "conf"@ {
        match spec_bool_value(a.value@) {
            Ok(b) => Ok(PlatformFlags { conf: b, ..f }),
            Err(e) => Err(e),
        }
    } else if a.name@ == "cisPlatsup"@ {
        match spec_bool_value(a.value@) {
            Ok(b) => Ok(PlatformFlags { cis_platsup: b, ..f }),
            Err(e) => Err(e),
        }
    } else {
        Ok(f)
    }
}

/// `platform_attr_step` as a reader step.
pub open spec fn platform_attr_reader() -> spec_fn(PlatformFlags, XmlAttribute) -> Result<PlatformFlags, DarwinErrorView> {
    |f: PlatformFlags, a: XmlAttribute| platform_attr_step(f, a)
}

/// What a `plat` element reads as: its attributes in order, then its text
/// (the last run of it) as the platform number, which must be given.
pub open spec fn spec_platform_data(el: XmlElement) -> Result<PlatformDataView, DarwinErrorView> {
    match read_in_order(el.attributes@, platform_flags_default(), platform_attr_reader()) {
        Err(e) => Err(e),
        Ok(f) => match last_text(el.children@) {
            None => Err(DarwinErrorView::Missing("platform"@)),
            Some(t) => Ok(
                PlatformDataView {
                    platform: t,
                    platsup: f.platsup,
                    cis_platsup: f.cis_platsup,
                    platsrc: f.platsrc,
                    conf: f.conf,
                },
            ),
        },
    }
}

impl PlatformData {
    /// Reads a `plat` element.
    pub fn from_xml_element(el: &XmlElement) -> (res: Result<PlatformData, DarwinError>)
        ensures
            view_result(res) == spec_platform_data(*el),
    {
        let ghost attrs = el.attributes@;
        let mut f = PlatformFlags {
            platsup: false,
            cis_platsup: false,
            platsrc: PlatformSource::Planned,
            conf: false,
        };
        let n = el.attributes.len();
        let mut i: usize = 0;
        while i < n
            invariant
                attrs == el.attributes@,
                n == attrs.len(),
                i <= n,
                read_in_order(attrs.subrange(0, i as int), platform_flags_default(), platform_attr_reader())
                    == Ok::<PlatformFlags, DarwinErrorView>(f),
            decreases n - i,
        {
            proof {
                lemma_read_in_order_next(attrs, platform_flags_default(), platform_attr_reader(), i as int);
            }
            let a = &el.attributes[i];
            let step: Result<PlatformFlags, DarwinError> = if a.is_named("platsup") {
                match bool_value(&a.value) {
                    Ok(b) => Ok(PlatformFlags { platsup: b, ..f }),
                    Err(e) => Err(e),
                }
            } else if a.is_named("platsrc") {
                match PlatformSource::from_str(a.value.as_str()) {
                    Ok(p) => Ok(PlatformFlags { platsrc: p, ..f }),
                    Err(e) => Err(e),
                }
            } else if a.is_named("conf") {
                match bool_value(&a.value) {
                    Ok(b) => Ok(PlatformFlags { conf: b, ..f }),
                    Err(e) => Err(e),
                }
            } else if a.is_named("cisPlatsup") {
                match bool_value(&a.value) {
                    Ok(b) => Ok(PlatformFlags { cis_platsup: b, ..f }),
                    Err(e) => Err(e),
                }
            } else {
                Ok(f)
            };
            match step {
                Ok(g) => {
                    f = g;
                },
                Err(e) => {
                    proof {
                        lemma_read_in_order_failed_prefix(
                            attrs,
                            platform_flags_default(),
                            platform_attr_reader(),
                            i + 1,
                        );
                    }
                    return Err(e);
                },
            }
            i = i + 1;
        }
        assert(attrs.subrange(0, n as int) =~= attrs);
        match el.last_text() {
            None => Err(DarwinError::Missing("platform")),
            Some(t) => Ok(
                PlatformData {
                    platform: t,
                    platsup: f.platsup,
                    cis_platsup: f.cis_platsup,
                    platsrc: f.platsrc,
                    conf: f.conf,
                },
            ),
        }
    }
}

} // verus!

verus! {

/// Time-based forecast attributes for a TS arrival, departure or pass.
#[derive(Debug, Clone)]
pub struct TsTimeData {
    /// Estimated Time. For locations with a public activity, this will be based on the "public schedule". For all other activities, it will be based on the "working schedule".
    pub et: Option<Time>,
    /// The estimated time based on the "working schedule". This will only be set for public activities and when it also differs from the estimated time based on the "public schedule".
    pub wet: Option<Time>,
    /// Actual Time
    pub at: Option<Time>,
    /// If true, indicates that an actual time ("at") value has just been removed and replaced by an estimated time ("et"). Note that this attribute will only be set to "true" once, when the actual time is removed, and will not be set in any snapshot.
    pub at_removed: bool,
    /// The manually applied lower limit that has been applied to the estimated time at this location. The estimated time will not be set lower than this value, but may be set higher.
    pub etmin: Option<Time>,
    /// Indicates that an unknown delay forecast has been set for the estimated time at this location. Note that this value indicates where a manual unknown delay forecast has been set, whereas it is the "delayed" attribute that indicates that the actual forecast is "unknown delay".
    pub et_unknown: bool,
    /// Indicates that this estimated time is a forecast of "unknown delay". Displayed  as "Delayed" in LDB. Note that this value indicates that this forecast is "unknown delay", whereas it is the "etUnknown" attribute that indicates where the manual unknown delay forecast has been set.
    pub delayed: bool,
    /// The source of the forecast or actual time.
    pub src: Option<String>,
    /// The RTTI CIS code of the CIS instance if the src is a CIS.
    pub src_inst: Option<String>,
    /// The class of the actual time.
    pub at_class: Option<String>,
}

/// A `TsTimeData` with its texts taken as characters.
pub struct TsTimeDataView {
    pub et: Option<Time>,
    pub wet: Option<Time>,
    pub at: Option<Time>,
    pub at_removed: bool,
    pub etmin: Option<Time>,
    pub et_unknown: bool,
    pub delayed: bool,
    pub src: Option<Seq<char>>,
    pub src_inst: Option<Seq<char>>,
    pub at_class: Option<Seq<char>>,
}

impl View for TsTimeData {
    type V = TsTimeDataView;

    open spec fn view(&self) -> TsTimeDataView {
        TsTimeDataView {
            et: self.et,
            wet: self.wet,
            at: self.at,
            at_removed: self.at_removed,
            etmin: self.etmin,
            et_unknown: self.et_unknown,
            delayed: self.delayed,
            src: opt_view(self.src),
            src_inst: opt_view(self.src_inst),
            at_class: opt_view(self.at_class),
        }
    }
}

/// Forecast attributes before any is read: all absent or unset.
pub open spec fn ts_time_data_default() -> TsTimeDataView {
    TsTimeDataView {
        et: None,
        wet: None,
        at: None,
        at_removed: false,
        etmin: None,
        et_unknown: false,
        delayed: false,
        src: None,
        src_inst: None,
        at_class: None,
    }
}

impl Default for TsTimeData {
    fn default() -> (res: Self)
        ensures
            res@ == ts_time_data_default(),
    {
        TsTimeData {
            et: None,
            wet: None,
            at: None,
            at_removed: false,
            etmin: None,
            et_unknown: false,
            delayed: false,
            src: None,
            src_inst: None,
            at_class: None,
        }
    }
}

/// What one attribute of a forecast time element does: `atRemoved`,
/// `etUnknown` and `delayed` are booleans; `et`, `wet`, `at` and `etmin`
/// times; `src`, `srcInst` and `atClass` texts; any other attribute is
/// passed over.
pub open spec fn ts_time_attr_step(d: TsTimeDataView, a: XmlAttribute) -> Result<TsTimeDataView, DarwinErrorView> {
    let v = a.value@;
    if a.name@ == "atRemoved"@ {
        match spec_bool_value(v) {
            Ok(b) => Ok(TsTimeDataView { at_removed: b, ..d }),
            Err(e) => Err(e),
        }
    } else if a.name@ == "etUnknown"@ {
        match spec_bool_value(v) {
            Ok(b) => Ok(TsTimeDataView { et_unknown: b, ..d }),
            Err(e) => Err(e),
        }
    } else if a.name@ == "delayed"@ {
        match spec_bool_value(v) {
            Ok(b) => Ok(TsTimeDataView { delayed: b, ..d }),
            Err(e) => Err(e),
        }
    } else if a.name@ == "et"@ {
        match spec_time_value(v) {
            Ok(t) => Ok(TsTimeDataView { et: Some(t), ..d }),
            Err(e) => Err(e),
        }
    } else if a.name@ == "wet"@ {
        match spec_time_value(v) {
            Ok(t) => Ok(TsTimeDataView { wet: Some(t), ..d }),
            Err(e) => Err(e),
        }
    } else if a.name@ == "at"@ {
        match spec_time_value(v) {
            Ok(t) => Ok(TsTimeDataView { at: Some(t), ..d }),
            Err(e) => Err(e),
        }
    } else if a.name@ == "etmin"@ {
        match spec_time_value(v) {
            Ok(t) => Ok(TsTimeDataView { etmin: Some(t), ..d }),
            Err(e) => Err(e),
        }
    } else if a.name@ == "src"@ {
        Ok(TsTimeDataView { src: Some(v), ..d })
    } else if a.name@ == "srcInst"@ {
        Ok(TsTimeDataView { src_inst: Some(v), ..d })
    } else if a.name@ == "atClass"@ {
        Ok(TsTimeDataView { at_class: Some(v), ..d })
    } else {
        Ok(d)
    }
}

/// `ts_time_attr_step` as a reader step.
pub open spec fn ts_time_attr_reader() -> spec_fn(TsTimeDataView, XmlAttribute) -> Result<TsTimeDataView, DarwinErrorView> {
    |d: TsTimeDataView, a: XmlAttribute| ts_time_attr_step(d, a)
}

/// What an `arr`, `dep` or `pass` element reads as: its attributes in
/// order; its children are passed over.
pub open spec fn spec_ts_time_data(el: XmlElement) -> Result<TsTimeDataView, DarwinErrorView> {
    read_in_order(el.attributes@, ts_time_data_default(), ts_time_attr_reader())
}

fn time_attr(a: &XmlAttribute, d: &mut TsTimeData) -> (res: Result<(), DarwinError>)
    ensures
        match res {
            Ok(_) => ts_time_attr_step(old(d)@, *a) == Ok::<TsTimeDataView, DarwinErrorView>(
                final(d)@,
            ),
            Err(e) => ts_time_attr_step(old(d)@, *a) == Err::<TsTimeDataView, DarwinErrorView>(
                e@,
            ),
        },
{
    if a.is_named("atRemoved") {
        d.at_removed = bool_value(&a.value)?;
    } else if a.is_named("etUnknown") {
        d.et_unknown = bool_value(&a.value)?;
    } else if a.is_named("delayed") {
        d.delayed = bool_value(&a.value)?;
    } else if a.is_named("et") {
        d.et = Some(time_value(&a.value)?);
    } else if a.is_named("wet") {
        d.wet = Some(time_value(&a.value)?);
    } else if a.is_named("at") {
        d.at = Some(time_value(&a.value)?);
    } else if a.is_named("etmin") {
        d.etmin = Some(time_value(&a.value)?);
    } else if a.is_named("src") {
        d.src = Some(a.value.clone());
    } else if a.is_named("srcInst") {
        d.src_inst = Some(a.value.clone());
    } else if a.is_named("atClass") {
        d.at_class = Some(a.value.clone());
    }
    Ok(())
}

impl TsTimeData {
    /// Reads an `arr`, `dep` or `pass` element.
    pub fn from_xml_element(el: &XmlElement) -> (res: Result<TsTimeData, DarwinError>)
        ensures
            view_result(res) == spec_ts_time_data(*el),
    {
        let ghost attrs = el.attributes@;
        let mut d = TsTimeData::default();
        let n = el.attributes.len();
        let mut i: usize = 0;
        while i < n
            invariant
                attrs == el.attributes@,
                n == attrs.len(),
                i <= n,
                read_in_order(attrs.subrange(0, i as int), ts_time_data_default(), ts_time_attr_reader())
                    == Ok::<TsTimeDataView, DarwinErrorView>(d@),
            decreases n - i,
        {
            proof {
                lemma_read_in_order_next(attrs, ts_time_data_default(), ts_time_attr_reader(), i as int);
            }
            match time_attr(&el.attributes[i], &mut d) {
                Ok(_) => {},
                Err(e) => {
                    proof {
                        lemma_read_in_order_failed_prefix(
                            attrs,
                            ts_time_data_default(),
                            ts_time_attr_reader(),
                            i + 1,
                        );
                    }
                    return Err(e);
                },
            }
            i = i + 1;
        }
        assert(attrs.subrange(0, n as int) =~= attrs);
        Ok(d)
    }
}

} // verus!

verus! {

/// Scheduled timing data at a location: working and public times of
/// arrival, departure and pass.
#[derive(Debug, Clone, Copy, PartialEq, Eq, Structural)]
pub struct CircularTimes {
    pub wta: Option<Time>,
    pub wtd: Option<Time>,
    pub wtp: Option<Time>,
    pub pta: Option<Time>,
    pub ptd: Option<Time>,
}

/// No scheduled time given.
pub open spec fn circular_times_default() -> CircularTimes {
    CircularTimes { wta: None, wtd: None, wtp: None, pta: None, ptd: None }
}

impl Default for CircularTimes {
    fn default() -> (res: Self)
        ensures
            res == circular_times_default(),
    {
        CircularTimes { wta: None, wtd: None, wtp: None, pta: None, ptd: None }
    }
}

/// Forecast data for an individual location in the service's schedule.
#[derive(Debug, Clone)]
pub struct TsLocation {
    /// TIPLOC
    pub tiploc: String,
    /// Scheduled timing data for this location.
    pub timings: CircularTimes,
    /// Forecast data for the arrival at this location.
    pub arr: Option<TsTimeData>,
    /// Forecast data for the departure at this location.
    pub dep: Option<TsTimeData>,
    /// Forecast data for the pass of this location.
    pub pass: Option<TsTimeData>,
    /// Current platform number.
    pub plat: Option<PlatformData>,
    /// Whether the service is suppressed at this location or not.
    pub suppr: bool,
    /// The length of the service at this location on departure (or arrival at destination). The default value of zero indicates that the length is unknown.
    pub length: u32,
    /// Indicates from which end of the train stock will be detached. The value is set to “true” if stock will be detached from the front of the train at this location. It will be set at each location where stock will be detached from the front. Darwin will not validate that a stock detachment activity code applies at this location.
    pub detach_front: bool,
}

/// An optional forecast, taken by its view.
pub open spec fn opt_time_data_view(o: Option<TsTimeData>) -> Option<TsTimeDataView> {
    match o {
        Some(d) => Some(d@),
        None => None,
    }
}

/// An optional platform, taken by its view.
pub open spec fn opt_platform_view(o: Option<PlatformData>) -> Option<PlatformDataView> {
    match o {
        Some(p) => Some(p@),
        None => None,
    }
}

/// A `TsLocation` with its texts taken as characters.
pub struct TsLocationView {
    pub tiploc: Seq<char>,
    pub timings: CircularTimes,
    pub arr: Option<TsTimeDataView>,
    pub dep: Option<TsTimeDataView>,
    pub pass: Option<TsTimeDataView>,
    pub plat: Option<PlatformDataView>,
    pub suppr: bool,
    pub length: u32,
    pub detach_front: bool,
}

impl View for TsLocation {
    type V = TsLocationView;

    open spec fn view(&self) -> TsLocationView {
        TsLocationView {
            tiploc: self.tiploc@,
            timings: self.timings,
            arr: opt_time_data_view(self.arr),
            dep: opt_time_data_view(self.dep),
            pass: opt_time_data_view(self.pass),
            plat: opt_platform_view(self.plat),
            suppr: self.suppr,
            length: self.length,
            detach_front: self.detach_front,
        }
    }
}

/// A location read so far: the TIPLOC is required and may still be absent.
pub struct TsLocationDraft {
    pub tiploc: Option<String>,
    pub timings: CircularTimes,
    pub arr: Option<TsTimeData>,
    pub dep: Option<TsTimeData>,
    pub pass: Option<TsTimeData>,
    pub plat: Option<PlatformData>,
    pub suppr: bool,
    pub length: u32,
    pub detach_front: bool,
}

/// A `TsLocationDraft` with its texts taken as characters.
pub struct TsLocationDraftView {
    pub tiploc: Option<Seq<char>>,
    pub timings: CircularTimes,
    pub arr: Option<TsTimeDataView>,
    pub dep: Option<TsTimeDataView>,
    pub pass: Option<TsTimeDataView>,
    pub plat: Option<PlatformDataView>,
    pub suppr: bool,
    pub length: u32,
    pub detach_front: bool,
}

impl View for TsLocationDraft {
    type V = TsLocationDraftView;

    open spec fn view(&self) -> TsLocationDraftView {
        TsLocationDraftView {
            tiploc: opt_view(self.tiploc),
            timings: self.timings,
            arr: opt_time_data_view(self.arr),
            dep: opt_time_data_view(self.dep),
            pass: opt_time_data_view(self.pass),
            plat: opt_platform_view(self.plat),
            suppr: self.suppr,
            length: self.length,
            detach_front: self.detach_front,
        }
    }
}

/// A location before anything is read: no TIPLOC, no times, no forecasts,
/// not suppressed, length zero (unknown), not detaching from the front.
pub open spec fn ts_location_draft_default() -> TsLocationDraftView {
    TsLocationDraftView {
        tiploc: None,
        timings: circular_times_default(),
        arr: None,
        dep: None,
        pass: None,
        plat: None,
        suppr: false,
        length: 0,
        detach_front: false,
    }
}

/// What one attribute of a `Location` element does: `tpl` is the TIPLOC;
/// `wta`, `wtd`, `wtp`, `pta` and `ptd` the scheduled times; any other
/// attribute is passed over.
pub open spec fn location_attr_step(d: TsLocationDraftView, a: XmlAttribute) -> Result<TsLocationDraftView, DarwinErrorView> {
    let v = a.value@;
    let t = d.timings;
    if a.name@ == "tpl"@ {
        Ok(TsLocationDraftView { tiploc: Some(v), ..d })
    } else if a.name@ == "wta"@ {
        match spec_time_value(v) {
            Ok(x) => Ok(TsLocationDraftView { timings: CircularTimes { wta: Some(x), ..t }, ..d }),
            Err(e) => Err(e),
        }
    } else if a.name@ == "wtd"@ {
        match spec_time_value(v) {
            Ok(x) => Ok(TsLocationDraftView { timings: CircularTimes { wtd: Some(x), ..t }, ..d }),
            Err(e) => Err(e),
        }
    } else if a.name@ == "wtp"@ {
        match spec_time_value(v) {
            Ok(x) => Ok(TsLocationDraftView { timings: CircularTimes { wtp: Some(x), ..t }, ..d }),
            Err(e) => Err(e),
        }
    } else if a.name@ == "pta"@ {
        match spec_time_value(v) {
            Ok(x) => Ok(TsLocationDraftView { timings: CircularTimes { pta: Some(x), ..t }, ..d }),
            Err(e) => Err(e),
        }
    } else if a.name@ == "ptd"@ {
        match spec_time_value(v) {
            Ok(x) => Ok(TsLocationDraftView { timings: CircularTimes { ptd: Some(x), ..t }, ..d }),
            Err(e) => Err(e),
        }
    } else {
        Ok(d)
    }
}

/// `location_attr_step` as a reader step.
pub open spec fn location_attr_reader() -> spec_fn(TsLocationDraftView, XmlAttribute) -> Result<TsLocationDraftView, DarwinErrorView> {
    |d: TsLocationDraftView, a: XmlAttribute| location_attr_step(d, a)
}

/// An element whose text is a boolean.
pub open spec fn spec_bool_element(el: XmlElement) -> Result<bool, DarwinErrorView> {
    match last_text(el.children@) {
        None => Err(DarwinErrorView::Missing("value"@)),
        Some(t) => spec_bool_value(t),
    }
}

/// An element whose text is an unsigned number.
pub open spec fn spec_u32_element(el: XmlElement) -> Result<u32, DarwinErrorView> {
    match last_text(el.children@) {
        None => Err(DarwinErrorView::Missing("value"@)),
        Some(t) => spec_u32_value(t),
    }
}

/// What one child of a `Location` element does: `arr`, `dep` and `pass`
/// are forecasts, `plat` the platform, `suppr` and `detachFront` boolean
/// elements, `length` a number element; a later one replaces an earlier
/// one; other elements and text are passed over.
pub open spec fn location_child_step(d: TsLocationDraftView, n: XmlNode) -> Result<TsLocationDraftView, DarwinErrorView> {
    match n {
        XmlNode::Text(_) => Ok(d),
        XmlNode::Element(c) => if c.name@ == "arr"@ {
            match spec_ts_time_data(c) {
                Ok(x) => Ok(TsLocationDraftView { arr: Some(x), ..d }),
                Err(e) => Err(e),
            }
        } else if c.name@ == "dep"@ {
            match spec_ts_time_data(c) {
                Ok(x) => Ok(TsLocationDraftView { dep: Some(x), ..d }),
                Err(e) => Err(e),
            }
        } else if c.name@ == "pass"@ {
            match spec_ts_time_data(c) {
                Ok(x) => Ok(TsLocationDraftView { pass: Some(x), ..d }),
                Err(e) => Err(e),
            }
        } else if c.name@ == "suppr"@ {
            match spec_bool_element(c) {
                Ok(x) => Ok(TsLocationDraftView { suppr: x, ..d }),
                Err(e) => Err(e),
            }
        } else if c.name@ == "detachFront"@ {
            match spec_bool_element(c) {
                Ok(x) => Ok(TsLocationDraftView { detach_front: x, ..d }),
                Err(e) => Err(e),
            }
        } else if c.name@ == "length"@ {
            match spec_u32_element(c) {
                Ok(x) => Ok(TsLocationDraftView { length: x, ..d }),
                Err(e) => Err(e),
            }
        } else if c.name@ == "plat"@ {
            match spec_platform_data(c) {
                Ok(x) => Ok(TsLocationDraftView { plat: Some(x), ..d }),
                Err(e) => Err(e),
            }
        } else {
            Ok(d)
        },
    }
}

/// `location_child_step` as a reader step.
pub open spec fn location_child_reader() -> spec_fn(TsLocationDraftView, XmlNode) -> Result<TsLocationDraftView, DarwinErrorView> {
    |d: TsLocationDraftView, n: XmlNode| location_child_step(d, n)
}

/// What a `Location` element reads as: its attributes in order, then its
/// children in order; the TIPLOC must have been given.
pub open spec fn spec_ts_location(el: XmlElement) -> Result<TsLocationView, DarwinErrorView> {
    match read_in_order(el.attributes@, ts_location_draft_default(), location_attr_reader()) {
        Err(e) => Err(e),
        Ok(head) => match read_in_order(el.children@, head, location_child_reader()) {
            Err(e) => Err(e),
            Ok(d) => match d.tiploc {
                None => Err(DarwinErrorView::Missing("tiploc"@)),
                Some(tpl) => Ok(
                    TsLocationView {
                        tiploc: tpl,
                        timings: d.timings,
                        arr: d.arr,
                        dep: d.dep,
                        pass: d.pass,
                        plat: d.plat,
                        suppr: d.suppr,
                        length: d.length,
                        detach_front: d.detach_front,
                    },
                ),
            },
        },
    }
}

fn bool_element(el: &XmlElement) -> (res: Result<bool, DarwinError>)
    ensures
        match res {
            Ok(b) => spec_bool_element(*el) == Ok::<bool, DarwinErrorView>(b),
            Err(e) => spec_bool_element(*el) == Err::<bool, DarwinErrorView>(e@),
        },
{
    match el.last_text() {
        None => Err(DarwinError::Missing("value")),
        Some(t) => bool_value(&t),
    }
}

fn u32_element(el: &XmlElement) -> (res: Result<u32, DarwinError>)
    ensures
        match res {
            Ok(n) => spec_u32_element(*el) == Ok::<u32, DarwinErrorView>(n),
            Err(e) => spec_u32_element(*el) == Err::<u32, DarwinErrorView>(e@),
        },
{
    match el.last_text() {
        None => Err(DarwinError::Missing("value")),
        Some(t) => u32_value(&t),
    }
}

fn location_attr(a: &XmlAttribute, d: &mut TsLocationDraft) -> (res: Result<(), DarwinError>)
    ensures
        match res {
            Ok(_) => location_attr_step(old(d)@, *a) == Ok::<TsLocationDraftView, DarwinErrorView>(
                final(d)@,
            ),
            Err(e) => location_attr_step(old(d)@, *a) == Err::<TsLocationDraftView, DarwinErrorView>(
                e@,
            ),
        },
{
    if a.is_named("tpl") {
        d.tiploc = Some(a.value.clone());
    } else if a.is_named("wta") {
        d.timings.wta = Some(time_value(&a.value)?);
    } else if a.is_named("wtd") {
        d.timings.wtd = Some(time_value(&a.value)?);
    } else if a.is_named("wtp") {
        d.timings.wtp = Some(time_value(&a.value)?);
    } else if a.is_named("pta") {
        d.timings.pta = Some(time_value(&a.value)?);
    } else if a.is_named("ptd") {
        d.timings.ptd = Some(time_value(&a.value)?);
    }
    Ok(())
}

fn location_child(n: &XmlNode, d: &mut TsLocationDraft) -> (res: Result<(), DarwinError>)
    ensures
        match res {
            Ok(_) => location_child_step(old(d)@, *n) == Ok::<TsLocationDraftView, DarwinErrorView>(
                final(d)@,
            ),
            Err(e) => location_child_step(old(d)@, *n) == Err::<TsLocationDraftView, DarwinErrorView>(
                e@,
            ),
        },
{
    match n {
        XmlNode::Text(_) => {},
        XmlNode::Element(c) => {
            if c.is_named("arr") {
                d.arr = Some(TsTimeData::from_xml_element(c)?);
            } else if c.is_named("dep") {
                d.dep = Some(TsTimeData::from_xml_element(c)?);
            } else if c.is_named("pass") {
                d.pass = Some(TsTimeData::from_xml_element(c)?);
            } else if c.is_named("suppr") {
                d.suppr = bool_element(c)?;
            } else if c.is_named("detachFront") {
                d.detach_front = bool_element(c)?;
            } else if c.is_named("length") {
                d.length = u32_element(c)?;
            } else if c.is_named("plat") {
                d.plat = Some(PlatformData::from_xml_element(c)?);
            }
        },
    }
    Ok(())
}

impl TsLocation {
    /// Reads a `Location` element.
    pub fn from_xml_element(el: &XmlElement) -> (res: Result<TsLocation, DarwinError>)
        ensures
            view_result(res) == spec_ts_location(*el),
    {
        let ghost attrs = el.attributes@;
        let ghost kids = el.children@;
        let mut d = TsLocationDraft {
            tiploc: None,
            timings: CircularTimes::default(),
            arr: None,
            dep: None,
            pass: None,
            plat: None,
            suppr: false,
            length: 0,
            detach_front: false,
        };
        let n = el.attributes.len();
        let mut i: usize = 0;
        while i < n
            invariant
                attrs == el.attributes@,
                n == attrs.len(),
                i <= n,
                read_in_order(attrs.subrange(0, i as int), ts_location_draft_default(), location_attr_reader())
                    == Ok::<TsLocationDraftView, DarwinErrorView>(d@),
            decreases n - i,
        {
            proof {
                lemma_read_in_order_next(attrs, ts_location_draft_default(), location_attr_reader(), i as int);
            }
            match location_attr(&el.attributes[i], &mut d) {
                Ok(_) => {},
                Err(e) => {
                    proof {
                        lemma_read_in_order_failed_prefix(
                            attrs,
                            ts_location_draft_default(),
                            location_attr_reader(),
                            i + 1,
                        );
                    }
                    return Err(e);
                },
            }
            i = i + 1;
        }
        assert(attrs.subrange(0, n as int) =~= attrs);
        let ghost head = d@;
        let m = el.children.len();
        let mut j: usize = 0;
        while j < m
            invariant
                kids == el.children@,
                attrs == el.attributes@,
                read_in_order(attrs, ts_location_draft_default(), location_attr_reader())
                    == Ok::<TsLocationDraftView, DarwinErrorView>(head),
                m == kids.len(),
                j <= m,
                read_in_order(kids.subrange(0, j as int), head, location_child_reader())
                    == Ok::<TsLocationDraftView, DarwinErrorView>(d@),
            decreases m - j,
        {
            proof {
                lemma_read_in_order_next(kids, head, location_child_reader(), j as int);
            }
            match location_child(&el.children[j], &mut d) {
                Ok(_) => {},
                Err(e) => {
                    proof {
                        lemma_read_in_order_failed_prefix(kids, head, location_child_reader(), j + 1);
                    }
                    return Err(e);
                },
            }
            j = j + 1;
        }
        assert(kids.subrange(0, m as int) =~= kids);
        match d.tiploc {
            None => Err(DarwinError::Missing("tiploc")),
            Some(tpl) => Ok(
                TsLocation {
                    tiploc: tpl,
                    timings: d.timings,
                    arr: d.arr,
                    dep: d.dep,
                    pass: d.pass,
                    plat: d.plat,
                    suppr: d.suppr,
                    length: d.length,
                    detach_front: d.detach_front,
                },
            ),
        }
    }
}

} // verus!

verus! {

/// A late-running or cancellation reason: a Darwin reason code, with the
/// TIPLOC it refers to where one is given, and whether the reason happened
/// near that place rather than at it.
#[derive(Debug, Clone)]
pub struct DisruptionReason {
    pub reason: u32,
    pub tiploc: Option<String>,
    pub near: bool,
}

/// A `DisruptionReason` with its TIPLOC taken as characters.
pub struct DisruptionReasonView {
    pub reason: u32,
    pub tiploc: Option<Seq<char>>,
    pub near: bool,
}

impl View for DisruptionReason {
    type V = DisruptionReasonView;

    open spec fn view(&self) -> DisruptionReasonView {
        DisruptionReasonView { reason: self.reason, tiploc: opt_view(self.tiploc), near: self.near }
    }
}

/// What one attribute of a reason element does: `tiploc` names the place,
/// `near` is a boolean; any other attribute is passed over.
pub open spec fn reason_attr_step(
    d: (Option<Seq<char>>, bool),
    a: XmlAttribute,
) -> Result<(Option<Seq<char>>, bool), DarwinErrorView> {
    if a.name@ == "tiploc"@ {
        Ok((Some(a.value@), d.1))
    } else if a.name@ == "near"@ {
        match spec_bool_value(a.value@) {
            Ok(b) => Ok((d.0, b)),
            Err(e) => Err(e),
        }
    } else {
        Ok(d)
    }
}

/// `reason_attr_step` as a reader step.
pub open spec fn reason_attr_reader() -> spec_fn((Option<Seq<char>>, bool), XmlAttribute) -> Result<
    (Option<Seq<char>>, bool),
    DarwinErrorView,
> {
    |d: (Option<Seq<char>>, bool), a: XmlAttribute| reason_attr_step(d, a)
}

/// What a reason element reads as: its attributes in order, then its text
/// as the reason code, which must be given.
pub open spec fn spec_disruption_reason(el: XmlElement) -> Result<DisruptionReasonView, DarwinErrorView> {
    match read_in_order(el.attributes@, (None, false), reason_attr_reader()) {
        Err(e) => Err(e),
        Ok(d) => match last_text(el.children@) {
            None => Err(DarwinErrorView::Missing("reason"@)),
            Some(t) => match spec_u32_value(t) {
                Ok(r) => Ok(DisruptionReasonView { reason: r, tiploc: d.0, near: d.1 }),
                Err(e) => Err(e),
            },
        },
    }
}

impl DisruptionReason {
    /// Reads a reason element such as `LateReason`.
    pub fn from_xml_element(el: &XmlElement) -> (res: Result<DisruptionReason, DarwinError>)
        ensures
            view_result(res) == spec_disruption_reason(*el),
    {
        let ghost attrs = el.attributes@;
        let mut tiploc: Option<String> = None;
        let mut near = false;
        let n = el.attributes.len();
        let mut i: usize = 0;
        while i < n
            invariant
                attrs == el.attributes@,
                n == attrs.len(),
                i <= n,
                read_in_order(attrs.subrange(0, i as int), (None, false), reason_attr_reader())
                    == Ok::<(Option<Seq<char>>, bool), DarwinErrorView>((opt_view(tiploc), near)),
            decreases n - i,
        {
            proof {
                lemma_read_in_order_next(attrs, (None, false), reason_attr_reader(), i as int);
            }
            let a = &el.attributes[i];
            if a.is_named("tiploc") {
                tiploc = Some(a.value.clone());
            } else if a.is_named("near") {
                match bool_value(&a.value) {
                    Ok(b) => {
                        near = b;
                    },
                    Err(e) => {
                        proof {
                            lemma_read_in_order_failed_prefix(
                                attrs,
                                (None, false),
                                reason_attr_reader(),
                                i + 1,
                            );
                        }
                        return Err(e);
                    },
                }
            }
            i = i + 1;
        }
        assert(attrs.subrange(0, n as int) =~= attrs);
        match el.last_text() {
            None => Err(DarwinError::Missing("reason")),
            Some(t) => match u32_value(&t) {
                Ok(r) => Ok(DisruptionReason { reason: r, tiploc, near }),
                Err(e) => Err(e),
            },
        }
    }
}

/// Train Status. Update to the "real time" forecast data for a service.
#[derive(Debug, Clone)]
pub struct Ts {
    /// Late running reason for this service. The reason applies to all locations of this service.
    pub late_reason: Option<DisruptionReason>,
    /// Update of forecast data for individual locations in the service's schedule.
    pub locations: Vec<TsLocation>,
    /// RTTI unique Train Identifier.
    pub rid: String,
    /// Train UID.
    pub uid: String,
    /// Scheduled Start Date. *[editor's note: this is the date the train runs on, NOT the
    /// ITPS schedule's start date.]*
    pub start_date: Date,
    /// Indicates whether a train that divides is working with portions in reverse to their normal formation. The value applies to the whole train. Darwin will not validate that a divide association actually exists for this service.
    pub is_reverse_formation: bool,
}

/// An optional reason, taken by its view.
pub open spec fn opt_reason_view(o: Option<DisruptionReason>) -> Option<DisruptionReasonView> {
    match o {
        Some(r) => Some(r@),
        None => None,
    }
}

/// Locations, each taken by its view.
pub open spec fn locations_view(v: Seq<TsLocation>) -> Seq<TsLocationView> {
    v.map_values(|l: TsLocation| l@)
}

/// A `Ts` with its texts taken as characters.
pub struct TsView {
    pub late_reason: Option<DisruptionReasonView>,
    pub locations: Seq<TsLocationView>,
    pub rid: Seq<char>,
    pub uid: Seq<char>,
    pub start_date: Date,
    pub is_reverse_formation: bool,
}

impl View for Ts {
    type V = TsView;

    open spec fn view(&self) -> TsView {
        TsView {
            late_reason: opt_reason_view(self.late_reason),
            locations: locations_view(self.locations@),
            rid: self.rid@,
            uid: self.uid@,
            start_date: self.start_date,
            is_reverse_formation: self.is_reverse_formation,
        }
    }
}

/// A train status read so far: identifiers and start date are required and
/// may still be absent.
pub struct TsDraft {
    pub late_reason: Option<DisruptionReason>,
    pub locations: Vec<TsLocation>,
    pub rid: Option<String>,
    pub uid: Option<String>,
    pub start_date: Option<Date>,
    pub is_reverse_formation: bool,
}

/// A `TsDraft` with its texts taken as characters.
pub struct TsDraftView {
    pub late_reason: Option<DisruptionReasonView>,
    pub locations: Seq<TsLocationView>,
    pub rid: Option<Seq<char>>,
    pub uid: Option<Seq<char>>,
    pub start_date: Option<Date>,
    pub is_reverse_formation: bool,
}

impl View for TsDraft {
    type V = TsDraftView;

    open spec fn view(&self) -> TsDraftView {
        TsDraftView {
            late_reason: opt_reason_view(self.late_reason),
            locations: locations_view(self.locations@),
            rid: opt_view(self.rid),
            uid: opt_view(self.uid),
            start_date: self.start_date,
            is_reverse_formation: self.is_reverse_formation,
        }
    }
}

/// A train status before anything is read.
pub open spec fn ts_draft_default() -> TsDraftView {
    TsDraftView {
        late_reason: None,
        locations: Seq::empty(),
        rid: None,
        uid: None,
        start_date: None,
        is_reverse_formation: false,
    }
}

/// What one attribute of a `TS` element does: `rid` and `uid` are the
/// identifiers, `isReverseFormation` a boolean, `ssd` the start date; any
/// other attribute is passed over.
pub open spec fn ts_attr_step(d: TsDraftView, a: XmlAttribute) -> Result<TsDraftView, DarwinErrorView> {
    let v = a.value@;
    if a.name@ == "rid"@ {
        Ok(TsDraftView { rid: Some(v), ..d })
    } else if a.name@ == "uid"@ {
        Ok(TsDraftView { uid: Some(v), ..d })
    } else if a.name@ == "isReverseFormation"@ {
        match spec_bool_value(v) {
            Ok(b) => Ok(TsDraftView { is_reverse_formation: b, ..d }),
            Err(e) => Err(e),
        }
    } else if a.name@ == "ssd"@ {
        match spec_date_value(v) {
            Ok(x) => Ok(TsDraftView { start_date: Some(x), ..d }),
            Err(e) => Err(e),
        }
    } else {
        Ok(d)
    }
}

/// `ts_attr_step` as a reader step.
pub open spec fn ts_attr_reader() -> spec_fn(TsDraftView, XmlAttribute) -> Result<TsDraftView, DarwinErrorView> {
    |d: TsDraftView, a: XmlAttribute| ts_attr_step(d, a)
}

/// What one child of a `TS` element does: each `Location` is appended to
/// the locations; a `LateReason` is the late-running reason, a later one
/// replacing an earlier one; other elements and text are passed over.
pub open spec fn ts_child_step(d: TsDraftView, n: XmlNode) -> Result<TsDraftView, DarwinErrorView> {
    match n {
        XmlNode::Text(_) => Ok(d),
        XmlNode::Element(c) => if c.name@ == "Location"@ {
            match spec_ts_location(c) {
                Ok(x) => Ok(TsDraftView { locations: d.locations.push(x), ..d }),
                Err(e) => Err(e),
            }
        } else if c.name@ == "LateReason"@ {
            match spec_disruption_reason(c) {
                Ok(x) => Ok(TsDraftView { late_reason: Some(x), ..d }),
                Err(e) => Err(e),
            }
        } else {
            Ok(d)
        },
    }
}

/// `ts_child_step` as a reader step.
pub open spec fn ts_child_reader() -> spec_fn(TsDraftView, XmlNode) -> Result<TsDraftView, DarwinErrorView> {
    |d: TsDraftView, n: XmlNode| ts_child_step(d, n)
}

/// What a `TS` element reads as: its attributes in order, then its
/// children in order; the RID, the UID and the start date must have been
/// given, and are checked in that order.
pub open spec fn spec_ts(el: XmlElement) -> Result<TsView, DarwinErrorView> {
    match read_in_order(el.attributes@, ts_draft_default(), ts_attr_reader()) {
        Err(e) => Err(e),
        Ok(head) => match read_in_order(el.children@, head, ts_child_reader()) {
            Err(e) => Err(e),
            Ok(d) => match (d.rid, d.uid, d.start_date) {
                (None, _, _) => Err(DarwinErrorView::Missing("rid"@)),
                (Some(_), None, _) => Err(DarwinErrorView::Missing("uid"@)),
                (Some(_), Some(_), None) => Err(DarwinErrorView::Missing("start_date"@)),
                (Some(rid), Some(uid), Some(sd)) => Ok(
                    TsView {
                        late_reason: d.late_reason,
                        locations: d.locations,
                        rid,
                        uid,
                        start_date: sd,
                        is_reverse_formation: d.is_reverse_formation,
                    },
                ),
            },
        },
    }
}

fn ts_attr(a: &XmlAttribute, d: &mut TsDraft) -> (res: Result<(), DarwinError>)
    ensures
        match res {
            Ok(_) => ts_attr_step(old(d)@, *a) == Ok::<TsDraftView, DarwinErrorView>(final(d)@),
            Err(e) => ts_attr_step(old(d)@, *a) == Err::<TsDraftView, DarwinErrorView>(e@),
        },
{
    if a.is_named("rid") {
        d.rid = Some(a.value.clone());
    } else if a.is_named("uid") {
        d.uid = Some(a.value.clone());
    } else if a.is_named("isReverseFormation") {
        d.is_reverse_formation = bool_value(&a.value)?;
    } else if a.is_named("ssd") {
        d.start_date = Some(date_value(&a.value)?);
    }
    Ok(())
}

fn ts_child(n: &XmlNode, d: &mut TsDraft) -> (res: Result<(), DarwinError>)
    ensures
        match res {
            Ok(_) => ts_child_step(old(d)@, *n) == Ok::<TsDraftView, DarwinErrorView>(final(d)@),
            Err(e) => ts_child_step(old(d)@, *n) == Err::<TsDraftView, DarwinErrorView>(e@),
        },
{
    match n {
        XmlNode::Text(_) => {},
        XmlNode::Element(c) => {
            if c.is_named("Location") {
                let loc = TsLocation::from_xml_element(c)?;
                let ghost before = d.locations@;
                d.locations.push(loc);
                assert(locations_view(d.locations@) =~= locations_view(before).push(loc@));
            } else if c.is_named("LateReason") {
                d.late_reason = Some(DisruptionReason::from_xml_element(c)?);
            }
        },
    }
    Ok(())
}

impl Ts {
    /// Reads a `TS` (train status) element.
    pub fn from_xml_element(el: &XmlElement) -> (res: Result<Ts, DarwinError>)
        ensures
            view_result(res) == spec_ts(*el),
    {
        let ghost attrs = el.attributes@;
        let ghost kids = el.children@;
        let mut d = TsDraft {
            late_reason: None,
            locations: Vec::new(),
            rid: None,
            uid: None,
            start_date: None,
            is_reverse_formation: false,
        };
        assert(d@.locations =~= Seq::<TsLocationView>::empty());
        let n = el.attributes.len();
        let mut i: usize = 0;
        while i < n
            invariant
                attrs == el.attributes@,
                n == attrs.len(),
                i <= n,
                read_in_order(attrs.subrange(0, i as int), ts_draft_default(), ts_attr_reader())
                    == Ok::<TsDraftView, DarwinErrorView>(d@),
            decreases n - i,
        {
            proof {
                lemma_read_in_order_next(attrs, ts_draft_default(), ts_attr_reader(), i as int);
            }
            match ts_attr(&el.attributes[i], &mut d) {
                Ok(_) => {},
                Err(e) => {
                    proof {
                        lemma_read_in_order_failed_prefix(attrs, ts_draft_default(), ts_attr_reader(), i + 1);
                    }
                    return Err(e);
                },
            }
            i = i + 1;
        }
        assert(attrs.subrange(0, n as int) =~= attrs);
        let ghost head = d@;
        let m = el.children.len();
        let mut j: usize = 0;
        while j < m
            invariant
                kids == el.children@,
                attrs == el.attributes@,
                read_in_order(attrs, ts_draft_default(), ts_attr_reader())
                    == Ok::<TsDraftView, DarwinErrorView>(head),
                m == kids.len(),
                j <= m,
                read_in_order(kids.subrange(0, j as int), head, ts_child_reader())
                    == Ok::<TsDraftView, DarwinErrorView>(d@),
            decreases m - j,
        {
            proof {
                lemma_read_in_order_next(kids, head, ts_child_reader(), j as int);
            }
            match ts_child(&el.children[j], &mut d) {
                Ok(_) => {},
                Err(e) => {
                    proof {
                        lemma_read_in_order_failed_prefix(kids, head, ts_child_reader(), j + 1);
                    }
                    return Err(e);
                },
            }
            j = j + 1;
        }
        assert(kids.subrange(0, m as int) =~= kids);
        let TsDraft { late_reason, locations, rid, uid, start_date, is_reverse_formation } = d;
        match rid {
            None => Err(DarwinError::Missing("rid")),
            Some(rid) => match uid {
                None => Err(DarwinError::Missing("uid")),
                Some(uid) => match start_date {
                    None => Err(DarwinError::Missing("start_date")),
                    Some(start_date) => Ok(
                        Ts { late_reason, locations, rid, uid, start_date, is_reverse_formation },
                    ),
                },
            },
        }
    }
}

} // verus!

verus! {

/// The attributes name no platform source.
pub open spec fn no_attr_named(attrs: Seq<XmlAttribute>, name: Seq<char>) -> bool {
    forall|i: int| 0 <= i < attrs.len() ==> (#[trigger] attrs[i]).name@ != name
}

/// The children hold no element of this name.
pub open spec fn no_child_named(kids: Seq<XmlNode>, name: Seq<char>) -> bool {
    forall|i: int| 0 <= i < kids.len() ==> !(#[trigger] kids[i] matches XmlNode::Element(c) && c.name@ == name)
}

proof fn lemma_platform_flags_keep_source(attrs: Seq<XmlAttribute>)
    requires
        no_attr_named(attrs, "platsrc"@),
    ensures
        read_in_order(attrs, platform_flags_default(), platform_attr_reader()) matches Ok(f)
            ==> f.platsrc == PlatformSource::Planned,
    decreases attrs.len(),
{
    if attrs.len() > 0 {
        assert(no_attr_named(attrs.drop_last(), "platsrc"@)) by {
            assert forall|i: int| 0 <= i < attrs.drop_last().len() implies (#[trigger] attrs.drop_last()[i]).name@
                != "platsrc"@ by {
                assert(attrs.drop_last()[i] == attrs[i]);
            }
        }
        lemma_platform_flags_keep_source(attrs.drop_last());
        assert(attrs[attrs.len() - 1].name@ != "platsrc"@);
    }
}

/// A platform whose source is not given is taken to be planned: the same
/// source that `PlatformSource::default` gives.
pub proof fn lemma_platform_source_default(el: XmlElement)
    requires
        no_attr_named(el.attributes@, "platsrc"@),
    ensures
        spec_platform_data(el) matches Ok(p) ==> p.platsrc == PlatformSource::Planned,
{
    lemma_platform_flags_keep_source(el.attributes@);
}

proof fn lemma_location_children_keep_length(kids: Seq<XmlNode>, head: TsLocationDraftView)
    requires
        no_child_named(kids, "length"@),
    ensures
        read_in_order(kids, head, location_child_reader()) matches Ok(d) ==> d.length == head.length,
    decreases kids.len(),
{
    if kids.len() > 0 {
        assert(no_child_named(kids.drop_last(), "length"@)) by {
            assert forall|i: int| 0 <= i < kids.drop_last().len() implies !(#[trigger] kids.drop_last()[i] matches XmlNode::Element(
                c,
            ) && c.name@ == "length"@) by {
                assert(kids.drop_last()[i] == kids[i]);
            }
        }
        lemma_location_children_keep_length(kids.drop_last(), head);
        let last = kids[kids.len() - 1];
        assert(!(last matches XmlNode::Element(c) && c.name@ == "length"@));
    }
}

proof fn lemma_location_attrs_keep_length(attrs: Seq<XmlAttribute>)
    ensures
        read_in_order(attrs, ts_location_draft_default(), location_attr_reader()) matches Ok(d)
            ==> d.length == 0,
    decreases attrs.len(),
{
    if attrs.len() > 0 {
        lemma_location_attrs_keep_length(attrs.drop_last());
    }
}

/// A location whose length is not given has length zero, which stands for
/// an unknown length.
pub proof fn lemma_location_length_unknown(el: XmlElement)
    requires
        no_child_named(el.children@, "length"@),
    ensures
        spec_ts_location(el) matches Ok(l) ==> l.length == 0,
{
    lemma_location_attrs_keep_length(el.attributes@);
    if let Ok(head) = read_in_order(el.attributes@, ts_location_draft_default(), location_attr_reader()) {
        lemma_location_children_keep_length(el.children@, head);
    }
}

} // verus!
