//! What the Darwin readers give, field by field, in terms of the element
//! read: each field comes from the last attribute or child of its own name,
//! or takes its default where there is none.

use vstd::prelude::*;
use crate::forecasts::{
    location_attr_reader, location_attr_step, location_child_reader, location_child_step,
    platform_attr_reader, platform_attr_step, platform_flags_default, reason_attr_reader,
    reason_attr_step, spec_platform_source, PlatformFlags, PlatformSource,
    spec_bool_element, spec_disruption_reason, spec_platform_data, spec_ts, spec_ts_location,
    spec_ts_time_data, spec_u32_element, ts_attr_reader, ts_attr_step, ts_child_reader, ts_child_step,
    ts_draft_default, ts_location_draft_default, ts_time_attr_reader, ts_time_attr_step,
    ts_time_data_default, CircularTimes, DisruptionReasonView, PlatformDataView, TsDraftView,
    TsLocationDraftView, TsLocationView, TsTimeDataView, TsView,
};
use crate::errors::DarwinErrorView;
use crate::text::{spec_parse_bool, spec_parse_u32};
use crate::time::{spec_parse_date, spec_parse_time, Date, Time};
use crate::xml::{
    last_text, children_named, last_attr, last_child, read_in_order, XmlAttribute, XmlElement, XmlNode,
};

verus! {

/// `b` is the flag the attributes give under `name`: the value of the last
/// such attribute, false where there is none.
pub open spec fn flag_from(attrs: Seq<XmlAttribute>, name: Seq<char>, b: bool) -> bool {
    match last_attr(attrs, name) {
        None => !b,
        Some(a) => spec_parse_bool(a.value@) == Some(b),
    }
}

/// `t` is the time the attributes give under `name`: that of the last such
/// attribute, none where there is none.
pub open spec fn time_from(attrs: Seq<XmlAttribute>, name: Seq<char>, t: Option<Time>) -> bool {
    match last_attr(attrs, name) {
        None => t is None,
        Some(a) => t is Some && spec_parse_time(a.value@) == t,
    }
}

/// `s` is the text the attributes give under `name`: the value of the last
/// such attribute, none where there is none.
pub open spec fn text_from(attrs: Seq<XmlAttribute>, name: Seq<char>, s: Option<Seq<char>>) -> bool {
    match last_attr(attrs, name) {
        None => s is None,
        Some(a) => s == Some(a.value@),
    }
}

/// Every field of a forecast comes from the attribute of its name.
pub open spec fn ts_time_data_from(attrs: Seq<XmlAttribute>, d: TsTimeDataView) -> bool {
    &&& time_from(attrs, "et"@, d.et)
    &&& time_from(attrs, "wet"@, d.wet)
    &&& time_from(attrs, "at"@, d.at)
    &&& flag_from(attrs, "atRemoved"@, d.at_removed)
    &&& time_from(attrs, "etmin"@, d.etmin)
    &&& flag_from(attrs, "etUnknown"@, d.et_unknown)
    &&& flag_from(attrs, "delayed"@, d.delayed)
    &&& text_from(attrs, "src"@, d.src)
    &&& text_from(attrs, "srcInst"@, d.src_inst)
    &&& text_from(attrs, "atClass"@, d.at_class)
}

/// After reading attribute `a`, a time field named `name` holds the time
/// that `a` gives if `a` has that name, and is unchanged otherwise.
pub open spec fn time_field_step(a: XmlAttribute, name: Seq<char>, before: Option<Time>, after: Option<Time>) -> bool {
    if a.name@ == name {
        after is Some && after == spec_parse_time(a.value@)
    } else {
        after == before
    }
}

/// After reading attribute `a`, a flag named `name` holds the boolean that
/// `a` gives if `a` has that name, and is unchanged otherwise.
pub open spec fn flag_field_step(a: XmlAttribute, name: Seq<char>, before: bool, after: bool) -> bool {
    if a.name@ == name {
        spec_parse_bool(a.value@) == Some(after)
    } else {
        after == before
    }
}

/// After reading attribute `a`, a text field named `name` holds the value
/// of `a` if `a` has that name, and is unchanged otherwise.
pub open spec fn text_field_step(
    a: XmlAttribute,
    name: Seq<char>,
    before: Option<Seq<char>>,
    after: Option<Seq<char>>,
) -> bool {
    if a.name@ == name {
        after == Some(a.value@)
    } else {
        after == before
    }
}

proof fn lemma_time_from_next(attrs: Seq<XmlAttribute>, name: Seq<char>, before: Option<Time>, after: Option<Time>)
    requires
        attrs.len() > 0,
        time_from(attrs.drop_last(), name, before),
        time_field_step(attrs.last(), name, before, after),
    ensures
        time_from(attrs, name, after),
{
}

proof fn lemma_flag_from_next(attrs: Seq<XmlAttribute>, name: Seq<char>, before: bool, after: bool)
    requires
        attrs.len() > 0,
        flag_from(attrs.drop_last(), name, before),
        flag_field_step(attrs.last(), name, before, after),
    ensures
        flag_from(attrs, name, after),
{
}

proof fn lemma_text_from_next(
    attrs: Seq<XmlAttribute>,
    name: Seq<char>,
    before: Option<Seq<char>>,
    after: Option<Seq<char>>,
)
    requires
        attrs.len() > 0,
        text_from(attrs.drop_last(), name, before),
        text_field_step(attrs.last(), name, before, after),
    ensures
        text_from(attrs, name, after),
{
}

proof fn lemma_ts_time_names_distinct()
    ensures
        "et"@.len() == 2 && "et"@[0] == 'e',
        "at"@.len() == 2 && "at"@[0] == 'a',
        "wet"@.len() == 3 && "wet"@[0] == 'w',
        "src"@.len() == 3 && "src"@[0] == 's',
        "etmin"@.len() == 5,
        "delayed"@.len() == 7 && "delayed"@[0] == 'd',
        "srcInst"@.len() == 7 && "srcInst"@[0] == 's',
        "atClass"@.len() == 7 && "atClass"@[0] == 'a',
        "atRemoved"@.len() == 9 && "atRemoved"@[0] == 'a',
        "etUnknown"@.len() == 9 && "etUnknown"@[0] == 'e',
{
    reveal_strlit("et");
    reveal_strlit("wet");
    reveal_strlit("at");
    reveal_strlit("atRemoved");
    reveal_strlit("etmin");
    reveal_strlit("etUnknown");
    reveal_strlit("delayed");
    reveal_strlit("src");
    reveal_strlit("srcInst");
    reveal_strlit("atClass");
}

proof fn lemma_ts_time_step(d: TsTimeDataView, a: XmlAttribute)
    ensures
        ts_time_attr_step(d, a) matches Ok(d2) ==> {
            &&& time_field_step(a, "et"@, d.et, d2.et)
            &&& time_field_step(a, "wet"@, d.wet, d2.wet)
            &&& time_field_step(a, "at"@, d.at, d2.at)
            &&& time_field_step(a, "etmin"@, d.etmin, d2.etmin)
            &&& flag_field_step(a, "atRemoved"@, d.at_removed, d2.at_removed)
            &&& flag_field_step(a, "etUnknown"@, d.et_unknown, d2.et_unknown)
            &&& flag_field_step(a, "delayed"@, d.delayed, d2.delayed)
            &&& text_field_step(a, "src"@, d.src, d2.src)
            &&& text_field_step(a, "srcInst"@, d.src_inst, d2.src_inst)
            &&& text_field_step(a, "atClass"@, d.at_class, d2.at_class)
        },
{
    lemma_ts_time_names_distinct();
}

proof fn lemma_ts_time_attrs(attrs: Seq<XmlAttribute>)
    ensures
        read_in_order(attrs, ts_time_data_default(), ts_time_attr_reader()) matches Ok(d)
            ==> ts_time_data_from(attrs, d),
    decreases attrs.len(),
{
    if attrs.len() > 0 {
        let pre = attrs.drop_last();
        let a = attrs.last();
        lemma_ts_time_attrs(pre);
        if let Ok(d) = read_in_order(attrs, ts_time_data_default(), ts_time_attr_reader()) {
            let d0 = read_in_order(pre, ts_time_data_default(), ts_time_attr_reader())->Ok_0;
            assert(ts_time_attr_step(d0, a) == Ok::<TsTimeDataView, DarwinErrorView>(d));
            lemma_ts_time_step(d0, a);
            lemma_time_from_next(attrs, "et"@, d0.et, d.et);
            lemma_time_from_next(attrs, "wet"@, d0.wet, d.wet);
            lemma_time_from_next(attrs, "at"@, d0.at, d.at);
            lemma_time_from_next(attrs, "etmin"@, d0.etmin, d.etmin);
            lemma_flag_from_next(attrs, "atRemoved"@, d0.at_removed, d.at_removed);
            lemma_flag_from_next(attrs, "etUnknown"@, d0.et_unknown, d.et_unknown);
            lemma_flag_from_next(attrs, "delayed"@, d0.delayed, d.delayed);
            lemma_text_from_next(attrs, "src"@, d0.src, d.src);
            lemma_text_from_next(attrs, "srcInst"@, d0.src_inst, d.src_inst);
            lemma_text_from_next(attrs, "atClass"@, d0.at_class, d.at_class);
        }
    }
}

/// Reading an `arr`, `dep` or `pass` element: each of its fields is given
/// by the last attribute of its own name (`et`, `wet`, `at`, `etmin` times;
/// `atRemoved`, `etUnknown`, `delayed` flags; `src`, `srcInst`, `atClass`
/// texts), and is absent or false where there is none.
pub proof fn lemma_ts_time_data_fields(el: XmlElement)
    ensures
        spec_ts_time_data(el) matches Ok(d) ==> ts_time_data_from(el.attributes@, d),
{
    lemma_ts_time_attrs(el.attributes@);
}

/// `x` is what the children give under `name`: what the last child element
/// of that name reads as (by `read`), or `dflt` where there is none.
pub open spec fn child_from<T>(
    kids: Seq<XmlNode>,
    name: Seq<char>,
    x: T,
    dflt: T,
    read: spec_fn(XmlElement, T) -> bool,
) -> bool {
    match last_child(kids, name) {
        None => x == dflt,
        Some(c) => read(c, x),
    }
}

/// After reading child `n`, a field taken from children named `name` holds
/// what `n` reads as if it is such an element, and is unchanged otherwise.
pub open spec fn child_field_step<T>(
    n: XmlNode,
    name: Seq<char>,
    before: T,
    after: T,
    read: spec_fn(XmlElement, T) -> bool,
) -> bool {
    match n {
        XmlNode::Element(c) => if c.name@ == name {
            read(c, after)
        } else {
            after == before
        },
        XmlNode::Text(_) => after == before,
    }
}

proof fn lemma_child_from_next<T>(
    kids: Seq<XmlNode>,
    name: Seq<char>,
    before: T,
    after: T,
    dflt: T,
    read: spec_fn(XmlElement, T) -> bool,
)
    requires
        kids.len() > 0,
        child_from(kids.drop_last(), name, before, dflt, read),
        child_field_step(kids.last(), name, before, after, read),
    ensures
        child_from(kids, name, after, dflt, read),
{
}

/// An `arr`, `dep` or `pass` child read as the forecast `x`.
pub open spec fn forecast_reader() -> spec_fn(XmlElement, Option<TsTimeDataView>) -> bool {
    |c: XmlElement, x: Option<TsTimeDataView>| spec_ts_time_data(c) matches Ok(t) && x == Some(t)
}

/// A `plat` child read as the platform `x`.
pub open spec fn platform_reader() -> spec_fn(XmlElement, Option<PlatformDataView>) -> bool {
    |c: XmlElement, x: Option<PlatformDataView>| spec_platform_data(c) matches Ok(p) && x == Some(p)
}

/// A child whose text reads as the boolean `b`.
pub open spec fn flag_element_reader() -> spec_fn(XmlElement, bool) -> bool {
    |c: XmlElement, b: bool| spec_bool_element(c) == Ok::<bool, DarwinErrorView>(b)
}

/// A child whose text reads as the number `n`.
pub open spec fn number_element_reader() -> spec_fn(XmlElement, u32) -> bool {
    |c: XmlElement, n: u32| spec_u32_element(c) == Ok::<u32, DarwinErrorView>(n)
}

/// Every scheduled time of a location comes from the attribute of its name.
pub open spec fn timings_from(attrs: Seq<XmlAttribute>, t: CircularTimes) -> bool {
    &&& time_from(attrs, "wta"@, t.wta)
    &&& time_from(attrs, "wtd"@, t.wtd)
    &&& time_from(attrs, "wtp"@, t.wtp)
    &&& time_from(attrs, "pta"@, t.pta)
    &&& time_from(attrs, "ptd"@, t.ptd)
}

/// Every field of a location comes from the attribute or the last child of
/// its name, or takes its default where there is none.
pub open spec fn ts_location_from(el: XmlElement, l: TsLocationView) -> bool {
    let attrs = el.attributes@;
    let kids = el.children@;
    &&& text_from(attrs, "tpl"@, Some(l.tiploc))
    &&& timings_from(attrs, l.timings)
    &&& child_from(kids, "arr"@, l.arr, None, forecast_reader())
    &&& child_from(kids, "dep"@, l.dep, None, forecast_reader())
    &&& child_from(kids, "pass"@, l.pass, None, forecast_reader())
    &&& child_from(kids, "plat"@, l.plat, None, platform_reader())
    &&& child_from(kids, "suppr"@, l.suppr, false, flag_element_reader())
    &&& child_from(kids, "detachFront"@, l.detach_front, false, flag_element_reader())
    &&& child_from(kids, "length"@, l.length, 0u32, number_element_reader())
}

proof fn lemma_location_names_distinct()
    ensures
        "tpl"@.len() == 3 && "tpl"@[0] == 't' && "tpl"@[2] == 'l',
        "wta"@.len() == 3 && "wta"@[0] == 'w' && "wta"@[2] == 'a',
        "wtd"@.len() == 3 && "wtd"@[0] == 'w' && "wtd"@[2] == 'd',
        "wtp"@.len() == 3 && "wtp"@[0] == 'w' && "wtp"@[2] == 'p',
        "pta"@.len() == 3 && "pta"@[0] == 'p' && "pta"@[2] == 'a',
        "ptd"@.len() == 3 && "ptd"@[0] == 'p' && "ptd"@[2] == 'd',
        "arr"@.len() == 3 && "arr"@[0] == 'a',
        "dep"@.len() == 3 && "dep"@[0] == 'd',
        "pass"@.len() == 4 && "pass"@[1] == 'a',
        "plat"@.len() == 4 && "plat"@[1] == 'l',
        "suppr"@.len() == 5,
        "length"@.len() == 6,
        "detachFront"@.len() == 11,
{
    reveal_strlit("tpl");
    reveal_strlit("wta");
    reveal_strlit("wtd");
    reveal_strlit("wtp");
    reveal_strlit("pta");
    reveal_strlit("ptd");
    reveal_strlit("arr");
    reveal_strlit("dep");
    reveal_strlit("pass");
    reveal_strlit("plat");
    reveal_strlit("suppr");
    reveal_strlit("length");
    reveal_strlit("detachFront");
}

proof fn lemma_location_attr_step(d: TsLocationDraftView, a: XmlAttribute)
    ensures
        location_attr_step(d, a) matches Ok(d2) ==> {
            &&& text_field_step(a, "tpl"@, d.tiploc, d2.tiploc)
            &&& time_field_step(a, "wta"@, d.timings.wta, d2.timings.wta)
            &&& time_field_step(a, "wtd"@, d.timings.wtd, d2.timings.wtd)
            &&& time_field_step(a, "wtp"@, d.timings.wtp, d2.timings.wtp)
            &&& time_field_step(a, "pta"@, d.timings.pta, d2.timings.pta)
            &&& time_field_step(a, "ptd"@, d.timings.ptd, d2.timings.ptd)
            &&& d2.arr == d.arr && d2.dep == d.dep && d2.pass == d.pass && d2.plat == d.plat
            &&& d2.suppr == d.suppr && d2.length == d.length && d2.detach_front == d.detach_front
        },
{
    lemma_location_names_distinct();
}

/// A location's head: what its attributes give.
spec fn location_head_from(attrs: Seq<XmlAttribute>, h: TsLocationDraftView) -> bool {
    &&& text_from(attrs, "tpl"@, h.tiploc)
    &&& timings_from(attrs, h.timings)
    &&& h.arr is None && h.dep is None && h.pass is None && h.plat is None
    &&& !h.suppr && h.length == 0 && !h.detach_front
}

proof fn lemma_location_attrs(attrs: Seq<XmlAttribute>)
    ensures
        read_in_order(attrs, ts_location_draft_default(), location_attr_reader()) matches Ok(h)
            ==> location_head_from(attrs, h),
    decreases attrs.len(),
{
    if attrs.len() > 0 {
        let pre = attrs.drop_last();
        let a = attrs.last();
        lemma_location_attrs(pre);
        if let Ok(h) = read_in_order(attrs, ts_location_draft_default(), location_attr_reader()) {
            let h0 = read_in_order(pre, ts_location_draft_default(), location_attr_reader())->Ok_0;
            assert(location_attr_step(h0, a) == Ok::<TsLocationDraftView, DarwinErrorView>(h));
            lemma_location_attr_step(h0, a);
            lemma_text_from_next(attrs, "tpl"@, h0.tiploc, h.tiploc);
            lemma_time_from_next(attrs, "wta"@, h0.timings.wta, h.timings.wta);
            lemma_time_from_next(attrs, "wtd"@, h0.timings.wtd, h.timings.wtd);
            lemma_time_from_next(attrs, "wtp"@, h0.timings.wtp, h.timings.wtp);
            lemma_time_from_next(attrs, "pta"@, h0.timings.pta, h.timings.pta);
            lemma_time_from_next(attrs, "ptd"@, h0.timings.ptd, h.timings.ptd);
        }
    }
}

proof fn lemma_location_child_step(d: TsLocationDraftView, n: XmlNode)
    ensures
        location_child_step(d, n) matches Ok(d2) ==> {
            &&& d2.tiploc == d.tiploc && d2.timings == d.timings
            &&& child_field_step(n, "arr"@, d.arr, d2.arr, forecast_reader())
            &&& child_field_step(n, "dep"@, d.dep, d2.dep, forecast_reader())
            &&& child_field_step(n, "pass"@, d.pass, d2.pass, forecast_reader())
            &&& child_field_step(n, "plat"@, d.plat, d2.plat, platform_reader())
            &&& child_field_step(n, "suppr"@, d.suppr, d2.suppr, flag_element_reader())
            &&& child_field_step(n, "detachFront"@, d.detach_front, d2.detach_front, flag_element_reader())
            &&& child_field_step(n, "length"@, d.length, d2.length, number_element_reader())
        },
{
    lemma_location_names_distinct();
}

proof fn lemma_location_children(kids: Seq<XmlNode>, head: TsLocationDraftView)
    ensures
        read_in_order(kids, head, location_child_reader()) matches Ok(d) ==> {
            &&& d.tiploc == head.tiploc && d.timings == head.timings
            &&& child_from(kids, "arr"@, d.arr, head.arr, forecast_reader())
            &&& child_from(kids, "dep"@, d.dep, head.dep, forecast_reader())
            &&& child_from(kids, "pass"@, d.pass, head.pass, forecast_reader())
            &&& child_from(kids, "plat"@, d.plat, head.plat, platform_reader())
            &&& child_from(kids, "suppr"@, d.suppr, head.suppr, flag_element_reader())
            &&& child_from(kids, "detachFront"@, d.detach_front, head.detach_front, flag_element_reader())
            &&& child_from(kids, "length"@, d.length, head.length, number_element_reader())
        },
    decreases kids.len(),
{
    if kids.len() > 0 {
        let pre = kids.drop_last();
        let n = kids.last();
        lemma_location_children(pre, head);
        if let Ok(d) = read_in_order(kids, head, location_child_reader()) {
            let d0 = read_in_order(pre, head, location_child_reader())->Ok_0;
            assert(location_child_step(d0, n) == Ok::<TsLocationDraftView, DarwinErrorView>(d));
            lemma_location_child_step(d0, n);
            lemma_child_from_next(kids, "arr"@, d0.arr, d.arr, head.arr, forecast_reader());
            lemma_child_from_next(kids, "dep"@, d0.dep, d.dep, head.dep, forecast_reader());
            lemma_child_from_next(kids, "pass"@, d0.pass, d.pass, head.pass, forecast_reader());
            lemma_child_from_next(kids, "plat"@, d0.plat, d.plat, head.plat, platform_reader());
            lemma_child_from_next(kids, "suppr"@, d0.suppr, d.suppr, head.suppr, flag_element_reader());
            lemma_child_from_next(
                kids,
                "detachFront"@,
                d0.detach_front,
                d.detach_front,
                head.detach_front,
                flag_element_reader(),
            );
            lemma_child_from_next(kids, "length"@, d0.length, d.length, head.length, number_element_reader());
        }
    }
}

/// Reading a `Location` element: the TIPLOC is the last `tpl` attribute;
/// each scheduled time (`wta`, `wtd`, `wtp`, `pta`, `ptd`) is given by the
/// last attribute of its own name and is absent where there is none; each
/// of the forecasts `arr`, `dep`, `pass`, the platform `plat`, the flags
/// `suppr` and `detachFront` and the `length` is what the last child
/// element of its name reads as, and absent, false or zero where there is
/// none.
pub proof fn lemma_ts_location_fields(el: XmlElement)
    ensures
        spec_ts_location(el) matches Ok(l) ==> ts_location_from(el, l),
{
    lemma_location_attrs(el.attributes@);
    if let Ok(head) = read_in_order(el.attributes@, ts_location_draft_default(), location_attr_reader()) {
        lemma_location_children(el.children@, head);
    }
}

/// `t` is the date the attributes give under `name`: that of the last such
/// attribute, none where there is none.
pub open spec fn date_from(attrs: Seq<XmlAttribute>, name: Seq<char>, t: Option<Date>) -> bool {
    match last_attr(attrs, name) {
        None => t is None,
        Some(a) => t is Some && spec_parse_date(a.value@) == t,
    }
}

/// After reading attribute `a`, a date field named `name` holds the date
/// that `a` gives if `a` has that name, and is unchanged otherwise.
pub open spec fn date_field_step(a: XmlAttribute, name: Seq<char>, before: Option<Date>, after: Option<Date>) -> bool {
    if a.name@ == name {
        after is Some && after == spec_parse_date(a.value@)
    } else {
        after == before
    }
}

proof fn lemma_date_from_next(attrs: Seq<XmlAttribute>, name: Seq<char>, before: Option<Date>, after: Option<Date>)
    requires
        attrs.len() > 0,
        date_from(attrs.drop_last(), name, before),
        date_field_step(attrs.last(), name, before, after),
    ensures
        date_from(attrs, name, after),
{
}

/// A reason child read as the reason `x`.
pub open spec fn reason_reader() -> spec_fn(XmlElement, Option<DisruptionReasonView>) -> bool {
    |c: XmlElement, x: Option<DisruptionReasonView>| spec_disruption_reason(c) matches Ok(r) && x == Some(r)
}

/// `ls` are the `Location` children, each as it reads, in document order.
pub open spec fn locations_from(kids: Seq<XmlNode>, ls: Seq<TsLocationView>) -> bool {
    let cs = children_named(kids, "Location"@);
    &&& ls.len() == cs.len()
    &&& forall|i: int| 0 <= i < ls.len() ==> spec_ts_location(#[trigger] cs[i]) == Ok::<TsLocationView, DarwinErrorView>(ls[i])
}

/// After reading child `n`, the locations gain what `n` reads as if it is a
/// `Location` element, and are unchanged otherwise.
pub open spec fn locations_step(n: XmlNode, before: Seq<TsLocationView>, after: Seq<TsLocationView>) -> bool {
    match n {
        XmlNode::Element(c) => if c.name@ == "Location"@ {
            spec_ts_location(c) matches Ok(l) && after == before.push(l)
        } else {
            after == before
        },
        XmlNode::Text(_) => after == before,
    }
}

proof fn lemma_locations_from_next(kids: Seq<XmlNode>, before: Seq<TsLocationView>, after: Seq<TsLocationView>)
    requires
        kids.len() > 0,
        locations_from(kids.drop_last(), before),
        locations_step(kids.last(), before, after),
    ensures
        locations_from(kids, after),
{
    let pre = children_named(kids.drop_last(), "Location"@);
    let cs = children_named(kids, "Location"@);
    if let XmlNode::Element(c) = kids.last() {
        if c.name@ == "Location"@ {
            assert(cs == pre.push(c));
            assert forall|i: int| 0 <= i < after.len() implies spec_ts_location(#[trigger] cs[i])
                == Ok::<TsLocationView, DarwinErrorView>(after[i]) by {
                if i < before.len() {
                    assert(cs[i] == pre[i]);
                    assert(after[i] == before[i]);
                }
            }
        }
    }
}

/// Every field of a train status comes from the attribute or the children
/// of its name.
pub open spec fn ts_from(el: XmlElement, v: TsView) -> bool {
    let attrs = el.attributes@;
    let kids = el.children@;
    &&& text_from(attrs, "rid"@, Some(v.rid))
    &&& text_from(attrs, "uid"@, Some(v.uid))
    &&& date_from(attrs, "ssd"@, Some(v.start_date))
    &&& flag_from(attrs, "isReverseFormation"@, v.is_reverse_formation)
    &&& child_from(kids, "LateReason"@, v.late_reason, None, reason_reader())
    &&& locations_from(kids, v.locations)
}

proof fn lemma_ts_names_distinct()
    ensures
        "rid"@.len() == 3 && "rid"@[0] == 'r',
        "uid"@.len() == 3 && "uid"@[0] == 'u',
        "ssd"@.len() == 3 && "ssd"@[0] == 's',
        "isReverseFormation"@.len() == 18,
        "Location"@.len() == 8,
        "LateReason"@.len() == 10,
{
    reveal_strlit("rid");
    reveal_strlit("uid");
    reveal_strlit("ssd");
    reveal_strlit("isReverseFormation");
    reveal_strlit("Location");
    reveal_strlit("LateReason");
}

proof fn lemma_ts_attr_step(d: TsDraftView, a: XmlAttribute)
    ensures
        ts_attr_step(d, a) matches Ok(d2) ==> {
            &&& text_field_step(a, "rid"@, d.rid, d2.rid)
            &&& text_field_step(a, "uid"@, d.uid, d2.uid)
            &&& date_field_step(a, "ssd"@, d.start_date, d2.start_date)
            &&& flag_field_step(a, "isReverseFormation"@, d.is_reverse_formation, d2.is_reverse_formation)
            &&& d2.late_reason == d.late_reason && d2.locations == d.locations
        },
{
    lemma_ts_names_distinct();
}

/// A train status's head: what its attributes give.
spec fn ts_head_from(attrs: Seq<XmlAttribute>, h: TsDraftView) -> bool {
    &&& text_from(attrs, "rid"@, h.rid)
    &&& text_from(attrs, "uid"@, h.uid)
    &&& date_from(attrs, "ssd"@, h.start_date)
    &&& flag_from(attrs, "isReverseFormation"@, h.is_reverse_formation)
    &&& h.late_reason is None && h.locations.len() == 0
}

proof fn lemma_ts_attrs(attrs: Seq<XmlAttribute>)
    ensures
        read_in_order(attrs, ts_draft_default(), ts_attr_reader()) matches Ok(h) ==> ts_head_from(attrs, h),
    decreases attrs.len(),
{
    if attrs.len() > 0 {
        let pre = attrs.drop_last();
        let a = attrs.last();
        lemma_ts_attrs(pre);
        if let Ok(h) = read_in_order(attrs, ts_draft_default(), ts_attr_reader()) {
            let h0 = read_in_order(pre, ts_draft_default(), ts_attr_reader())->Ok_0;
            assert(ts_attr_step(h0, a) == Ok::<TsDraftView, DarwinErrorView>(h));
            lemma_ts_attr_step(h0, a);
            lemma_text_from_next(attrs, "rid"@, h0.rid, h.rid);
            lemma_text_from_next(attrs, "uid"@, h0.uid, h.uid);
            lemma_date_from_next(attrs, "ssd"@, h0.start_date, h.start_date);
            lemma_flag_from_next(attrs, "isReverseFormation"@, h0.is_reverse_formation, h.is_reverse_formation);
        }
    }
}

proof fn lemma_ts_child_step(d: TsDraftView, n: XmlNode)
    ensures
        ts_child_step(d, n) matches Ok(d2) ==> {
            &&& d2.rid == d.rid && d2.uid == d.uid && d2.start_date == d.start_date
            &&& d2.is_reverse_formation == d.is_reverse_formation
            &&& child_field_step(n, "LateReason"@, d.late_reason, d2.late_reason, reason_reader())
            &&& locations_step(n, d.locations, d2.locations)
        },
{
    lemma_ts_names_distinct();
}

proof fn lemma_ts_children(kids: Seq<XmlNode>, head: TsDraftView)
    requires
        head.late_reason is None,
        head.locations.len() == 0,
    ensures
        read_in_order(kids, head, ts_child_reader()) matches Ok(d) ==> {
            &&& d.rid == head.rid && d.uid == head.uid && d.start_date == head.start_date
            &&& d.is_reverse_formation == head.is_reverse_formation
            &&& child_from(kids, "LateReason"@, d.late_reason, None, reason_reader())
            &&& locations_from(kids, d.locations)
        },
    decreases kids.len(),
{
    if kids.len() > 0 {
        let pre = kids.drop_last();
        let n = kids.last();
        lemma_ts_children(pre, head);
        if let Ok(d) = read_in_order(kids, head, ts_child_reader()) {
            let d0 = read_in_order(pre, head, ts_child_reader())->Ok_0;
            assert(ts_child_step(d0, n) == Ok::<TsDraftView, DarwinErrorView>(d));
            lemma_ts_child_step(d0, n);
            lemma_child_from_next(kids, "LateReason"@, d0.late_reason, d.late_reason, None, reason_reader());
            lemma_locations_from_next(kids, d0.locations, d.locations);
        }
    }
}

/// Reading a `TS` element: the RID, the UID, the start date (`ssd`) and the
/// reverse-formation flag are given by the last attribute of their names;
/// the late-running reason is what the last `LateReason` child reads as,
/// whatever attributes it carries, and absent where there is none; the
/// locations are the `Location` children, each as it reads, all of them
/// and in document order.
pub proof fn lemma_ts_fields(el: XmlElement)
    ensures
        spec_ts(el) matches Ok(v) ==> ts_from(el, v),
{
    lemma_ts_attrs(el.attributes@);
    if let Ok(head) = read_in_order(el.attributes@, ts_draft_default(), ts_attr_reader()) {
        assert(children_named(Seq::<XmlNode>::empty(), "Location"@).len() == 0);
        lemma_ts_children(el.children@, head);
    }
}

/// `p` is the platform source the attributes give under `name`: that of the
/// last such attribute, planned where there is none.
pub open spec fn source_from(attrs: Seq<XmlAttribute>, name: Seq<char>, p: PlatformSource) -> bool {
    match last_attr(attrs, name) {
        None => p == PlatformSource::Planned,
        Some(a) => spec_platform_source(a.value@) == Some(p),
    }
}

/// Every field of a platform comes from the attribute of its name; the
/// number is the element's text.
pub open spec fn platform_from(el: XmlElement, p: PlatformDataView) -> bool {
    let attrs = el.attributes@;
    &&& last_text(el.children@) == Some(p.platform)
    &&& flag_from(attrs, "platsup"@, p.platsup)
    &&& flag_from(attrs, "cisPlatsup"@, p.cis_platsup)
    &&& flag_from(attrs, "conf"@, p.conf)
    &&& source_from(attrs, "platsrc"@, p.platsrc)
}

proof fn lemma_platform_names_distinct()
    ensures
        "platsup"@.len() == 7 && "platsup"@[4] == 's',
        "platsrc"@.len() == 7 && "platsrc"@[4] == 's' && "platsrc"@[5] == 'r',
        "conf"@.len() == 4,
        "cisPlatsup"@.len() == 10,
        "platsup"@[5] == 'u',
        "tiploc"@.len() == 6,
        "near"@.len() == 4 && "near"@[0] == 'n',
{
    reveal_strlit("platsup");
    reveal_strlit("platsrc");
    reveal_strlit("conf");
    reveal_strlit("cisPlatsup");
    reveal_strlit("tiploc");
    reveal_strlit("near");
}

proof fn lemma_platform_attrs(attrs: Seq<XmlAttribute>)
    ensures
        read_in_order(attrs, platform_flags_default(), platform_attr_reader()) matches Ok(f) ==> {
            &&& flag_from(attrs, "platsup"@, f.platsup)
            &&& flag_from(attrs, "cisPlatsup"@, f.cis_platsup)
            &&& flag_from(attrs, "conf"@, f.conf)
            &&& source_from(attrs, "platsrc"@, f.platsrc)
        },
    decreases attrs.len(),
{
    if attrs.len() > 0 {
        let pre = attrs.drop_last();
        let a = attrs.last();
        lemma_platform_attrs(pre);
        if let Ok(f) = read_in_order(attrs, platform_flags_default(), platform_attr_reader()) {
            let f0 = read_in_order(pre, platform_flags_default(), platform_attr_reader())->Ok_0;
            assert(platform_attr_step(f0, a) == Ok::<PlatformFlags, DarwinErrorView>(f));
            lemma_platform_names_distinct();
        }
    }
}

/// Reading a `plat` element: the number is its text; `platsup`,
/// `cisPlatsup` and `conf` are given by the last attribute of their names
/// and are false where there is none; the source by the last `platsrc`
/// attribute, planned where there is none.
pub proof fn lemma_platform_fields(el: XmlElement)
    ensures
        spec_platform_data(el) matches Ok(p) ==> platform_from(el, p),
{
    lemma_platform_attrs(el.attributes@);
}

proof fn lemma_reason_attrs(attrs: Seq<XmlAttribute>)
    ensures
        read_in_order(attrs, (None, false), reason_attr_reader()) matches Ok(d) ==> {
            &&& text_from(attrs, "tiploc"@, d.0)
            &&& flag_from(attrs, "near"@, d.1)
        },
    decreases attrs.len(),
{
    if attrs.len() > 0 {
        let pre = attrs.drop_last();
        let a = attrs.last();
        lemma_reason_attrs(pre);
        if let Ok(d) = read_in_order(attrs, (None, false), reason_attr_reader()) {
            let d0 = read_in_order(pre, (None, false), reason_attr_reader())->Ok_0;
            assert(reason_attr_step(d0, a) == Ok::<(Option<Seq<char>>, bool), DarwinErrorView>(d));
            lemma_platform_names_distinct();
        }
    }
}

/// Reading a reason element: the TIPLOC is the last `tiploc` attribute,
/// absent where there is none; `near` the last `near` attribute, false
/// where there is none; the code the element's text.
pub proof fn lemma_reason_fields(el: XmlElement)
    ensures
        spec_disruption_reason(el) matches Ok(r) ==> {
            &&& text_from(el.attributes@, "tiploc"@, r.tiploc)
            &&& flag_from(el.attributes@, "near"@, r.near)
            &&& last_text(el.children@) matches Some(t) && spec_parse_u32(t) == Some(r.reason)
        },
{
    lemma_reason_attrs(el.attributes@);
}

} // verus!
