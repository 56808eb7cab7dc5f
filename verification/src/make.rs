//! Decisions taken while the railway graph is built from OpenStreetMap
//! data: which nodes to make for railway lines, which level crossings to
//! make from crossing points, and which area stands for each station.
//!
//! Geometry and database work stay with the caller; items are referred to
//! here by their OSM ids, their station references, or their position in
//! what the caller read.

use vstd::prelude::*;
use std::collections::HashSet;

verus! {

broadcast use vstd::std_specs::hash::group_hash_axioms;

/// An end of a railway line.
#[derive(Clone, Copy, Debug, PartialEq, Eq, Structural)]
pub enum LineEnd {
    Start,
    End,
}

/// A node to make: at the given end of the line read at position `line`.
#[derive(Clone, Copy, Debug, PartialEq, Eq, Structural)]
pub struct NodeAt {
    pub line: usize,
    pub end: LineEnd,
}

/// The node made in position `k`: the line `k / 2`, at its start for an
/// even `k` and at its end for an odd one.
pub open spec fn node_for(k: int) -> NodeAt {
    NodeAt { line: (k / 2) as usize, end: if k % 2 == 0 { LineEnd::Start } else { LineEnd::End } }
}

/// The nodes to make for `line_count` railway lines, read in order: for
/// each line a node at its start point, then one at its end point.
pub fn make_nodes(line_count: usize) -> (res: Vec<NodeAt>)
    requires
        line_count <= usize::MAX / 2,
    ensures
        res@.len() == 2 * line_count,
        forall|k: int| 0 <= k < res@.len() ==> #[trigger] res@[k] == node_for(k),
        forall|i: int|
            0 <= i < line_count ==> #[trigger] res@[2 * i] == (NodeAt { line: i as usize, end: LineEnd::Start })
                && res@[2 * i + 1] == (NodeAt { line: i as usize, end: LineEnd::End }),
{
    let mut res: Vec<NodeAt> = Vec::new();
    let mut i: usize = 0;
    while i < line_count
        invariant
            i <= line_count,
            line_count <= usize::MAX / 2,
            res@.len() == 2 * i,
            forall|k: int| 0 <= k < res@.len() ==> #[trigger] res@[k] == node_for(k),
        decreases line_count - i,
    {
        res.push(NodeAt { line: i, end: LineEnd::Start });
        res.push(NodeAt { line: i, end: LineEnd::End });
        i = i + 1;
    }
    assert forall|i: int| 0 <= i < line_count implies #[trigger] res@[2 * i] == (NodeAt {
        line: i as usize,
        end: LineEnd::Start,
    }) && res@[2 * i + 1] == (NodeAt { line: i as usize, end: LineEnd::End }) by {
        assert(res@[2 * i] == node_for(2 * i));
        assert(res@[2 * i + 1] == node_for(2 * i + 1));
    }
    res
}

/// What the caller reports while level crossings are made.
#[derive(Clone, Debug)]
pub enum CrossingEvent {
    /// The next level-crossing point read, by its OSM id.
    Point(i64),
    /// The OSM ids of the points within the area of the crossing being
    /// made, in the order read.
    Intersecting(Vec<i64>),
}

/// What the caller is to do next.
#[derive(Clone, Copy, Debug, PartialEq, Eq, Structural)]
pub enum CrossingAction {
    /// The point already belongs to a crossing: go on to the next point.
    Skip,
    /// Make a crossing here: make a node at the point, then report the
    /// points within its area.
    NewCrossing,
    /// Make this many more nodes at the crossing's point, then store the
    /// crossing with all its nodes.
    Complete { extra_nodes: usize },
}

/// The state of making level crossings: which OSM points already belong
/// to a crossing, and whether a crossing waits for its intersecting points.
pub struct CrossingMaker {
    processed: HashSet<i64>,
    open: bool,
}

/// How many of `ids` are new: not in `processed`, and not seen earlier in
/// `ids`.
pub open spec fn fresh_count(processed: Set<i64>, ids: Seq<i64>) -> nat
    decreases ids.len(),
{
    if ids.len() == 0 {
        0
    } else {
        fresh_count(processed, ids.drop_last()) + if !processed.contains(ids.last())
            && !ids.drop_last().contains(ids.last()) {
            1nat
        } else {
            0nat
        }
    }
}

/// The new intersecting points are counted exactly: their number is that
/// of the distinct points reported that were not taken before.
pub proof fn lemma_fresh_count_is_new_points(processed: Set<i64>, ids: Seq<i64>)
    ensures
        fresh_count(processed, ids) == ids.to_set().difference(processed).len(),
    decreases ids.len(),
{
    broadcast use vstd::set::group_set_axioms, vstd::seq_lib::seq_to_set_is_finite;

    if ids.len() == 0 {
        assert(ids.to_set().difference(processed) =~= Set::<i64>::empty());
    } else {
        let pre = ids.drop_last();
        let x = ids.last();
        lemma_fresh_count_is_new_points(processed, pre);
        let d0 = pre.to_set().difference(processed);
        assert(ids.to_set() =~= pre.to_set().insert(x)) by {
            assert forall|y: i64| ids.contains(y) <==> pre.contains(y) || y == x by {
                if ids.contains(y) {
                    let k = choose|k: int| 0 <= k < ids.len() && ids[k] == y;
                    if k < pre.len() {
                        assert(pre[k] == y);
                    }
                }
                if pre.contains(y) {
                    let k = choose|k: int| 0 <= k < pre.len() && pre[k] == y;
                    assert(ids[k] == y);
                }
                assert(ids[ids.len() - 1] == x);
            }
        }
        if !processed.contains(x) && !pre.contains(x) {
            assert(ids.to_set().difference(processed) =~= d0.insert(x));
            assert(!d0.contains(x));
        } else {
            assert(ids.to_set().difference(processed) =~= d0);
        }
    }
}

/// Which events a crossing maker in this state waits for: points while no
/// crossing is open, the intersecting points while one is.
pub open spec fn crossing_accepts(open: bool, e: CrossingEvent) -> bool {
    match e {
        CrossingEvent::Point(_) => !open,
        CrossingEvent::Intersecting(_) => open,
    }
}


/// One step of making level crossings: from the points taken `p` (and
/// whether a crossing is `open`), on event `e`, with action `a`, to `p2`
/// and `open2`.
pub open spec fn crossing_transition(
    p: Set<i64>,
    open: bool,
    e: CrossingEvent,
    a: CrossingAction,
    p2: Set<i64>,
    open2: bool,
) -> bool {
    match e {
        CrossingEvent::Point(id) => if p.contains(id) {
            &&& a == CrossingAction::Skip
            &&& p2 == p
            &&& open2 == open
        } else {
            &&& a == CrossingAction::NewCrossing
            &&& p2 == p.insert(id)
            &&& open2
        },
        CrossingEvent::Intersecting(ids) => {
            &&& a == (CrossingAction::Complete { extra_nodes: fresh_count(p, ids@) as usize })
            &&& p2 == p.union(ids@.to_set())
            &&& !open2
        },
    }
}

/// The count of new intersecting points fits the points reported.
pub open spec fn fresh_count_bounded(p: Set<i64>, e: CrossingEvent) -> bool {
    match e {
        CrossingEvent::Point(_) => true,
        CrossingEvent::Intersecting(ids) => fresh_count(p, ids@) <= ids@.len(),
    }
}

/// A run of crossing-making steps: `ps[k]`, `opens[k]` are the state
/// before step `k`, which takes event `es[k]` to action `acts[k]`.
pub open spec fn crossing_run(
    ps: Seq<Set<i64>>,
    opens: Seq<bool>,
    es: Seq<CrossingEvent>,
    acts: Seq<CrossingAction>,
) -> bool {
    &&& ps.len() == es.len() + 1
    &&& opens.len() == es.len() + 1
    &&& acts.len() == es.len()
    &&& forall|k: int|
        0 <= k < es.len() ==> #[trigger] crossing_transition(
            ps[k],
            opens[k],
            es[k],
            acts[k],
            ps[k + 1],
            opens[k + 1],
        )
}

proof fn lemma_crossing_run_grows(
    ps: Seq<Set<i64>>,
    opens: Seq<bool>,
    es: Seq<CrossingEvent>,
    acts: Seq<CrossingAction>,
    j: int,
    k: int,
    id: i64,
)
    requires
        crossing_run(ps, opens, es, acts),
        0 <= j <= k < ps.len(),
        ps[j].contains(id),
    ensures
        ps[k].contains(id),
    decreases k - j,
{
    if j < k {
        lemma_crossing_run_grows(ps, opens, es, acts, j, k - 1, id);
        let m = k - 1;
        assert(crossing_transition(ps[m], opens[m], es[m], acts[m], ps[m + 1], opens[m + 1]));
    }
}

/// Over any run of crossing-making steps, an OSM point starts at most one
/// crossing: points once taken stay taken, and a taken point is skipped.
pub proof fn lemma_crossing_started_once(
    ps: Seq<Set<i64>>,
    opens: Seq<bool>,
    es: Seq<CrossingEvent>,
    acts: Seq<CrossingAction>,
    j: int,
    k: int,
    id: i64,
)
    requires
        crossing_run(ps, opens, es, acts),
        0 <= j < k < es.len(),
        es[j] == CrossingEvent::Point(id),
        es[k] == CrossingEvent::Point(id),
        acts[j] == CrossingAction::NewCrossing,
    ensures
        acts[k] == CrossingAction::Skip,
{
    assert(crossing_transition(ps[j], opens[j], es[j], acts[j], ps[j + 1], opens[j + 1]));
    assert(ps[j + 1].contains(id));
    lemma_crossing_run_grows(ps, opens, es, acts, j + 1, k, id);
    assert(crossing_transition(ps[k], opens[k], es[k], acts[k], ps[k + 1], opens[k + 1]));
}

impl CrossingMaker {
    /// The OSM points that already belong to a crossing.
    pub closed spec fn processed(&self) -> Set<i64> {
        self.processed@
    }

    /// Whether a crossing waits for its intersecting points.
    pub closed spec fn is_open(&self) -> bool {
        self.open
    }

    /// Starts with no point taken and no crossing open.
    pub fn new() -> (res: CrossingMaker)
        ensures
            res.processed() == Set::<i64>::empty(),
            !res.is_open(),
    {
        CrossingMaker { processed: HashSet::new(), open: false }
    }

    /// Whether the maker waits for the event `e`.
    pub fn accepts(&self, e: &CrossingEvent) -> (res: bool)
        ensures
            res == crossing_accepts(self.is_open(), *e),
    {
        match e {
            CrossingEvent::Point(_) => !self.open,
            CrossingEvent::Intersecting(_) => self.open,
        }
    }
}

/// Takes one step of making level crossings. A point that already belongs
/// to a crossing is skipped; a new one is taken and starts a crossing.
/// The points within that crossing's area that are new, each counted once,
/// are taken too and each gets one more node of the crossing.
pub fn make_crossings(maker: &mut CrossingMaker, e: CrossingEvent) -> (res: CrossingAction)
    requires
        crossing_accepts(old(maker).is_open(), e),
    ensures
        crossing_transition(
            old(maker).processed(),
            old(maker).is_open(),
            e,
            res,
            final(maker).processed(),
            final(maker).is_open(),
        ),
        fresh_count_bounded(old(maker).processed(), e),
{
    match e {
        CrossingEvent::Point(id) => {
            let ghost before = maker.processed@;
            let fresh = maker.processed.insert(id);
            assert(!fresh ==> maker.processed@ =~= before);
            if fresh {
                maker.open = true;
                CrossingAction::NewCrossing
            } else {
                CrossingAction::Skip
            }
        },
        CrossingEvent::Intersecting(ids) => {
            let ghost start = maker.processed@;
            let mut extra: usize = 0;
            let n = ids.len();
            let mut i: usize = 0;
            while i < n
                invariant
                    n == ids@.len(),
                    i <= n,
                    maker.processed@ == start.union(ids@.subrange(0, i as int).to_set()),
                    extra == fresh_count(start, ids@.subrange(0, i as int)),
                    extra <= i,
                decreases n - i,
            {
                let ghost pre = ids@.subrange(0, i as int);
                let ghost next = ids@.subrange(0, i + 1);
                assert(next.drop_last() =~= pre);
                assert(next.last() == ids@[i as int]);
                assert(next.to_set() =~= pre.to_set().insert(ids@[i as int])) by {
                    assert(next =~= pre.push(ids@[i as int]));
                    pre.lemma_push_to_set_commute(ids@[i as int]);
                }
                assert(pre.contains(ids@[i as int]) == pre.to_set().contains(ids@[i as int]));
                if maker.processed.insert(ids[i]) {
                    extra = extra + 1;
                }
                assert(maker.processed@ =~= start.union(next.to_set()));
                i = i + 1;
            }
            assert(ids@.subrange(0, n as int) =~= ids@);
            maker.open = false;
            CrossingAction::Complete { extra_nodes: extra }
        },
    }
}

} // verus!

verus! {

/// The area read for a station: its polygon at the given position among
/// the station polygons, or its point at the given position among the
/// station points.
#[derive(Clone, Copy, Debug, PartialEq, Eq, Structural)]
pub enum AreaSource {
    Polygon(usize),
    Point(usize),
}

/// A station and the area that stands for it.
#[derive(Clone, Debug)]
pub struct StationArea {
    pub station_ref: String,
    pub source: AreaSource,
}

/// The position of the last of `refs` that is `r`, if any.
pub open spec fn last_index_of(refs: Seq<String>, r: Seq<char>) -> Option<int>
    decreases refs.len(),
{
    if refs.len() == 0 {
        None
    } else if refs.last()@ == r {
        Some(refs.len() - 1)
    } else {
        last_index_of(refs.drop_last(), r)
    }
}

/// The area that stands for station `r`: areas are read polygons first,
/// then points, and a later area of a station replaces an earlier one; so
/// its last point if it has one, else its last polygon.
pub open spec fn station_source(polygons: Seq<String>, points: Seq<String>, r: Seq<char>) -> Option<AreaSource> {
    match last_index_of(points, r) {
        Some(i) => Some(AreaSource::Point(i as usize)),
        None => match last_index_of(polygons, r) {
            Some(i) => Some(AreaSource::Polygon(i as usize)),
            None => None,
        },
    }
}

/// `refs` and `sources` list each station once, with the area that stands
/// for it after the given polygons and points are read.
pub open spec fn areas_agree(
    refs: Seq<String>,
    sources: Seq<AreaSource>,
    polygons: Seq<String>,
    points: Seq<String>,
) -> bool {
    &&& refs.len() == sources.len()
    &&& forall|k: int|
        0 <= k < refs.len() ==> station_source(polygons, points, #[trigger] refs[k]@) == Some(
            sources[k],
        )
    &&& forall|j: int, k: int| 0 <= j < k < refs.len() ==> refs[j]@ != refs[k]@
    &&& forall|r: Seq<char>|
        #[trigger] station_source(polygons, points, r) is Some ==> exists|k: int|
            0 <= k < refs.len() && refs[k]@ == r
}

proof fn lemma_last_index_of_push(refs: Seq<String>, x: String, r: Seq<char>)
    requires
        refs.len() < usize::MAX,
    ensures
        last_index_of(refs.push(x), r) == if x@ == r {
            Some(refs.len() as int)
        } else {
            last_index_of(refs, r)
        },
        last_index_of(refs, r) matches Some(i) ==> 0 <= i < refs.len(),
    decreases refs.len(),
{
    assert(refs.push(x).drop_last() =~= refs);
    if refs.len() > 0 {
        lemma_last_index_of_push(refs.drop_last(), refs.last(), r);
        assert(refs.drop_last().push(refs.last()) =~= refs);
    }
}

/// `i` is the position of the last of `refs` that is `r`.
pub open spec fn is_last_of(refs: Seq<String>, r: Seq<char>, i: int) -> bool {
    &&& 0 <= i < refs.len()
    &&& refs[i]@ == r
    &&& forall|j: int| i < j < refs.len() ==> (#[trigger] refs[j])@ != r
}

/// None of `refs` is `r`.
pub open spec fn none_is(refs: Seq<String>, r: Seq<char>) -> bool {
    forall|j: int| 0 <= j < refs.len() ==> (#[trigger] refs[j])@ != r
}

proof fn lemma_last_index_of_finds(refs: Seq<String>, r: Seq<char>)
    ensures
        match last_index_of(refs, r) {
            Some(i) => is_last_of(refs, r, i),
            None => none_is(refs, r),
        },
    decreases refs.len(),
{
    if refs.len() > 0 {
        let pre = refs.drop_last();
        lemma_last_index_of_finds(pre, r);
        assert forall|j: int| 0 <= j < pre.len() implies pre[j] == refs[j] by {}
    }
}

/// The area chosen for a station is one of its own, and the right one: a
/// station with a point is represented by its last point; one with no
/// point by its last polygon; one with neither has no area.
pub proof fn lemma_station_area_is_its_own(polygons: Seq<String>, points: Seq<String>, r: Seq<char>)
    requires
        polygons.len() < usize::MAX,
        points.len() < usize::MAX,
    ensures
        station_source(polygons, points, r) matches Some(AreaSource::Point(i)) ==> is_last_of(points, r, i as int),
        station_source(polygons, points, r) matches Some(AreaSource::Polygon(i)) ==> {
            &&& is_last_of(polygons, r, i as int)
            &&& none_is(points, r)
        },
        station_source(polygons, points, r) is None ==> none_is(points, r) && none_is(polygons, r),
{
    lemma_last_index_of_finds(points, r);
    lemma_last_index_of_finds(polygons, r);
}

fn find_station(refs: &Vec<String>, r: &String) -> (res: Option<usize>)
    ensures
        match res {
            Some(k) => k < refs@.len() && refs@[k as int]@ == r@,
            None => forall|k: int| 0 <= k < refs@.len() ==> refs@[k]@ != r@,
        },
{
    let n = refs.len();
    let mut i: usize = 0;
    while i < n
        invariant
            n == refs@.len(),
            i <= n,
            forall|k: int| 0 <= k < i ==> refs@[k]@ != r@,
        decreases n - i,
    {
        if refs[i] == *r {
            return Some(i);
        }
        i = i + 1;
    }
    None
}

/// Records that station `x` now has the area `src`.
fn place_station(refs: &mut Vec<String>, sources: &mut Vec<AreaSource>, x: &String, src: AreaSource)
    requires
        old(refs)@.len() == old(sources)@.len(),
        forall|j: int, k: int| 0 <= j < k < old(refs)@.len() ==> old(refs)@[j]@ != old(refs)@[k]@,
    ensures
        final(refs)@.len() == final(sources)@.len(),
        old(refs)@.len() <= final(refs)@.len() <= old(refs)@.len() + 1,
        forall|j: int, k: int| 0 <= j < k < final(refs)@.len() ==> final(refs)@[j]@ != final(refs)@[k]@,
        forall|j: int| 0 <= j < old(refs)@.len() ==> final(refs)@[j] == old(refs)@[j],
        forall|j: int|
            0 <= j < final(refs)@.len() && (#[trigger] final(refs)@[j])@ != x@ ==> j < old(
                refs,
            )@.len() && final(sources)@[j] == old(sources)@[j],
        exists|k: int| 0 <= k < final(refs)@.len() && final(refs)@[k]@ == x@ && final(sources)@[k] == src,
{
    match find_station(refs, x) {
        Some(k) => {
            sources.set(k, src);
            assert(refs@[k as int]@ == x@ && sources@[k as int] == src);
        },
        None => {
            refs.push(x.clone());
            sources.push(src);
            let ghost last = refs@.len() - 1;
            assert(refs@[last as int]@ == x@ && sources@[last as int] == src);
        },
    }
}

/// Chooses the area that stands for each station, given the station
/// references of the station polygons and of the station points, as read:
/// each station is listed once, with its last point if it has one, else its
/// last polygon.
pub fn merge_station_areas(polygons: &Vec<String>, points: &Vec<String>) -> (res: Vec<StationArea>)
    requires
        polygons@.len() < usize::MAX,
        points@.len() < usize::MAX,
    ensures
        forall|k: int|
            0 <= k < res@.len() ==> station_source(polygons@, points@, #[trigger] res@[k].station_ref@)
                == Some(res@[k].source),
        forall|j: int, k: int| 0 <= j < k < res@.len() ==> res@[j].station_ref@ != res@[k].station_ref@,
        forall|r: Seq<char>|
            #[trigger] station_source(polygons@, points@, r) is Some ==> exists|k: int|
                0 <= k < res@.len() && res@[k].station_ref@ == r,
{
    let mut refs: Vec<String> = Vec::new();
    let mut sources: Vec<AreaSource> = Vec::new();
    let n = polygons.len();
    let mut i: usize = 0;
    while i < n
        invariant
            n == polygons@.len(),
            n < usize::MAX,
            i <= n,
            areas_agree(refs@, sources@, polygons@.subrange(0, i as int), Seq::<String>::empty()),
        decreases n - i,
    {
        let ghost pre = polygons@.subrange(0, i as int);
        let ghost next = polygons@.subrange(0, i + 1);
        assert(next =~= pre.push(polygons@[i as int]));
        let ghost old_refs = refs@;
        let ghost old_sources = sources@;
        place_station(&mut refs, &mut sources, &polygons[i], AreaSource::Polygon(i));
        proof {
            assert forall|r: Seq<char>|
                station_source(next, Seq::<String>::empty(), r) == if polygons@[i as int]@ == r {
                    Some(AreaSource::Polygon(i))
                } else {
                    station_source(pre, Seq::<String>::empty(), r)
                } by {
                lemma_last_index_of_push(pre, polygons@[i as int], r);
            }
            assert forall|r: Seq<char>|
                #[trigger] station_source(next, Seq::<String>::empty(), r) is Some implies exists|k: int|
                    0 <= k < refs@.len() && refs@[k]@ == r by {
                if polygons@[i as int]@ != r {
                    let j = choose|j: int| 0 <= j < old_refs.len() && old_refs[j]@ == r;
                    assert(refs@[j] == old_refs[j]);
                }
            }
            assert forall|k: int| 0 <= k < refs@.len() implies station_source(
                next,
                Seq::<String>::empty(),
                #[trigger] refs@[k]@,
            ) == Some(sources@[k]) by {
                if refs@[k]@ != polygons@[i as int]@ {
                    assert(refs@[k] == old_refs[k]);
                    assert(station_source(pre, Seq::<String>::empty(), old_refs[k]@) == Some(
                        old_sources[k],
                    ));
                } else {
                    let k2 = choose|k2: int|
                        0 <= k2 < refs@.len() && refs@[k2]@ == polygons@[i as int]@ && sources@[k2]
                            == AreaSource::Polygon(i);
                    assert(k2 == k);
                }
            }
        }
        i = i + 1;
    }
    assert(polygons@.subrange(0, n as int) =~= polygons@);
    assert(points@.subrange(0, 0) =~= Seq::<String>::empty());
    let m = points.len();
    let mut j: usize = 0;
    while j < m
        invariant
            m == points@.len(),
            m < usize::MAX,
            j <= m,
            areas_agree(refs@, sources@, polygons@, points@.subrange(0, j as int)),
        decreases m - j,
    {
        let ghost pre = points@.subrange(0, j as int);
        let ghost next = points@.subrange(0, j + 1);
        assert(next =~= pre.push(points@[j as int]));
        let ghost old_refs = refs@;
        let ghost old_sources = sources@;
        place_station(&mut refs, &mut sources, &points[j], AreaSource::Point(j));
        proof {
            assert forall|r: Seq<char>|
                station_source(polygons@, next, r) == if points@[j as int]@ == r {
                    Some(AreaSource::Point(j))
                } else {
                    station_source(polygons@, pre, r)
                } by {
                lemma_last_index_of_push(pre, points@[j as int], r);
            }
            assert forall|r: Seq<char>|
                #[trigger] station_source(polygons@, next, r) is Some implies exists|k: int|
                    0 <= k < refs@.len() && refs@[k]@ == r by {
                if points@[j as int]@ != r {
                    let j0 = choose|j0: int| 0 <= j0 < old_refs.len() && old_refs[j0]@ == r;
                    assert(refs@[j0] == old_refs[j0]);
                }
            }
            assert forall|k: int| 0 <= k < refs@.len() implies station_source(
                polygons@,
                next,
                #[trigger] refs@[k]@,
            ) == Some(sources@[k]) by {
                if refs@[k]@ != points@[j as int]@ {
                    assert(refs@[k] == old_refs[k]);
                    assert(station_source(polygons@, pre, old_refs[k]@) == Some(old_sources[k]));
                } else {
                    let k2 = choose|k2: int|
                        0 <= k2 < refs@.len() && refs@[k2]@ == points@[j as int]@ && sources@[k2]
                            == AreaSource::Point(j);
                    assert(k2 == k);
                }
            }
        }
        j = j + 1;
    }
    assert(points@.subrange(0, m as int) =~= points@);
    let mut res: Vec<StationArea> = Vec::new();
    let c = refs.len();
    let mut k: usize = 0;
    while k < c
        invariant
            c == refs@.len(),
            k <= c,
            areas_agree(refs@, sources@, polygons@, points@),
            res@.len() == k,
            forall|q: int| 0 <= q < k ==> res@[q].station_ref == refs@[q] && res@[q].source == sources@[q],
        decreases c - k,
    {
        res.push(StationArea { station_ref: refs[k].clone(), source: sources[k] });
        k = k + 1;
    }
    proof {
        assert forall|j: int, q: int| 0 <= j < q < res@.len() implies res@[j].station_ref@
            != res@[q].station_ref@ by {
            assert(res@[j].station_ref == refs@[j]);
            assert(res@[q].station_ref == refs@[q]);
        }
        assert forall|r: Seq<char>|
            #[trigger] station_source(polygons@, points@, r) is Some implies exists|q: int|
                0 <= q < res@.len() && res@[q].station_ref@ == r by {
            let q = choose|q: int| 0 <= q < refs@.len() && refs@[q]@ == r;
            assert(res@[q].station_ref == refs@[q]);
        }
        assert forall|q: int| 0 <= q < res@.len() implies station_source(
            polygons@,
            points@,
            #[trigger] res@[q].station_ref@,
        ) == Some(res@[q].source) by {
            assert(res@[q].station_ref == refs@[q]);
        }
    }
    res
}

/// Whether linking a station to a railway line leaves a fault: the node
/// made at the line's closest point was new rather than placed on the
/// line, and yet links already end at it.
pub fn station_link_fault(placed_on_line: bool, links_at_node: usize) -> (res: bool)
    ensures
        res == (!placed_on_line && links_at_node != 0),
{
    !placed_on_line && links_at_node != 0
}

} // verus!
