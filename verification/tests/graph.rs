use osms::make::{
    make_crossings, make_nodes, merge_station_areas, station_link_fault, AreaSource, CrossingAction,
    CrossingEvent, CrossingMaker, LineEnd, NodeAt,
};

#[test]
fn nodes_for_each_line_end() {
    let n = make_nodes(2);
    assert_eq!(
        n,
        vec![
            NodeAt { line: 0, end: LineEnd::Start },
            NodeAt { line: 0, end: LineEnd::End },
            NodeAt { line: 1, end: LineEnd::Start },
            NodeAt { line: 1, end: LineEnd::End },
        ]
    );
    assert!(make_nodes(0).is_empty());
}

#[test]
fn crossings_take_each_point_once() {
    let mut m = CrossingMaker::new();
    assert!(m.accepts(&CrossingEvent::Point(1)));
    assert_eq!(make_crossings(&mut m, CrossingEvent::Point(1)), CrossingAction::NewCrossing);
    assert!(!m.accepts(&CrossingEvent::Point(2)));
    // 1 is the crossing itself, 2 appears twice, 3 once: two more nodes.
    assert_eq!(
        make_crossings(&mut m, CrossingEvent::Intersecting(vec![1, 2, 2, 3])),
        CrossingAction::Complete { extra_nodes: 2 }
    );
    assert_eq!(make_crossings(&mut m, CrossingEvent::Point(2)), CrossingAction::Skip);
    assert_eq!(make_crossings(&mut m, CrossingEvent::Point(1)), CrossingAction::Skip);
    assert_eq!(make_crossings(&mut m, CrossingEvent::Point(4)), CrossingAction::NewCrossing);
    assert_eq!(
        make_crossings(&mut m, CrossingEvent::Intersecting(vec![3, 4])),
        CrossingAction::Complete { extra_nodes: 0 }
    );
}

#[test]
fn station_areas_prefer_last_point() {
    let polys: Vec<String> = vec!["EUS".into(), "KGX".into(), "EUS".into()];
    let points: Vec<String> = vec!["KGX".into(), "STP".into(), "KGX".into()];
    let mut areas = merge_station_areas(&polys, &points);
    areas.sort_by(|a, b| a.station_ref.cmp(&b.station_ref));
    let got: Vec<(String, AreaSource)> = areas.into_iter().map(|a| (a.station_ref, a.source)).collect();
    assert_eq!(
        got,
        vec![
            ("EUS".to_string(), AreaSource::Polygon(2)),
            ("KGX".to_string(), AreaSource::Point(2)),
            ("STP".to_string(), AreaSource::Point(1)),
        ]
    );
    assert!(merge_station_areas(&vec![], &vec![]).is_empty());
}

#[test]
fn station_link_faults() {
    assert!(station_link_fault(false, 2));
    assert!(!station_link_fault(false, 0));
    assert!(!station_link_fault(true, 5));
}
