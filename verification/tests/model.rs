use osm_elements::{
    days_in_month, is_leap_year, Element, FixedDecimal, Id, Info, Member, MemberType, Node,
    Relation, Tags, Timestamp, Way,
};

fn decimal(mantissa: i128, scale: u32) -> FixedDecimal {
    FixedDecimal::new(mantissa, scale).expect("representable decimal")
}

fn sample_info() -> Info {
    Info {
        version: 3,
        timestamp: Timestamp::new(2020, 6, 15, 12, 30, 0),
        changeset: Some(77),
        uid: Some(42),
        user: Some("mapper".to_string()),
        visible: Some(true),
    }
}

fn sample_node() -> Node {
    let mut tags = Tags::new();
    tags.insert("name".to_string(), "A".to_string());
    Node {
        id: Id(1),
        tags,
        info: Some(sample_info()),
        lat: decimal(515074000, 7),
        lon: decimal(-1278000, 7),
    }
}

fn sample_way() -> Way {
    Way {
        id: Id(2),
        tags: Tags::new(),
        info: Some(sample_info()),
        refs: vec![Id(5), Id(9)],
    }
}

fn sample_relation() -> Relation {
    Relation {
        id: Id(3),
        tags: Tags::new(),
        info: None,
        members: vec![
            Member {
                id: Id(1),
                ty: MemberType::Node,
                role: Some("outer".to_string()),
            },
            Member {
                id: Id(2),
                ty: MemberType::Way,
                role: None,
            },
        ],
    }
}

#[test]
fn as_node_present_iff_node() {
    let n = sample_node();
    let e = Element::Node(n.clone());
    assert_eq!(e.as_node(), Some(&n));
    assert_eq!(e.as_way(), None);
    assert_eq!(e.as_relation(), None);
}

#[test]
fn as_way_present_iff_way() {
    let w = sample_way();
    let e = Element::Way(w.clone());
    assert_eq!(e.as_way(), Some(&w));
    assert_eq!(e.as_node(), None);
    assert_eq!(e.as_relation(), None);
}

#[test]
fn as_relation_present_iff_relation() {
    let r = sample_relation();
    let e = Element::Relation(r.clone());
    assert_eq!(e.as_relation(), Some(&r));
    assert_eq!(e.as_node(), None);
    assert_eq!(e.as_way(), None);
}

#[test]
fn strip_info_is_idempotent() {
    for mut e in [
        Element::Node(sample_node()),
        Element::Way(sample_way()),
        Element::Relation(sample_relation()),
    ] {
        let id = e.id();
        e.strip_info();
        assert!(e.info().is_none());
        let once = e.clone();
        e.strip_info();
        assert!(e.info().is_none());
        assert_eq!(e, once);
        assert_eq!(e.id(), id);
    }
}

#[test]
fn strip_info_on_records() {
    let mut n = sample_node();
    n.strip_info();
    assert_eq!(n.info, None);
    let mut w = sample_way();
    w.strip_info();
    assert_eq!(w.info, None);
    assert_eq!(w.refs, vec![Id(5), Id(9)]);
    let mut r = sample_relation();
    r.strip_info();
    assert_eq!(r.info, None);
}

#[test]
fn id_ordering_follows_wrapped_integer() {
    assert!(Id(3) > Id(2));
    assert!(Id(2) > Id(-1));
    assert!(Id(3) > Id(-1));
    assert!(Id(-1) < Id(2));
    assert!(Id(2) <= Id(2));
    assert_eq!(Id(3).cmp(&Id(2)), std::cmp::Ordering::Greater);
    assert_eq!(Id(2).cmp(&Id(2)), std::cmp::Ordering::Equal);
    assert_eq!(Id(-1).cmp(&Id(2)), std::cmp::Ordering::Less);
    let mut v = vec![Id(3), Id(-1), Id(2)];
    v.sort();
    assert_eq!(v, vec![Id(-1), Id(2), Id(3)]);
}

#[test]
fn way_closed_open_degenerate() {
    let closed = Way {
        id: Id(10),
        tags: Tags::new(),
        info: None,
        refs: vec![Id(5), Id(9), Id(5)],
    };
    assert!(closed.is_closed());
    let open = Way {
        id: Id(11),
        tags: Tags::new(),
        info: None,
        refs: vec![Id(5), Id(9)],
    };
    assert!(!open.is_closed());
    let degenerate = Way {
        id: Id(12),
        tags: Tags::new(),
        info: None,
        refs: vec![],
    };
    assert!(!degenerate.is_closed());
    assert_eq!(degenerate.refs.len(), 0);
    let single = Way {
        id: Id(13),
        tags: Tags::new(),
        info: None,
        refs: vec![Id(5)],
    };
    assert!(single.is_closed());
}

#[test]
fn relation_members_keep_order_on_clone() {
    let r = sample_relation();
    let c = r.clone();
    assert_eq!(c.members.len(), 2);
    assert_eq!(c.members[0].id, Id(1));
    assert_eq!(c.members[0].ty, MemberType::Node);
    assert_eq!(c.members[0].role, Some("outer".to_string()));
    assert_eq!(c.members[1].id, Id(2));
    assert_eq!(c.members[1].ty, MemberType::Way);
    assert_eq!(c.members[1].role, None);
    assert_eq!(c.members, r.members);
    assert_eq!(c, r);
}

#[test]
fn tags_equality_is_order_independent() {
    let mut t1 = Tags::new();
    t1.insert("name".to_string(), "A".to_string());
    t1.insert("highway".to_string(), "B".to_string());
    let mut t2 = Tags::new();
    t2.insert("highway".to_string(), "B".to_string());
    t2.insert("name".to_string(), "A".to_string());
    assert_eq!(t1, t2);
    let mut t3 = Tags::new();
    t3.insert("name".to_string(), "A".to_string());
    assert_ne!(t1, t3);
    assert_ne!(t3, t1);
}

#[test]
fn tags_insert_get_len() {
    let mut t = Tags::new();
    assert_eq!(t.len(), 0);
    assert_eq!(t.get(&"name".to_string()), None);
    t.insert("name".to_string(), "A".to_string());
    t.insert("name".to_string(), "B".to_string());
    assert_eq!(t.len(), 1);
    assert_eq!(t.get(&"name".to_string()), Some(&"B".to_string()));
    t.insert("ref".to_string(), "C".to_string());
    assert_eq!(t.len(), 2);
    assert_eq!(t.get(&"ref".to_string()), Some(&"C".to_string()));
    assert_eq!(t.get(&"missing".to_string()), None);
    let (k, v) = t.pair_at(0);
    assert_eq!(t.get(k), Some(v));
}

#[test]
fn info_visible_absent_means_visible() {
    let mut i = sample_info();
    i.visible = None;
    assert!(i.is_visible());
    i.visible = Some(true);
    assert!(i.is_visible());
    i.visible = Some(false);
    assert!(!i.is_visible());
}

#[test]
fn element_shared_accessors() {
    let n = sample_node();
    let e = Element::Node(n.clone());
    assert_eq!(e.id(), Id(1));
    assert_eq!(e.tags().get(&"name".to_string()), Some(&"A".to_string()));
    assert_eq!(e.info(), Some(&sample_info()));
    let r = sample_relation();
    let e = Element::Relation(r);
    assert_eq!(e.id(), Id(3));
    assert_eq!(e.info(), None);
}

#[test]
fn timestamp_validity() {
    assert!(Timestamp::new(2024, 2, 29, 0, 0, 0).is_some());
    assert!(Timestamp::new(2023, 2, 29, 0, 0, 0).is_none());
    assert!(Timestamp::new(1900, 2, 29, 0, 0, 0).is_none());
    assert!(Timestamp::new(2000, 2, 29, 0, 0, 0).is_some());
    assert!(Timestamp::new(2020, 13, 1, 0, 0, 0).is_none());
    assert!(Timestamp::new(2020, 4, 31, 0, 0, 0).is_none());
    assert!(Timestamp::new(2020, 4, 30, 23, 59, 59).is_some());
    assert!(Timestamp::new(2020, 4, 30, 24, 0, 0).is_none());
    assert!(Timestamp::new(-44, 3, 15, 12, 0, 0).is_some());
    let t = Timestamp::new(2020, 6, 15, 12, 30, 45).unwrap();
    assert_eq!(t.year(), 2020);
    assert_eq!(t.month(), 6);
    assert_eq!(t.day(), 15);
    assert_eq!(t.hour(), 12);
    assert_eq!(t.minute(), 30);
    assert_eq!(t.second(), 45);
    assert_eq!(t, Timestamp::new(2020, 6, 15, 12, 30, 45).unwrap());
}

#[test]
fn decimal_validity() {
    let limit: i128 = 79228162514264337593543950336;
    assert!(FixedDecimal::new(0, 29).is_none());
    assert!(FixedDecimal::new(limit, 0).is_none());
    assert!(FixedDecimal::new(-limit, 0).is_none());
    assert!(FixedDecimal::new(limit - 1, 28).is_some());
    assert!(FixedDecimal::new(-(limit - 1), 28).is_some());
    let d = FixedDecimal::new(515074000, 7).unwrap();
    assert_eq!(d.mantissa(), 515074000);
    assert_eq!(d.scale(), 7);
    assert_eq!(d, decimal(515074000, 7));
    assert_ne!(d, decimal(515074000, 6));
}

#[test]
fn member_equality_is_structural() {
    let a = Member {
        id: Id(1),
        ty: MemberType::Node,
        role: Some("outer".to_string()),
    };
    let b = Member {
        id: Id(1),
        ty: MemberType::Node,
        role: Some("outer".to_string()),
    };
    assert_eq!(a, b);
    let c = Member {
        id: Id(1),
        ty: MemberType::Way,
        role: Some("outer".to_string()),
    };
    assert_ne!(a, c);
    let d = Member {
        id: Id(1),
        ty: MemberType::Node,
        role: None,
    };
    assert_ne!(a, d);
}

#[test]
fn info_absent_is_not_visible_false() {
    // The tri-state of the visibility flag and of the whole record must be
    // kept apart exactly.
    let mut with_flag = sample_info();
    with_flag.visible = Some(true);
    let mut no_flag = sample_info();
    no_flag.visible = None;
    assert_ne!(with_flag, no_flag);
    let e_with = Element::Node(Node {
        info: Some(no_flag.clone()),
        ..sample_node()
    });
    let mut e_without = Element::Node(Node {
        info: None,
        ..sample_node()
    });
    assert!(e_with.info().is_some());
    assert!(e_without.info().is_none());
    assert_ne!(e_with, e_without);
    e_without.strip_info();
    assert!(e_without.info().is_none());
}

#[test]
fn leap_year_and_month_lengths() {
    assert!(is_leap_year(2024));
    assert!(!is_leap_year(2023));
    assert!(!is_leap_year(1900));
    assert!(is_leap_year(2000));
    assert!(is_leap_year(0));
    assert!(is_leap_year(-44));
    assert!(!is_leap_year(-45));
    assert_eq!(days_in_month(2024, 2), 29);
    assert_eq!(days_in_month(1900, 2), 28);
    assert_eq!(days_in_month(2021, 1), 31);
    assert_eq!(days_in_month(2021, 4), 30);
    assert_eq!(days_in_month(2021, 12), 31);
}

#[test]
fn clone_preserves_every_field() {
    let n = sample_node();
    let c = n.clone();
    assert_eq!(c, n);
    assert_eq!(c.id, Id(1));
    assert_eq!(c.tags.get(&"name".to_string()), Some(&"A".to_string()));
    assert_eq!(c.info, Some(sample_info()));
    assert_eq!(c.lat, decimal(515074000, 7));
    assert_eq!(c.lon, decimal(-1278000, 7));
    let w = sample_way();
    let cw = w.clone();
    assert_eq!(cw, w);
    assert_eq!(cw.refs, vec![Id(5), Id(9)]);
    let e = Element::Relation(sample_relation());
    let ce = e.clone();
    assert_eq!(ce, e);
    assert_eq!(ce.id(), Id(3));
}

#[test]
fn tags_reachable_through_every_kind() {
    let mut tags = Tags::new();
    tags.insert("route".to_string(), "bus".to_string());
    let w = Way {
        id: Id(20),
        tags,
        info: None,
        refs: vec![],
    };
    let e = Element::Way(w);
    assert_eq!(e.tags().get(&"route".to_string()), Some(&"bus".to_string()));
    let r = sample_relation();
    let e = Element::Relation(r);
    assert_eq!(e.tags().len(), 0);
    assert_eq!(e.tags().get(&"route".to_string()), None);
}
