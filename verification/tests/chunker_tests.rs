use cce_e2e::direct_chunker::{group_conversion_plans, GroupSpec, MemberSpec};

fn member(id: i64, name: &str, span: Option<(usize, usize)>) -> MemberSpec {
    MemberSpec { id, name: name.to_string(), span }
}

#[test]
fn group_plans_skip_blank_slices_and_fall_back_to_the_header() {
    let src = "fn a() {}\n\n   \nfn b() {}\n";
    let groups = vec![
        GroupSpec {
            header_id: Some(7),
            member_ids: vec![1, 2],
            first_span_entity: None,
            span: (0, src.len()),
            name: "mod".to_string(),
            members: vec![member(1, "a", Some((0, 9))), member(2, "blank", Some((10, 14))), member(3, "none", None)],
        },
        GroupSpec {
            header_id: None,
            member_ids: vec![4],
            first_span_entity: Some(9),
            span: (15, 24),
            name: "b".to_string(),
            members: vec![member(4, "b", Some((10, 13)))],
        },
        GroupSpec {
            header_id: None,
            member_ids: vec![],
            first_span_entity: None,
            span: (0, 9),
            name: "orphan".to_string(),
            members: vec![],
        },
    ];
    let plans = group_conversion_plans(&groups, src);
    assert_eq!(plans.len(), 3);
    let first = plans[0].as_ref().expect("first group kept");
    assert_eq!(first.members.len(), 1);
    assert_eq!(first.members[0].source, "fn a() {}");
    assert_eq!(first.members[0].member, Some(0));
    assert_eq!(first.header.entity_id, 7);
    assert_eq!(first.header.source, "mod");
    let second = plans[1].as_ref().expect("second group kept");
    assert!(second.members.is_empty());
    assert_eq!(second.header.entity_id, 4);
    assert_eq!(second.header.source, "fn b() {}");
    // no header, no member id and no span entity: dropped
    assert!(plans[2].is_none());
}

#[test]
fn group_plans_reject_spans_off_char_boundaries() {
    let src = "é";
    let groups = vec![GroupSpec {
        header_id: Some(1),
        member_ids: vec![],
        first_span_entity: None,
        span: (0, 1),
        name: "x".to_string(),
        members: vec![member(1, "m", Some((0, 1)))],
    }];
    let plans = group_conversion_plans(&groups, src);
    assert!(plans[0].is_none());
}
