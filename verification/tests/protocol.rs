use softnpu::protocol::{
    dump_response, handle_management_message, multicast_group_list_response, sort_ports,
    validate_group_id, ManagementRequest, ManagementResponse, MulticastError, MulticastGroupCreate,
    MulticastGroupRemove, MulticastOperation, MulticastPortAdd, MulticastPortRemove,
    PipelineAction, TableAdd, TableEntry, TableRemove,
};

#[test]
fn group_zero_is_reserved() {
    assert_eq!(validate_group_id(0), Err(MulticastError::ReservedGroupId));
    assert_eq!(validate_group_id(1), Ok(()));
    assert_eq!(validate_group_id(u16::MAX), Ok(()));
    assert_eq!(
        MulticastError::ReservedGroupId.message(),
        "group ID 0 is reserved (the runtime treats 0 as no-multicast)"
    );
}

#[test]
fn table_changes_go_to_the_pipeline() {
    let add = TableAdd {
        table: "router".into(),
        action: "forward".into(),
        keyset_data: vec![1, 2],
        parameter_data: vec![3],
    };
    match handle_management_message(ManagementRequest::TableAdd(add), 2) {
        PipelineAction::AddTableEntry(t) => {
            assert_eq!(t.table, "router");
            assert_eq!(t.action, "forward");
            assert_eq!(t.keyset_data, vec![1, 2]);
            assert_eq!(t.parameter_data, vec![3]);
        }
        other => panic!("{:?}", other),
    }
    let rm = TableRemove { table: "router".into(), keyset_data: vec![9] };
    match handle_management_message(ManagementRequest::TableRemove(rm), 2) {
        PipelineAction::RemoveTableEntry(t) => assert_eq!(t.keyset_data, vec![9]),
        other => panic!("{:?}", other),
    }
}

#[test]
fn radix_is_the_port_count_truncated_to_16_bits() {
    match handle_management_message(ManagementRequest::RadixRequest, 4) {
        PipelineAction::Respond(ManagementResponse::RadixResponse(n)) => assert_eq!(n, 4),
        other => panic!("{:?}", other),
    }
    match handle_management_message(ManagementRequest::default(), 70000) {
        PipelineAction::Respond(ManagementResponse::RadixResponse(n)) => assert_eq!(n, 4464),
        other => panic!("{:?}", other),
    }
}

#[test]
fn multicast_changes_on_group_zero_are_rejected() {
    let a = handle_management_message(
        ManagementRequest::MulticastGroupCreate(MulticastGroupCreate { group_id: 0 }),
        1,
    );
    assert!(matches!(
        a,
        PipelineAction::Reject(MulticastOperation::GroupCreate, MulticastError::ReservedGroupId)
    ));
    let a = handle_management_message(
        ManagementRequest::MulticastPortAdd(MulticastPortAdd {
            group_id: 0,
            port: 3,
            rid: 7,
            level1_excl_id: 8,
        }),
        1,
    );
    assert!(matches!(a, PipelineAction::Reject(MulticastOperation::PortAdd, _)));
    let a = handle_management_message(
        ManagementRequest::MulticastPortRemove(MulticastPortRemove { group_id: 0, port: 3 }),
        1,
    );
    assert!(matches!(a, PipelineAction::Reject(MulticastOperation::PortRemove, _)));
    let a = handle_management_message(
        ManagementRequest::MulticastGroupRemove(MulticastGroupRemove { group_id: 0 }),
        1,
    );
    assert!(matches!(a, PipelineAction::Reject(MulticastOperation::GroupRemove, _)));
}

#[test]
fn multicast_changes_on_other_groups_reach_the_pipeline() {
    let a = handle_management_message(
        ManagementRequest::MulticastGroupCreate(MulticastGroupCreate { group_id: 5 }),
        1,
    );
    assert!(matches!(a, PipelineAction::CreateMulticastGroup(5)));
    let a = handle_management_message(
        ManagementRequest::MulticastPortAdd(MulticastPortAdd {
            group_id: 5,
            port: 3,
            rid: 1,
            level1_excl_id: 0,
        }),
        1,
    );
    assert!(matches!(a, PipelineAction::AddMulticastPort { group_id: 5, port: 3 }));
    let a = handle_management_message(
        ManagementRequest::MulticastPortRemove(MulticastPortRemove { group_id: 5, port: 3 }),
        1,
    );
    assert!(matches!(a, PipelineAction::RemoveMulticastPort { group_id: 5, port: 3 }));
    let a = handle_management_message(
        ManagementRequest::MulticastGroupRemove(MulticastGroupRemove { group_id: 5 }),
        1,
    );
    assert!(matches!(a, PipelineAction::RemoveMulticastGroup(5)));
    assert!(matches!(
        handle_management_message(ManagementRequest::MulticastGroupList, 1),
        PipelineAction::ListMulticastGroups
    ));
    assert!(matches!(
        handle_management_message(ManagementRequest::DumpRequest, 1),
        PipelineAction::DumpTables
    ));
}

#[test]
fn ports_are_sorted() {
    assert_eq!(sort_ports(&vec![5, 1, 4, 1, 3]), vec![1, 1, 3, 4, 5]);
    assert_eq!(sort_ports(&vec![]), Vec::<u16>::new());
}

#[test]
fn group_list_sorts_each_group_and_keys_by_id() {
    let groups = vec![(9u16, vec![3u16, 1, 2]), (2, vec![7]), (4, vec![])];
    match multicast_group_list_response(&groups) {
        ManagementResponse::MulticastGroupListResponse(list) => {
            let keys: Vec<u16> = list.keys().copied().collect();
            assert_eq!(keys, vec![2, 4, 9]);
            assert_eq!(list[&9], vec![1, 2, 3]);
            assert_eq!(list[&2], vec![7]);
            assert!(list[&4].is_empty());
        }
        other => panic!("{:?}", other),
    }
}

#[test]
fn group_list_keeps_the_last_ports_of_a_repeated_id() {
    let groups = vec![(3u16, vec![9u16]), (3, vec![2, 1])];
    match multicast_group_list_response(&groups) {
        ManagementResponse::MulticastGroupListResponse(list) => {
            assert_eq!(list.len(), 1);
            assert_eq!(list[&3], vec![1, 2]);
        }
        other => panic!("{:?}", other),
    }
}

#[test]
fn dump_lists_each_table_with_its_entries() {
    let e = TableEntry { action_id: "x".into(), keyset_data: vec![1], parameter_data: vec![2] };
    let tables = vec![("0".to_string(), Some(vec![e])), ("1".to_string(), None)];
    match dump_response(&tables) {
        ManagementResponse::DumpResponse(d) => {
            assert_eq!(d.len(), 2);
            assert_eq!(d[0].0, "0");
            assert_eq!(d[0].1.len(), 1);
            assert_eq!(d[0].1[0].keyset_data, vec![1]);
            assert_eq!(d[1].0, "1");
            assert!(d[1].1.is_empty());
        }
        other => panic!("{:?}", other),
    }
}

#[test]
fn default_requests_are_empty() {
    let t = TableAdd::default();
    assert!(t.table.is_empty() && t.action.is_empty());
    assert!(t.keyset_data.is_empty() && t.parameter_data.is_empty());
    let r = TableRemove::default();
    assert!(r.table.is_empty() && r.keyset_data.is_empty());
    assert!(matches!(ManagementRequest::default(), ManagementRequest::RadixRequest));
}
