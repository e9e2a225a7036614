use softnpu::mgmt::{
    dump_response, handle_management_message, ManagementRequest, ManagementResponse,
    PipelineAction, TableAdd, TableCounters, TableEntry,
};

#[test]
fn counters_are_read_for_the_named_table() {
    let a = handle_management_message(
        ManagementRequest::TableCounters(TableCounters { table: "nat".into() }),
        8,
    );
    match a {
        PipelineAction::ReadCounters(t) => assert_eq!(t, "nat"),
        other => panic!("{:?}", other),
    }
}

#[test]
fn standalone_requests_are_decided() {
    match handle_management_message(ManagementRequest::RadixRequest, 65537) {
        PipelineAction::Respond(ManagementResponse::RadixResponse(n)) => assert_eq!(n, 1),
        other => panic!("{:?}", other),
    }
    assert!(matches!(
        handle_management_message(ManagementRequest::DumpRequest, 1),
        PipelineAction::DumpTables
    ));
    let add = TableAdd { table: "t".into(), ..Default::default() };
    assert!(matches!(
        handle_management_message(ManagementRequest::TableAdd(add), 1),
        PipelineAction::AddTableEntry(t) if t.table == "t"
    ));
    assert!(TableCounters::default().table.is_empty());
}

#[test]
fn standalone_dump_fills_missing_tables_with_nothing() {
    let e = TableEntry { action_id: "y".into(), keyset_data: vec![], parameter_data: vec![5] };
    let tables = vec![("a".to_string(), None), ("b".to_string(), Some(vec![e]))];
    match dump_response(&tables) {
        ManagementResponse::DumpResponse(d) => {
            assert!(d[0].1.is_empty());
            assert_eq!(d[1].1[0].parameter_data, vec![5]);
        }
        other => panic!("{:?}", other),
    }
}
