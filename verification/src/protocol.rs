//! Management message definitions for SoftNpu implementations: the requests
//! a control plane sends, the responses it gets back, and the decision of
//! what each request does to the P4 pipeline.

use vstd::prelude::*;
use std::collections::BTreeMap;
use crate::bytes::copy_bytes;

verus! {

/// One entry of a P4 table, as the pipeline reports it.
#[derive(Debug)]
pub struct TableEntry {
    pub action_id: String,
    pub keyset_data: Vec<u8>,
    pub parameter_data: Vec<u8>,
}

/// A table entry with its strings as sequences.
pub struct TableEntryView {
    pub action_id: Seq<char>,
    pub keyset_data: Seq<u8>,
    pub parameter_data: Seq<u8>,
}

impl View for TableEntry {
    type V = TableEntryView;

    open spec fn view(&self) -> TableEntryView {
        TableEntryView {
            action_id: self.action_id@,
            keyset_data: self.keyset_data@,
            parameter_data: self.parameter_data@,
        }
    }
}

impl TableEntry {
    /// A copy of this entry.
    pub fn duplicate(&self) -> (e: TableEntry)
        ensures
            e@ == self@,
    {
        TableEntry {
            action_id: self.action_id.clone(),
            keyset_data: copy_bytes(self.keyset_data.as_slice()),
            parameter_data: copy_bytes(self.parameter_data.as_slice()),
        }
    }
}


/// A multicast group identifier; 0 means "no multicast" to the runtime.
pub type MulticastGroupId = u16;

/// A physical port number within a multicast group.
pub type MulticastPort = u16;

/// Adds an entry to a table.
#[derive(Debug)]
pub struct TableAdd {
    pub table: String,
    pub action: String,
    pub keyset_data: Vec<u8>,
    pub parameter_data: Vec<u8>,
}

impl Default for TableAdd {
    fn default() -> (t: TableAdd)
        ensures
            t.table@ == Seq::<char>::empty(),
            t.action@ == Seq::<char>::empty(),
            t.keyset_data@ == Seq::<u8>::empty(),
            t.parameter_data@ == Seq::<u8>::empty(),
    {
        TableAdd {
            table: String::new(),
            action: String::new(),
            keyset_data: Vec::new(),
            parameter_data: Vec::new(),
        }
    }
}

/// Removes the entry with the given key from a table.
#[derive(Debug)]
pub struct TableRemove {
    pub table: String,
    pub keyset_data: Vec<u8>,
}

impl Default for TableRemove {
    fn default() -> (t: TableRemove)
        ensures
            t.table@ == Seq::<char>::empty(),
            t.keyset_data@ == Seq::<u8>::empty(),
    {
        TableRemove { table: String::new(), keyset_data: Vec::new() }
    }
}

/// Creates a multicast group.
#[derive(Debug)]
pub struct MulticastGroupCreate {
    pub group_id: MulticastGroupId,
}

/// Removes a multicast group.
#[derive(Debug)]
pub struct MulticastGroupRemove {
    pub group_id: MulticastGroupId,
}

/// Adds a port to a multicast group. The replication id and the level-1
/// exclusion id are accepted and not used.
#[derive(Debug)]
pub struct MulticastPortAdd {
    pub group_id: MulticastGroupId,
    pub port: MulticastPort,
    pub rid: u16,
    pub level1_excl_id: u16,
}

/// Removes a port from a multicast group.
#[derive(Debug)]
pub struct MulticastPortRemove {
    pub group_id: MulticastGroupId,
    pub port: MulticastPort,
}

/// A request to a SoftNpu management interface.
#[derive(Debug)]
pub enum ManagementRequest {
    RadixRequest,
    TableAdd(TableAdd),
    TableRemove(TableRemove),
    DumpRequest,
    MulticastGroupCreate(MulticastGroupCreate),
    MulticastGroupRemove(MulticastGroupRemove),
    MulticastPortAdd(MulticastPortAdd),
    MulticastPortRemove(MulticastPortRemove),
    MulticastGroupList,
}

impl Default for ManagementRequest {
    fn default() -> (r: ManagementRequest)
        ensures
            r is RadixRequest,
    {
        ManagementRequest::RadixRequest
    }
}

/// A response of a SoftNpu management interface. A dump lists each table
/// id with its entries, in the order the pipeline lists its tables.
#[derive(Debug)]
pub enum ManagementResponse {
    RadixResponse(u16),
    DumpResponse(Vec<(String, Vec<TableEntry>)>),
    MulticastGroupListResponse(BTreeMap<MulticastGroupId, Vec<MulticastPort>>),
}

/// Errors from multicast management operations.
#[derive(Debug, PartialEq, Eq, Structural)]
pub enum MulticastError {
    /// Group 0 is reserved: the runtime treats 0 as no-multicast.
    ReservedGroupId,
}

impl MulticastError {
    /// The message that describes the error.
    pub fn message(&self) -> (m: String)
        ensures
            m@ == "group ID 0 is reserved (the runtime treats 0 as no-multicast)"@,
    {
        match self {
            MulticastError::ReservedGroupId => String::from_str(
                "group ID 0 is reserved (the runtime treats 0 as no-multicast)",
            ),
        }
    }
}

/// Refuses the reserved group id 0.
pub fn validate_group_id(group_id: MulticastGroupId) -> (r: Result<(), MulticastError>)
    ensures
        r is Ok <==> group_id != 0,
        r is Err ==> r == Err::<(), MulticastError>(MulticastError::ReservedGroupId),
{
    if group_id == 0 {
        return Err(MulticastError::ReservedGroupId);
    }
    Ok(())
}

/// The multicast operations, by name, for reporting a refused request.
#[derive(Clone, Copy, Debug, PartialEq, Eq, Structural)]
pub enum MulticastOperation {
    GroupCreate,
    GroupRemove,
    PortAdd,
    PortRemove,
}

/// What the management interface does for one request.
#[derive(Debug)]
pub enum PipelineAction {
    /// Add this entry to the pipeline's table.
    AddTableEntry(TableAdd),
    /// Remove this entry from the pipeline's table.
    RemoveTableEntry(TableRemove),
    /// Send this response.
    Respond(ManagementResponse),
    /// Dump every table of the pipeline and send the dump.
    DumpTables,
    CreateMulticastGroup(MulticastGroupId),
    RemoveMulticastGroup(MulticastGroupId),
    AddMulticastPort { group_id: MulticastGroupId, port: MulticastPort },
    RemoveMulticastPort { group_id: MulticastGroupId, port: MulticastPort },
    /// List the pipeline's multicast groups and send the list.
    ListMulticastGroups,
    /// Report the refusal and leave the pipeline as it is.
    Reject(MulticastOperation, MulticastError),
}

/// Whether `a` reaches the pipeline with multicast group `g`.
pub open spec fn action_touches_group(a: PipelineAction, g: MulticastGroupId) -> bool {
    match a {
        PipelineAction::CreateMulticastGroup(id) => id == g,
        PipelineAction::RemoveMulticastGroup(id) => id == g,
        PipelineAction::AddMulticastPort { group_id, .. } => group_id == g,
        PipelineAction::RemoveMulticastPort { group_id, .. } => group_id == g,
        _ => false,
    }
}

/// Decides what a management request does. Table changes go to the
/// pipeline as they are; a radix request is answered with the port count
/// (truncated to 16 bits); a multicast change on group 0 is refused;
/// dumps and group lists are read from the pipeline.
pub fn handle_management_message(msg: ManagementRequest, radix: usize) -> (a: PipelineAction)
    ensures
        a == management_decision(msg, radix),
{
    match msg {
        ManagementRequest::TableAdd(t) => PipelineAction::AddTableEntry(t),
        ManagementRequest::TableRemove(t) => PipelineAction::RemoveTableEntry(t),
        ManagementRequest::RadixRequest => PipelineAction::Respond(
            ManagementResponse::RadixResponse(radix as u16),
        ),
        ManagementRequest::DumpRequest => PipelineAction::DumpTables,
        ManagementRequest::MulticastGroupCreate(req) => match validate_group_id(req.group_id) {
            Err(e) => PipelineAction::Reject(MulticastOperation::GroupCreate, e),
            Ok(()) => PipelineAction::CreateMulticastGroup(req.group_id),
        },
        ManagementRequest::MulticastGroupRemove(req) => match validate_group_id(req.group_id) {
            Err(e) => PipelineAction::Reject(MulticastOperation::GroupRemove, e),
            Ok(()) => PipelineAction::RemoveMulticastGroup(req.group_id),
        },
        ManagementRequest::MulticastPortAdd(req) => match validate_group_id(req.group_id) {
            Err(e) => PipelineAction::Reject(MulticastOperation::PortAdd, e),
            Ok(()) => PipelineAction::AddMulticastPort { group_id: req.group_id, port: req.port },
        },
        ManagementRequest::MulticastPortRemove(req) => match validate_group_id(req.group_id) {
            Err(e) => PipelineAction::Reject(MulticastOperation::PortRemove, e),
            Ok(()) => PipelineAction::RemoveMulticastPort {
                group_id: req.group_id,
                port: req.port,
            },
        },
        ManagementRequest::MulticastGroupList => PipelineAction::ListMulticastGroups,
    }
}

/// The action for a request: table changes go to the pipeline as they are;
/// a radix request is answered with the port count truncated to 16 bits; a
/// multicast change on group 0 is refused; dumps and group lists are read
/// from the pipeline.
pub open spec fn management_decision(msg: ManagementRequest, radix: usize) -> PipelineAction {
    match msg {
        ManagementRequest::TableAdd(t) => PipelineAction::AddTableEntry(t),
        ManagementRequest::TableRemove(t) => PipelineAction::RemoveTableEntry(t),
        ManagementRequest::RadixRequest => PipelineAction::Respond(
            ManagementResponse::RadixResponse(radix as u16),
        ),
        ManagementRequest::DumpRequest => PipelineAction::DumpTables,
        ManagementRequest::MulticastGroupCreate(c) => if c.group_id == 0 {
            PipelineAction::Reject(MulticastOperation::GroupCreate, MulticastError::ReservedGroupId)
        } else {
            PipelineAction::CreateMulticastGroup(c.group_id)
        },
        ManagementRequest::MulticastGroupRemove(c) => if c.group_id == 0 {
            PipelineAction::Reject(MulticastOperation::GroupRemove, MulticastError::ReservedGroupId)
        } else {
            PipelineAction::RemoveMulticastGroup(c.group_id)
        },
        ManagementRequest::MulticastPortAdd(c) => if c.group_id == 0 {
            PipelineAction::Reject(MulticastOperation::PortAdd, MulticastError::ReservedGroupId)
        } else {
            PipelineAction::AddMulticastPort { group_id: c.group_id, port: c.port }
        },
        ManagementRequest::MulticastPortRemove(c) => if c.group_id == 0 {
            PipelineAction::Reject(MulticastOperation::PortRemove, MulticastError::ReservedGroupId)
        } else {
            PipelineAction::RemoveMulticastPort { group_id: c.group_id, port: c.port }
        },
        ManagementRequest::MulticastGroupList => PipelineAction::ListMulticastGroups,
    }
}

/// The reserved multicast group 0 never reaches the pipeline: whatever the
/// request, its action does not create, remove or change group 0.
pub proof fn lemma_reserved_group_never_reaches_pipeline(msg: ManagementRequest, radix: usize)
    ensures
        !action_touches_group(management_decision(msg, radix), 0),
{
}

/// Whether a request changes the pipeline's tables or multicast groups.
pub open spec fn is_mutation(msg: ManagementRequest) -> bool {
    match msg {
        ManagementRequest::TableAdd(_) | ManagementRequest::TableRemove(_)
        | ManagementRequest::MulticastGroupCreate(_) | ManagementRequest::MulticastGroupRemove(_)
        | ManagementRequest::MulticastPortAdd(_) | ManagementRequest::MulticastPortRemove(_) => true,
        _ => false,
    }
}

/// Whether an action sends a response to the requester.
pub open spec fn answers(a: PipelineAction) -> bool {
    a is Respond || a is DumpTables || a is ListMulticastGroups
}

/// Changes are fire-and-forget: no request that changes the pipeline is
/// answered, and every request that only reads it is.
pub proof fn lemma_only_queries_are_answered(msg: ManagementRequest, radix: usize)
    ensures
        is_mutation(msg) ==> !answers(management_decision(msg, radix)),
        !is_mutation(msg) ==> answers(management_decision(msg, radix)),
{
}

/// Whether `s` is in ascending order.
pub open spec fn sorted_ports(s: Seq<MulticastPort>) -> bool {
    forall|i: int, j: int| 0 <= i <= j < s.len() ==> s[i] <= s[j]
}

/// The ports in ascending order.
pub fn sort_ports(ports: &Vec<MulticastPort>) -> (sorted: Vec<MulticastPort>)
    ensures
        sorted_ports(sorted@),
        sorted@.to_multiset() == ports@.to_multiset(),
{
    broadcast use vstd::seq_lib::group_to_multiset_ensures;

    let mut out: Vec<MulticastPort> = Vec::new();
    let mut i: usize = 0;
    while i < ports.len()
        invariant
            i <= ports@.len(),
            sorted_ports(out@),
            out@.to_multiset() == ports@.take(i as int).to_multiset(),
        decreases ports@.len() - i,
    {
        let x = ports[i];
        let mut p: usize = 0;
        while p < out.len() && out[p] <= x
            invariant
                p <= out@.len(),
                forall|k: int| 0 <= k < p ==> out@[k] <= x,
            decreases out@.len() - p,
        {
            p = p + 1;
        }
        let ghost before = out@;
        out.insert(p, x);
        assert(sorted_ports(out@)) by {
            assert forall|a: int, b: int| 0 <= a <= b < out@.len() implies out@[a] <= out@[b] by {
                if a < p && b > p {
                    assert(out@[a] == before[a]);
                    assert(out@[b] == before[b - 1]);
                } else if a == p && b > p {
                    assert(out@[b] == before[b - 1]);
                    assert(before[p as int] > x);
                }
            }
        }
        assert(out@.to_multiset() == before.insert(p as int, x).to_multiset());
        proof {
            vstd::seq_lib::to_multiset_insert(before, p as int, x);
            vstd::seq_lib::to_multiset_build(ports@.take(i as int), x);
        }
        assert(ports@.take(i + 1) =~= ports@.take(i as int).push(x));
        assert(ports@.take(i as int).push(x).to_multiset() == ports@.take(
            i as int,
        ).to_multiset().insert(x));
        i = i + 1;
    }
    assert(ports@.take(i as int) =~= ports@);
    out
}


/// Whether entry `k` of `groups` is the last one with its group id.
pub open spec fn last_of_its_group(groups: Seq<(MulticastGroupId, Vec<MulticastPort>)>, k: int) -> bool {
    forall|j: int| k < j < groups.len() ==> groups[j].0 != groups[k].0
}

/// Whether `list` holds the groups `groups`: each group id that occurs in
/// them, with the ports of its last entry in ascending order.
pub open spec fn lists_groups(
    list: Map<MulticastGroupId, Vec<MulticastPort>>,
    groups: Seq<(MulticastGroupId, Vec<MulticastPort>)>,
) -> bool {
    &&& forall|g: MulticastGroupId|
        #![trigger list.contains_key(g)]
        list.contains_key(g) <==> exists|k: int| 0 <= k < groups.len() && (#[trigger] groups[k]).0 == g
    &&& forall|k: int|
        0 <= k < groups.len() && last_of_its_group(groups, k) ==> {
            let ports = list[(#[trigger] groups[k]).0]@;
            &&& sorted_ports(ports)
            &&& ports.to_multiset() == groups[k].1@.to_multiset()
        }
}

/// The first `i` entries of `groups`.
pub open spec fn first_groups(groups: Seq<(MulticastGroupId, Vec<MulticastPort>)>, i: usize) -> Seq<
    (MulticastGroupId, Vec<MulticastPort>),
> {
    groups.take(i as int)
}

/// Entering the ports `sorted` of entry `i` under its group id extends a
/// list of the first `i` entries to one of the first `i + 1`.
proof fn lemma_list_next_group(
    before: Map<MulticastGroupId, Vec<MulticastPort>>,
    after: Map<MulticastGroupId, Vec<MulticastPort>>,
    groups: Seq<(MulticastGroupId, Vec<MulticastPort>)>,
    i: usize,
    sorted: Vec<MulticastPort>,
)
    requires
        i < groups.len() <= usize::MAX,
        lists_groups(before, first_groups(groups, i)),
        after == before.insert(groups[i as int].0, sorted),
        sorted_ports(sorted@),
        sorted@.to_multiset() == groups[i as int].1@.to_multiset(),
    ensures
        lists_groups(after, first_groups(groups, (i + 1) as usize)),
{
    let prefix = first_groups(groups, i);
    let next = first_groups(groups, (i + 1) as usize);
    assert(next =~= prefix.push(groups[i as int]));
    assert(next[i as int] == groups[i as int]);
    assert forall|g: MulticastGroupId|
        #![trigger after.contains_key(g)]
        after.contains_key(g) <==> exists|k: int| 0 <= k < next.len() && (#[trigger] next[k]).0 == g by {
        if after.contains_key(g) {
            if g != groups[i as int].0 {
                assert(before.contains_key(g));
                let k = choose|k: int| 0 <= k < prefix.len() && (#[trigger] prefix[k]).0 == g;
                assert(next[k] == prefix[k]);
            }
        }
        if exists|k: int| 0 <= k < next.len() && (#[trigger] next[k]).0 == g {
            let k = choose|k: int| 0 <= k < next.len() && (#[trigger] next[k]).0 == g;
            if k < i {
                assert(prefix[k] == next[k]);
                assert(before.contains_key(g));
            }
        }
    }
    assert forall|k: int| 0 <= k < next.len() && last_of_its_group(next, k) implies {
        let ports = after[(#[trigger] next[k]).0]@;
        &&& sorted_ports(ports)
        &&& ports.to_multiset() == next[k].1@.to_multiset()
    } by {
        if k < i {
            assert(next[k] == prefix[k]);
            assert(next[i as int].0 != next[k].0);
            assert(last_of_its_group(prefix, k)) by {
                assert forall|j: int| k < j < prefix.len() implies prefix[j].0 != prefix[k].0 by {
                    assert(next[j] == prefix[j]);
                }
            }
        }
    }
}

proof fn lemma_all_groups(groups: Seq<(MulticastGroupId, Vec<MulticastPort>)>, i: usize)
    requires
        i == groups.len(),
    ensures
        first_groups(groups, i) == groups,
{
    assert(first_groups(groups, i) =~= groups);
}

/// The multicast group list: each group of the pipeline with its ports in
/// ascending order, keyed by group id (where an id is given twice, its last
/// ports count).
pub fn multicast_group_list(groups: &Vec<(MulticastGroupId, Vec<MulticastPort>)>) -> (list:
    BTreeMap<MulticastGroupId, Vec<MulticastPort>>)
    ensures
        lists_groups(list@, groups@),
{
    broadcast use vstd::std_specs::btree::group_btree_axioms, vstd::laws_cmp::group_laws_cmp;

    let mut list: BTreeMap<MulticastGroupId, Vec<MulticastPort>> = BTreeMap::new();
    let mut i: usize = 0;
    assert(lists_groups(list@, first_groups(groups@, i)));
    while i < groups.len()
        invariant
            i <= groups@.len(),
            lists_groups(list@, first_groups(groups@, i)),
        decreases groups@.len() - i,
    {
        let ghost before = list@;
        let group = &groups[i];
        let sorted = sort_ports(&group.1);
        let ghost s = sorted;
        list.insert(group.0, sorted);
        proof {
            lemma_list_next_group(before, list@, groups@, i, s);
        }
        i = i + 1;
    }
    proof {
        lemma_all_groups(groups@, i);
    }
    list
}

/// The response to a multicast group list request.
pub fn multicast_group_list_response(groups: &Vec<(MulticastGroupId, Vec<MulticastPort>)>) -> (r:
    ManagementResponse)
    ensures
        r matches ManagementResponse::MulticastGroupListResponse(list) && lists_groups(list@, groups@),
{
    ManagementResponse::MulticastGroupListResponse(multicast_group_list(groups))
}

/// The views of table entries.
pub open spec fn entry_views(es: Seq<TableEntry>) -> Seq<TableEntryView> {
    es.map_values(|e: TableEntry| e@)
}

/// Copies of the entries `es`.
pub fn copy_entries(es: &Vec<TableEntry>) -> (out: Vec<TableEntry>)
    ensures
        entry_views(out@) == entry_views(es@),
{
    let mut out: Vec<TableEntry> = Vec::new();
    let mut i: usize = 0;
    while i < es.len()
        invariant
            i <= es@.len(),
            entry_views(out@) == entry_views(es@).take(i as int),
        decreases es@.len() - i,
    {
        let e = es[i].duplicate();
        let ghost before = out@;
        out.push(e);
        assert(entry_views(out@) =~= entry_views(before).push(es@[i as int]@));
        i = i + 1;
        assert(entry_views(es@).take(i as int) =~= entry_views(es@).take((i - 1) as int).push(
            es@[i - 1]@,
        ));
    }
    assert(entry_views(es@).take(i as int) =~= entry_views(es@));
    out
}

/// The entries that a dump shows for a table: those the pipeline reports,
/// or none where it reports nothing.
pub open spec fn dumped_entries(reported: Option<Vec<TableEntry>>) -> Seq<TableEntryView> {
    match reported {
        Some(es) => entry_views(es@),
        None => Seq::empty(),
    }
}

/// The response to a dump request: each table id that the pipeline lists,
/// with the entries it reports for that table (none where it reports
/// nothing).
pub fn dump_response(tables: &Vec<(String, Option<Vec<TableEntry>>)>) -> (r: ManagementResponse)
    ensures
        r matches ManagementResponse::DumpResponse(dump) && dump@.len() == tables@.len() && (
        forall|k: int|
            0 <= k < tables@.len() ==> (#[trigger] dump@[k]).0@ == tables@[k].0@ && entry_views(
                dump@[k].1@,
            ) == dumped_entries(tables@[k].1)),
{
    let mut dump: Vec<(String, Vec<TableEntry>)> = Vec::new();
    let mut i: usize = 0;
    while i < tables.len()
        invariant
            i <= tables@.len(),
            dump@.len() == i,
            forall|k: int|
                0 <= k < i ==> (#[trigger] dump@[k]).0@ == tables@[k].0@ && entry_views(
                    dump@[k].1@,
                ) == dumped_entries(tables@[k].1),
        decreases tables@.len() - i,
    {
        let (id, reported) = &tables[i];
        let entries = match reported {
            Some(es) => copy_entries(es),
            None => Vec::new(),
        };
        assert(entry_views(entries@) =~= dumped_entries(tables@[i as int].1));
        dump.push((id.clone(), entries));
        i = i + 1;
    }
    ManagementResponse::DumpResponse(dump)
}

} // verus!
