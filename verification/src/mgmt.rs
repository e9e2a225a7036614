//! The management interface of the standalone SoftNpu: table changes,
//! table counters, radix and dump requests.

use vstd::prelude::*;
pub use crate::protocol::{TableAdd, TableEntry, TableRemove};
use crate::protocol::{dump_response as protocol_dump_response, entry_views, dumped_entries};
use crate::protocol::ManagementResponse as ProtocolResponse;

verus! {

/// Asks for the counters of a table.
#[derive(Debug)]
pub struct TableCounters {
    pub table: String,
}

impl Default for TableCounters {
    fn default() -> (t: TableCounters)
        ensures
            t.table@ == Seq::<char>::empty(),
    {
        TableCounters { table: String::new() }
    }
}

/// A request to the standalone SoftNpu's management interface.
#[derive(Debug)]
pub enum ManagementRequest {
    RadixRequest,
    TableAdd(TableAdd),
    TableRemove(TableRemove),
    TableCounters(TableCounters),
    DumpRequest,
}

impl Default for ManagementRequest {
    fn default() -> (r: ManagementRequest)
        ensures
            r is RadixRequest,
    {
        ManagementRequest::RadixRequest
    }
}

/// A response of the standalone SoftNpu's management interface. Counters
/// are listed per key; a table without counters has none.
#[derive(Debug)]
pub enum ManagementResponse {
    RadixResponse(u16),
    DumpResponse(Vec<(String, Vec<TableEntry>)>),
    TableCountersResponse(Option<Vec<(Vec<u8>, u128)>>),
}

/// What the management interface does for one request.
#[derive(Debug)]
pub enum PipelineAction {
    AddTableEntry(TableAdd),
    RemoveTableEntry(TableRemove),
    /// Read the counters of this table and send them.
    ReadCounters(String),
    /// Send this response.
    Respond(ManagementResponse),
    /// Dump every table and send the dump.
    DumpTables,
}

/// Decides what a management request does: table changes go to the
/// pipeline as they are, a radix request is answered with the port count
/// (truncated to 16 bits), counters and dumps are read from the pipeline.
pub fn handle_management_message(msg: ManagementRequest, radix: usize) -> (a: PipelineAction)
    ensures
        match msg {
            ManagementRequest::TableAdd(t) => a == PipelineAction::AddTableEntry(t),
            ManagementRequest::TableRemove(t) => a == PipelineAction::RemoveTableEntry(t),
            ManagementRequest::TableCounters(c) => a == PipelineAction::ReadCounters(c.table),
            ManagementRequest::RadixRequest => a matches PipelineAction::Respond(
                ManagementResponse::RadixResponse(n),
            ) && n == radix as u16,
            ManagementRequest::DumpRequest => a is DumpTables,
        },
{
    match msg {
        ManagementRequest::TableAdd(t) => PipelineAction::AddTableEntry(t),
        ManagementRequest::TableRemove(t) => PipelineAction::RemoveTableEntry(t),
        ManagementRequest::TableCounters(c) => PipelineAction::ReadCounters(c.table),
        ManagementRequest::RadixRequest => PipelineAction::Respond(
            ManagementResponse::RadixResponse(radix as u16),
        ),
        ManagementRequest::DumpRequest => PipelineAction::DumpTables,
    }
}

/// The response to a dump request: each table id that the pipeline lists,
/// with the entries it reports for that table (none where it reports
/// nothing).
pub fn dump_response(tables: &Vec<(String, Option<Vec<TableEntry>>)>) -> (r: ManagementResponse)
    ensures
        r matches ManagementResponse::DumpResponse(dump) && dump@.len() == tables@.len() && (
        forall|k: int|
            0 <= k < tables@.len() ==> (#[trigger] dump@[k]).0@ == tables@[k].0@ && entry_views(
                dump@[k].1@,
            ) == dumped_entries(tables@[k].1)),
{
    match protocol_dump_response(tables) {
        ProtocolResponse::DumpResponse(dump) => ManagementResponse::DumpResponse(dump),
        _ => {
            assert(false);
            unreached()
        },
    }
}

} // verus!
