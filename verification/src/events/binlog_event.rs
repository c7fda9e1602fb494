use vstd::prelude::*;
use crate::events::format_description_event::{FormatDescriptionEvent, FormatDescriptionEventView};
use crate::events::rotate_event::{RotateEvent, RotateEventView};

verus! {

/// Declares the table of the row events that follow. Only its presence
/// matters to position tracking.
#[derive(Clone, Copy, Debug, PartialEq, Eq, Structural)]
pub struct TableMapEvent {
    /// Identifier of the table.
    pub table_id: u64,
}

/// A transaction's global identifier, MariaDB.
#[derive(Clone, Copy, Debug, PartialEq, Eq, Structural)]
pub struct MariaDbGtidEvent {
    pub gtid: crate::providers::mariadb::Gtid,
}

/// A transaction's global identifier, MySQL.
#[derive(Clone, Copy, Debug, PartialEq, Eq, Structural)]
pub struct MySqlGtidEvent {
    pub gtid: crate::providers::mysql::Gtid,
}

/// A statement.
#[derive(Clone, Debug)]
pub struct QueryEvent {
    /// Text of the statement.
    pub sql_statement: String,
}

/// A transaction commits.
#[derive(Clone, Copy, Debug, PartialEq, Eq, Structural)]
pub struct XidEvent {
    /// Identifier of the transaction.
    pub xid: u64,
}

/// An event of the replication stream, as far as this client reads it.
#[derive(Clone, Debug)]
pub enum BinlogEvent {
    FormatDescriptionEvent(FormatDescriptionEvent),
    RotateEvent(RotateEvent),
    TableMapEvent(TableMapEvent),
    MariaDbGtidEvent(MariaDbGtidEvent),
    MySqlGtidEvent(MySqlGtidEvent),
    QueryEvent(QueryEvent),
    XidEvent(XidEvent),
    /// An event of a type that this client does not decode.
    UnknownEvent,
}

/// What an event says, as plain values.
pub enum BinlogEventView {
    FormatDescription(FormatDescriptionEventView),
    Rotate(RotateEventView),
    TableMap(TableMapEvent),
    MariaDbGtid(crate::providers::mariadb::Gtid),
    MySqlGtid(crate::providers::mysql::Gtid),
    Query { sql_statement: Seq<char> },
    Xid(XidEvent),
    Unknown,
}

impl View for BinlogEvent {
    type V = BinlogEventView;

    open spec fn view(&self) -> BinlogEventView {
        match self {
            BinlogEvent::FormatDescriptionEvent(x) => BinlogEventView::FormatDescription(x@),
            BinlogEvent::RotateEvent(x) => BinlogEventView::Rotate(x@),
            BinlogEvent::TableMapEvent(x) => BinlogEventView::TableMap(*x),
            BinlogEvent::MariaDbGtidEvent(x) => BinlogEventView::MariaDbGtid(x.gtid),
            BinlogEvent::MySqlGtidEvent(x) => BinlogEventView::MySqlGtid(x.gtid),
            BinlogEvent::QueryEvent(x) => BinlogEventView::Query { sql_statement: x.sql_statement@ },
            BinlogEvent::XidEvent(x) => BinlogEventView::Xid(*x),
            BinlogEvent::UnknownEvent => BinlogEventView::Unknown,
        }
    }
}

} // verus!
