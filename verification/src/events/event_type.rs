use vstd::prelude::*;

verus! {

/// Binlog event types, by the code byte of the event header.
#[allow(non_camel_case_types)]
#[derive(Clone, Copy, Debug, PartialEq, Eq, Structural)]
pub enum EventType {
    /// Any code that this client does not know.
    Unknown,
    /// A statement: code 0x02.
    QUERY_EVENT,
    /// The server stops: code 0x03.
    STOP_EVENT,
    /// The log switches to another file: code 0x04.
    ROTATE_EVENT,
    /// A transaction commits: code 0x10.
    XID_EVENT,
    /// Seed of RAND(): code 0x0d.
    RAND_EVENT,
    /// A user variable: code 0x0e.
    USER_VAR_EVENT,
    /// Describes the log's format: code 0x0f.
    FORMAT_DESCRIPTION_EVENT,
    /// Declares the table of the row events that follow: code 0x13.
    TABLE_MAP_EVENT,
    /// Keeps an idle connection alive: code 0x1b.
    HEARTBEAT_EVENT,
    /// An integer session variable: code 0x05.
    INTVAR_EVENT,
    /// Rows written, MariaDB and MySQL 5.1.15 to 5.6: code 23.
    WRITE_ROWS_EVENT_V1,
    /// Rows updated, MariaDB and MySQL 5.1.15 to 5.6: code 24.
    UPDATE_ROWS_EVENT_V1,
    /// Rows deleted, MariaDB and MySQL 5.1.15 to 5.6: code 25.
    DELETE_ROWS_EVENT_V1,
    /// The statement behind row events, MySQL 5.6 to 8.0: code 29.
    MYSQL_ROWS_QUERY_EVENT,
    /// Rows written, MySQL 5.6 to 8.0: code 30.
    MYSQL_WRITE_ROWS_EVENT_V2,
    /// Rows updated, MySQL 5.6 to 8.0: code 31.
    MYSQL_UPDATE_ROWS_EVENT_V2,
    /// Rows deleted, MySQL 5.6 to 8.0: code 32.
    MYSQL_DELETE_ROWS_EVENT_V2,
    /// A transaction's GTID, MySQL 5.6 to 8.0: code 33.
    MYSQL_GTID_EVENT,
    /// The GTIDs before this log file, MySQL 5.6 to 8.0: code 35.
    MYSQL_PREVIOUS_GTIDS_EVENT,
    /// An XA transaction is prepared, MySQL 5.6 to 8.0: code 38.
    MYSQL_XA_PREPARE,
    /// The statement behind row events, MariaDB: code 160.
    MARIADB_ANNOTATE_ROWS_EVENT,
    /// Binlog checkpoint, MariaDB: code 161.
    MARIADB_BINLOG_CHECKPOINT_EVENT,
    /// A transaction's GTID, MariaDB: code 162.
    MARIADB_GTID_EVENT,
    /// The GTID list of a log file, MariaDB: code 163.
    MARIADB_GTID_LIST_EVENT,
    /// Encryption starts, MariaDB: code 164.
    MARIADB_START_ENCRYPTION_EVENT,
}

impl EventType {
    /// The code byte of a known event type; `Unknown` has none.
    pub open spec fn spec_code(self) -> Option<u8> {
        match self {
            EventType::Unknown => None,
            EventType::QUERY_EVENT => Some(0x02u8),
            EventType::STOP_EVENT => Some(0x03u8),
            EventType::ROTATE_EVENT => Some(0x04u8),
            EventType::XID_EVENT => Some(0x10u8),
            EventType::RAND_EVENT => Some(0x0du8),
            EventType::USER_VAR_EVENT => Some(0x0eu8),
            EventType::FORMAT_DESCRIPTION_EVENT => Some(0x0fu8),
            EventType::TABLE_MAP_EVENT => Some(0x13u8),
            EventType::HEARTBEAT_EVENT => Some(0x1bu8),
            EventType::INTVAR_EVENT => Some(0x05u8),
            EventType::WRITE_ROWS_EVENT_V1 => Some(23u8),
            EventType::UPDATE_ROWS_EVENT_V1 => Some(24u8),
            EventType::DELETE_ROWS_EVENT_V1 => Some(25u8),
            EventType::MYSQL_ROWS_QUERY_EVENT => Some(29u8),
            EventType::MYSQL_WRITE_ROWS_EVENT_V2 => Some(30u8),
            EventType::MYSQL_UPDATE_ROWS_EVENT_V2 => Some(31u8),
            EventType::MYSQL_DELETE_ROWS_EVENT_V2 => Some(32u8),
            EventType::MYSQL_GTID_EVENT => Some(33u8),
            EventType::MYSQL_PREVIOUS_GTIDS_EVENT => Some(35u8),
            EventType::MYSQL_XA_PREPARE => Some(38u8),
            EventType::MARIADB_ANNOTATE_ROWS_EVENT => Some(160u8),
            EventType::MARIADB_BINLOG_CHECKPOINT_EVENT => Some(161u8),
            EventType::MARIADB_GTID_EVENT => Some(162u8),
            EventType::MARIADB_GTID_LIST_EVENT => Some(163u8),
            EventType::MARIADB_START_ENCRYPTION_EVENT => Some(164u8),
        }
    }

    /// Whether some known event type has this code.
    pub open spec fn is_known_code(code: u8) -> bool {
        exists|t: EventType| #[trigger] t.spec_code() == Some(code)
    }

    /// The event type of a code byte. A code that no known type has gives
    /// `Unknown`, never a failure: servers add types over time.
    pub fn from_code(code: u8) -> (t: EventType)
        ensures
            Self::is_known_code(code) ==> t.spec_code() == Some(code),
            !Self::is_known_code(code) ==> t == EventType::Unknown,
    {
        let t = match code {
            0x02 => EventType::QUERY_EVENT,
            0x03 => EventType::STOP_EVENT,
            0x04 => EventType::ROTATE_EVENT,
            0x10 => EventType::XID_EVENT,
            0x0d => EventType::RAND_EVENT,
            0x0e => EventType::USER_VAR_EVENT,
            0x0f => EventType::FORMAT_DESCRIPTION_EVENT,
            0x13 => EventType::TABLE_MAP_EVENT,
            0x1b => EventType::HEARTBEAT_EVENT,
            0x05 => EventType::INTVAR_EVENT,
            23 => EventType::WRITE_ROWS_EVENT_V1,
            24 => EventType::UPDATE_ROWS_EVENT_V1,
            25 => EventType::DELETE_ROWS_EVENT_V1,
            29 => EventType::MYSQL_ROWS_QUERY_EVENT,
            30 => EventType::MYSQL_WRITE_ROWS_EVENT_V2,
            31 => EventType::MYSQL_UPDATE_ROWS_EVENT_V2,
            32 => EventType::MYSQL_DELETE_ROWS_EVENT_V2,
            33 => EventType::MYSQL_GTID_EVENT,
            35 => EventType::MYSQL_PREVIOUS_GTIDS_EVENT,
            38 => EventType::MYSQL_XA_PREPARE,
            160 => EventType::MARIADB_ANNOTATE_ROWS_EVENT,
            161 => EventType::MARIADB_BINLOG_CHECKPOINT_EVENT,
            162 => EventType::MARIADB_GTID_EVENT,
            163 => EventType::MARIADB_GTID_LIST_EVENT,
            164 => EventType::MARIADB_START_ENCRYPTION_EVENT,
            _ => EventType::Unknown,
        };
        assert(t != EventType::Unknown ==> t.spec_code() == Some(code));
        t
    }

    /// No two known event types share a code.
    pub proof fn lemma_code_is_unique(a: EventType, b: EventType)
        requires
            a.spec_code() is Some,
            a.spec_code() == b.spec_code(),
        ensures
            a == b,
    {
    }
}

} // verus!
