use vstd::prelude::*;
use crate::commands::query_command::QueryCommand;
use crate::configure::{
    checksum_answer, heartbeat_command, master_position, master_status, negotiated_checksum,
    row_texts,
};
use crate::constants::checksum_type::ChecksumType;
use crate::errors::Error;
use crate::events::binlog_event::{BinlogEvent, BinlogEventView};
use crate::events::event_header::EventHeader;
use crate::providers::mariadb::merged;
use crate::providers::mariadb::Gtid as MariaGtid;
use crate::providers::mysql::Gtid as MySqlGtid;
use crate::replica_options::{BinlogOptionsView, ReplicaOptions};
use crate::responses::result_set_row_packet::ResultSetRowPacket;
use crate::text::decimal_text;
use crate::ssl_mode::SslMode;
use crate::starting_strategy::StartingStrategy;
use crate::text::text_equals;

verus! {

/// MySQL replication client: it holds the settings of the connection, the
/// replication position that committed events move forward, and the state of
/// the running session.
pub struct BinlogClient {
    /// Settings of the connection; `options.binlog` is the checkpoint to
    /// keep for the next connection.
    pub options: ReplicaOptions,
    /// Whether a transaction is open in this session.
    transaction: bool,
    /// The last MariaDB transaction identifier seen in this session.
    maria_gtid: Option<MariaGtid>,
    /// The last MySQL transaction identifier seen in this session.
    mysql_gtid: Option<MySqlGtid>,
}

/// What position tracking reads and changes of a client, as plain values.
pub struct ClientView {
    /// The replication position.
    pub binlog: BinlogOptionsView,
    /// Whether a transaction is open.
    pub transaction: bool,
    /// The pending MariaDB transaction identifier.
    pub maria_gtid: Option<MariaGtid>,
    /// The pending MySQL transaction identifier.
    pub mysql_gtid: Option<MySqlGtid>,
}

/// The state after the pending identifiers were merged into the collections
/// that the position holds: the transaction is closed; the identifiers stay
/// pending.
pub open spec fn finalized(s: ClientView) -> ClientView {
    ClientView {
        transaction: false,
        binlog: BinlogOptionsView {
            gtid_list: match (s.maria_gtid, s.binlog.gtid_list) {
                (Some(gtid), Some(list)) => Some(merged(list, gtid)),
                _ => s.binlog.gtid_list,
            },
            gtid_set: match (s.mysql_gtid, s.binlog.gtid_set) {
                (Some(gtid), Some(set)) => Some(set.insert(gtid)),
                _ => s.binlog.gtid_set,
            },
            ..s.binlog
        },
        ..s
    }
}

/// The state after the transaction identifiers took note of a committed
/// event. Nothing happens unless the session started from identifiers.
pub open spec fn gtid_tracked(s: ClientView, event: BinlogEventView) -> ClientView {
    if s.binlog.starting_strategy != StartingStrategy::FromGtid {
        s
    } else {
        match event {
            BinlogEventView::MariaDbGtid(gtid) => ClientView { maria_gtid: Some(gtid), ..s },
            BinlogEventView::MySqlGtid(gtid) => ClientView { mysql_gtid: Some(gtid), ..s },
            BinlogEventView::Xid(_) => finalized(s),
            BinlogEventView::Query { sql_statement } => {
                if sql_statement.len() == 0 {
                    s
                } else if sql_statement == "BEGIN"@ {
                    ClientView { transaction: true, ..s }
                } else if sql_statement == "COMMIT"@ || sql_statement == "ROLLBACK"@
                    || !s.transaction {
                    finalized(s)
                } else {
                    s
                }
            },
            _ => s,
        }
    }
}

/// The offset that a rotate event's position leaves in the 32 bits of the
/// tracked offset.
pub open spec fn rotated_offset(position: u64) -> u32 {
    (position % 0x1_0000_0000) as u32
}

/// The state after file and offset took note of a committed event.
///
/// A table map changes nothing: the row events behind it need it, so a new
/// session must read it again. A rotate event names the file and offset to
/// go on from. Any other event moves the offset behind itself, unless its
/// header leaves the next position at zero.
pub open spec fn position_tracked(
    s: ClientView,
    header: EventHeader,
    event: BinlogEventView,
) -> ClientView {
    match event {
        BinlogEventView::TableMap(_) => s,
        BinlogEventView::Rotate(rotate) => ClientView {
            binlog: BinlogOptionsView {
                filename: rotate.binlog_filename,
                position: rotated_offset(rotate.binlog_position),
                ..s.binlog
            },
            ..s
        },
        _ => if header.next_event_position > 0 {
            ClientView {
                binlog: BinlogOptionsView { position: header.next_event_position, ..s.binlog },
                ..s
            }
        } else {
            s
        },
    }
}

/// The state after an event was committed.
pub open spec fn committed(s: ClientView, header: EventHeader, event: BinlogEventView) -> ClientView {
    position_tracked(gtid_tracked(s, event), header, event)
}

impl View for BinlogClient {
    type V = ClientView;

    open spec fn view(&self) -> ClientView {
        ClientView {
            binlog: self.settings().binlog@,
            transaction: self.in_transaction(),
            maria_gtid: self.pending_mariadb_gtid(),
            mysql_gtid: self.pending_mysql_gtid(),
        }
    }
}

impl BinlogClient {
    /// The settings of the connection, replication position included.
    pub closed spec fn settings(&self) -> ReplicaOptions {
        self.options
    }

    /// Whether a transaction is open in this session.
    pub closed spec fn in_transaction(&self) -> bool {
        self.transaction
    }

    /// The last MariaDB transaction identifier seen in this session.
    pub closed spec fn pending_mariadb_gtid(&self) -> Option<MariaGtid> {
        self.maria_gtid
    }

    /// The last MySQL transaction identifier seen in this session.
    pub closed spec fn pending_mysql_gtid(&self) -> Option<MySqlGtid> {
        self.mysql_gtid
    }

    /// Whether the settings other than the replication position are those of
    /// `other`.
    pub open spec fn same_connection(&self, other: &BinlogClient) -> bool {
        &&& self.settings().port == other.settings().port
        &&& self.settings().hostname == other.settings().hostname
        &&& self.settings().ssl_mode == other.settings().ssl_mode
        &&& self.settings().username == other.settings().username
        &&& self.settings().password == other.settings().password
        &&& self.settings().database == other.settings().database
        &&& self.settings().server_id == other.settings().server_id
        &&& self.settings().blocking == other.settings().blocking
        &&& self.settings().heartbeat_interval == other.settings().heartbeat_interval
    }

    /// A client with the given settings and no session. Encrypted
    /// connections are not supported: any mode but `Disabled` is refused.
    pub fn new(options: ReplicaOptions) -> (r: Result<BinlogClient, Error>)
        ensures
            options.ssl_mode == SslMode::Disabled ==> r is Ok && r->Ok_0.settings() == options
                && !r->Ok_0.in_transaction() && r->Ok_0.pending_mariadb_gtid() is None
                && r->Ok_0.pending_mysql_gtid() is None,
            options.ssl_mode != SslMode::Disabled ==> r is Err && r->Err_0.protocol_message()
                == Some("Ssl encryption is not supported in this version"@),
    {
        if options.ssl_mode != SslMode::Disabled {
            return Err(Error::protocol("Ssl encryption is not supported in this version"));
        }
        Ok(Self { options, transaction: false, maria_gtid: None, mysql_gtid: None })
    }

    /// Forgets the state of the last session. Every connection attempt starts
    /// with this, whatever the last session left behind.
    pub fn start_session(&mut self)
        ensures
            !final(self).in_transaction(),
            final(self).pending_mariadb_gtid() is None,
            final(self).pending_mysql_gtid() is None,
            final(self).settings() == old(self).settings(),
    {
        self.transaction = false;
        self.maria_gtid = None;
        self.mysql_gtid = None;
    }

    /// The identifier that the client registers with: its own where the
    /// session blocks at the end of the log, else zero, which tells the
    /// server that the registration is not to last.
    pub fn session_server_id(&self) -> (id: u32)
        ensures
            id == if self.settings().blocking {
                self.settings().server_id
            } else {
                0
            },
    {
        if self.options.blocking {
            self.options.server_id
        } else {
            0
        }
    }

    /// Whether the session has to ask the server where its log ends: only
    /// where it starts from the end and no file is known yet, so that a new
    /// connection goes on from the checkpoint and skips nothing.
    pub open spec fn lacks_starting_position(&self) -> bool {
        self.settings().binlog.starting_strategy == StartingStrategy::FromEnd
            && self.settings().binlog.filename@.len() == 0
    }

    /// Whether the session has to ask the server where its log ends.
    pub fn needs_starting_position(&self) -> (needed: bool)
        ensures
            needed == self.lacks_starting_position(),
    {
        self.options.binlog.starting_strategy == StartingStrategy::FromEnd
            && self.options.binlog.filename.as_str().is_empty()
    }

    /// Takes the starting position from the answer to the status query,
    /// where the session lacks one; else the answer is not looked at. A
    /// failure leaves the position as it was.
    pub fn adjust_starting_position(&mut self, result_set: &Vec<ResultSetRowPacket>) -> (r: Result<
        (),
        Error,
    >)
        ensures
            final(self).same_connection(old(self)),
            final(self).in_transaction() == old(self).in_transaction(),
            final(self).pending_mariadb_gtid() == old(self).pending_mariadb_gtid(),
            final(self).pending_mysql_gtid() == old(self).pending_mysql_gtid(),
            final(self).settings().binlog.wf() == old(self).settings().binlog.wf(),
            !old(self).lacks_starting_position() ==> r is Ok && final(self).settings() == old(
                self,
            ).settings(),
            old(self).lacks_starting_position() ==> match master_status(row_texts(result_set@)) {
                Ok((filename, position)) => r is Ok && final(self).settings().binlog@ == (
                BinlogOptionsView { filename, position, ..old(self).settings().binlog@ }),
                Err(f) => r is Err && f.reported_as(r->Err_0) && final(self).settings() == old(
                    self,
                ).settings(),
            },
    {
        if !self.needs_starting_position() {
            return Ok(());
        }
        let (filename, position) = master_position(result_set)?;
        self.options.binlog.filename = filename;
        self.options.binlog.position = position;
        Ok(())
    }

    /// The command that asks the server for heartbeats at the interval of
    /// the settings.
    pub fn set_master_heartbeat(&self) -> (c: QueryCommand)
        ensures
            c.sql@ == "set @master_heartbeat_period="@ + decimal_text(
                self.settings().heartbeat_interval as nat * 1_000_000,
            ),
    {
        heartbeat_command(self.options.heartbeat_interval)
    }

    /// The checksum mode of the session, from the answer to the checksum
    /// query. The parser starts in this mode: the first event of the stream
    /// comes before any format description.
    pub fn set_master_binlog_checksum(&self, result_set: &Vec<ResultSetRowPacket>) -> (r: Result<
        ChecksumType,
        Error,
    >)
        ensures
            match checksum_answer(row_texts(result_set@)) {
                Ok(t) => r == Ok::<ChecksumType, Error>(t),
                Err(f) => r is Err && f.reported_as(r->Err_0),
            },
    {
        negotiated_checksum(result_set)
    }

    /// Whether a transaction is open in this session.
    pub fn transaction_open(&self) -> (open: bool)
        ensures
            open == self.in_transaction(),
    {
        self.transaction
    }

    /// The last MariaDB transaction identifier seen in this session.
    pub fn mariadb_gtid(&self) -> (gtid: Option<MariaGtid>)
        ensures
            gtid == self.pending_mariadb_gtid(),
    {
        self.maria_gtid
    }

    /// The last MySQL transaction identifier seen in this session.
    pub fn mysql_gtid(&self) -> (gtid: Option<MySqlGtid>)
        ensures
            gtid == self.pending_mysql_gtid(),
    {
        self.mysql_gtid
    }

    /// Updates the replication position after the consumer has processed an
    /// event: first the transaction identifiers, then file and offset.
    pub fn commit(&mut self, header: &EventHeader, event: &BinlogEvent)
        requires
            old(self).settings().binlog.wf(),
        ensures
            final(self)@ == committed(old(self)@, *header, event@),
            final(self).settings().binlog.wf(),
            final(self).same_connection(old(self)),
    {
        self.update_gtid_position(event);
        self.update_binlog_position(header, event);
    }

    fn update_gtid_position(&mut self, event: &BinlogEvent)
        requires
            old(self).settings().binlog.wf(),
        ensures
            final(self)@ == gtid_tracked(old(self)@, event@),
            final(self).settings().binlog.wf(),
            final(self).same_connection(old(self)),
    {
        if self.options.binlog.starting_strategy != StartingStrategy::FromGtid {
            return;
        }
        match event {
            BinlogEvent::MariaDbGtidEvent(x) => {
                self.maria_gtid = Some(x.gtid);
            },
            BinlogEvent::MySqlGtidEvent(x) => {
                self.mysql_gtid = Some(x.gtid);
            },
            BinlogEvent::XidEvent(_) => {
                self.commit_gtid();
            },
            BinlogEvent::QueryEvent(x) => {
                if x.sql_statement.as_str().is_empty() {
                    return;
                }
                if text_equals(&x.sql_statement, "BEGIN") {
                    self.transaction = true;
                } else if text_equals(&x.sql_statement, "COMMIT") || text_equals(
                    &x.sql_statement,
                    "ROLLBACK",
                ) || !self.transaction {
                    self.commit_gtid();
                }
            },
            _ => {},
        }
    }

    fn update_binlog_position(&mut self, header: &EventHeader, event: &BinlogEvent)
        ensures
            final(self)@ == position_tracked(old(self)@, *header, event@),
            final(self).settings().binlog.wf() == old(self).settings().binlog.wf(),
            final(self).same_connection(old(self)),
    {
        match event {
            BinlogEvent::TableMapEvent(_) => (),
            BinlogEvent::RotateEvent(x) => {
                self.options.binlog.filename = x.binlog_filename.clone();
                self.options.binlog.position = (x.binlog_position % 0x1_0000_0000) as u32;
            },
            _ => {
                if header.next_event_position > 0 {
                    self.options.binlog.position = header.next_event_position;
                }
            },
        }
    }

    fn commit_gtid(&mut self)
        requires
            old(self).settings().binlog.wf(),
        ensures
            final(self)@ == finalized(old(self)@),
            final(self).settings().binlog.wf(),
            final(self).same_connection(old(self)),
    {
        self.transaction = false;
        if let Some(gtid) = self.maria_gtid {
            if let Some(list) = &mut self.options.binlog.gtid_list {
                list.add_gtid(gtid);
            }
        }
        if let Some(gtid) = self.mysql_gtid {
            if let Some(set) = &mut self.options.binlog.gtid_set {
                let _ = set.add_gtid(gtid);
            }
        }
    }
}

/// Committing a plain event twice, with the same header, leaves the offset
/// where the first commit put it: behind the event.
pub proof fn lemma_commit_again_keeps_offset(
    s: ClientView,
    header: EventHeader,
    event: BinlogEventView,
)
    requires
        !(event is TableMap),
        !(event is Rotate),
        header.next_event_position > 0,
    ensures
        committed(s, header, event).binlog.position == header.next_event_position,
        committed(committed(s, header, event), header, event).binlog.position == committed(
            s,
            header,
            event,
        ).binlog.position,
        committed(committed(s, header, event), header, event).binlog.filename == committed(
            s,
            header,
            event,
        ).binlog.filename,
{
}

/// Committing a table map never moves file or offset.
pub proof fn lemma_table_map_keeps_position(
    s: ClientView,
    header: EventHeader,
    event: BinlogEventView,
)
    requires
        event is TableMap,
    ensures
        committed(s, header, event).binlog.filename == s.binlog.filename,
        committed(s, header, event).binlog.position == s.binlog.position,
{
}

/// Committing a rotate event puts the event's file and offset in the place
/// of whatever was tracked, for every offset that 32 bits hold.
pub proof fn lemma_rotate_replaces_position(
    s: ClientView,
    header: EventHeader,
    event: BinlogEventView,
)
    requires
        event is Rotate,
        event->Rotate_0.binlog_position <= u32::MAX,
    ensures
        committed(s, header, event).binlog.filename == event->Rotate_0.binlog_filename,
        committed(s, header, event).binlog.position == event->Rotate_0.binlog_position,
{
}

/// A pending identifier changes only at the commit of an identifier event
/// of its own provider: while a session sees the events of one provider
/// alone, the identifier of the other stays as the session began with it.
pub proof fn lemma_pending_gtid_follows_provider(
    s: ClientView,
    header: EventHeader,
    event: BinlogEventView,
)
    ensures
        !(event is MariaDbGtid) ==> committed(s, header, event).maria_gtid == s.maria_gtid,
        !(event is MySqlGtid) ==> committed(s, header, event).mysql_gtid == s.mysql_gtid,
{
}

/// The statement that opens a transaction.
pub open spec fn begin_statement() -> BinlogEventView {
    BinlogEventView::Query { sql_statement: "BEGIN"@ }
}

/// The statement that commits a transaction.
pub open spec fn commit_statement() -> BinlogEventView {
    BinlogEventView::Query { sql_statement: "COMMIT"@ }
}

/// `list` with `gtid` merged into it, where there is a list.
pub open spec fn list_with(list: Option<Seq<MariaGtid>>, gtid: MariaGtid) -> Option<Seq<MariaGtid>> {
    match list {
        Some(l) => Some(merged(l, gtid)),
        None => None,
    }
}

/// `set` with `gtid` added to it, where there is a set.
pub open spec fn set_with(set: Option<Set<MySqlGtid>>, gtid: MySqlGtid) -> Option<Set<MySqlGtid>> {
    match set {
        Some(s) => Some(s.insert(gtid)),
        None => None,
    }
}

/// In a session that tracks transaction identifiers, the commits of
/// `BEGIN`, a MariaDB identifier and `COMMIT` merge that identifier into
/// the list once, at the commit of `COMMIT`: the two commits before it leave
/// both collections as they were.
pub proof fn lemma_mariadb_transaction_merges_at_commit(
    s: ClientView,
    first: EventHeader,
    second: EventHeader,
    third: EventHeader,
    gtid: MariaGtid,
)
    requires
        s.binlog.starting_strategy == StartingStrategy::FromGtid,
    ensures
        ({
            let s1 = committed(s, first, begin_statement());
            let s2 = committed(s1, second, BinlogEventView::MariaDbGtid(gtid));
            let s3 = committed(s2, third, commit_statement());
            &&& s1.binlog.gtid_list == s.binlog.gtid_list
            &&& s1.binlog.gtid_set == s.binlog.gtid_set
            &&& s2.binlog.gtid_list == s.binlog.gtid_list
            &&& s2.binlog.gtid_set == s.binlog.gtid_set
            &&& s3.binlog.gtid_list == list_with(s.binlog.gtid_list, gtid)
            &&& s.mysql_gtid is None ==> s3.binlog.gtid_set == s.binlog.gtid_set
            &&& !s3.transaction
        }),
{
    reveal_strlit("BEGIN");
    reveal_strlit("COMMIT");
    reveal_strlit("ROLLBACK");
    assert("BEGIN"@.len() == 5);
    assert("COMMIT"@.len() == 6);
}

/// The same for a MySQL identifier and the set.
pub proof fn lemma_mysql_transaction_merges_at_commit(
    s: ClientView,
    first: EventHeader,
    second: EventHeader,
    third: EventHeader,
    gtid: MySqlGtid,
)
    requires
        s.binlog.starting_strategy == StartingStrategy::FromGtid,
    ensures
        ({
            let s1 = committed(s, first, begin_statement());
            let s2 = committed(s1, second, BinlogEventView::MySqlGtid(gtid));
            let s3 = committed(s2, third, commit_statement());
            &&& s1.binlog.gtid_list == s.binlog.gtid_list
            &&& s1.binlog.gtid_set == s.binlog.gtid_set
            &&& s2.binlog.gtid_list == s.binlog.gtid_list
            &&& s2.binlog.gtid_set == s.binlog.gtid_set
            &&& s3.binlog.gtid_set == set_with(s.binlog.gtid_set, gtid)
            &&& s.maria_gtid is None ==> s3.binlog.gtid_list == s.binlog.gtid_list
            &&& !s3.transaction
        }),
{
    reveal_strlit("BEGIN");
    reveal_strlit("COMMIT");
    reveal_strlit("ROLLBACK");
    assert("BEGIN"@.len() == 5);
    assert("COMMIT"@.len() == 6);
}

/// In a session that tracks transaction identifiers, with no transaction
/// open, the commits of a MariaDB identifier and of any statement that is
/// neither empty nor `BEGIN` merge the identifier at the commit of the
/// statement.
pub proof fn lemma_mariadb_statement_merges_at_once(
    s: ClientView,
    first: EventHeader,
    second: EventHeader,
    gtid: MariaGtid,
    statement: Seq<char>,
)
    requires
        s.binlog.starting_strategy == StartingStrategy::FromGtid,
        !s.transaction,
        statement.len() > 0,
        statement != "BEGIN"@,
    ensures
        ({
            let s1 = committed(s, first, BinlogEventView::MariaDbGtid(gtid));
            let s2 = committed(s1, second, BinlogEventView::Query { sql_statement: statement });
            &&& s1.binlog.gtid_list == s.binlog.gtid_list
            &&& s1.binlog.gtid_set == s.binlog.gtid_set
            &&& s2.binlog.gtid_list == list_with(s.binlog.gtid_list, gtid)
            &&& s.mysql_gtid is None ==> s2.binlog.gtid_set == s.binlog.gtid_set
        }),
{
}

/// The same for a MySQL identifier and the set.
pub proof fn lemma_mysql_statement_merges_at_once(
    s: ClientView,
    first: EventHeader,
    second: EventHeader,
    gtid: MySqlGtid,
    statement: Seq<char>,
)
    requires
        s.binlog.starting_strategy == StartingStrategy::FromGtid,
        !s.transaction,
        statement.len() > 0,
        statement != "BEGIN"@,
    ensures
        ({
            let s1 = committed(s, first, BinlogEventView::MySqlGtid(gtid));
            let s2 = committed(s1, second, BinlogEventView::Query { sql_statement: statement });
            &&& s1.binlog.gtid_list == s.binlog.gtid_list
            &&& s1.binlog.gtid_set == s.binlog.gtid_set
            &&& s2.binlog.gtid_set == set_with(s.binlog.gtid_set, gtid)
            &&& s.maria_gtid is None ==> s2.binlog.gtid_list == s.binlog.gtid_list
        }),
{
}

} // verus!
