use vstd::prelude::*;
use crate::providers::mariadb::GtidList;
use crate::providers::mysql::GtidSet;
use crate::ssl_mode::SslMode;
use crate::starting_strategy::StartingStrategy;

verus! {

/// The replication position: where a session starts, and the checkpoint that
/// committed events move forward.
#[derive(Clone, Debug)]
pub struct BinlogOptions {
    /// Name of the log file; empty while unknown.
    pub filename: String,
    /// Offset in the log file.
    pub position: u32,
    /// Transactions seen, MySQL.
    pub gtid_set: Option<GtidSet>,
    /// Transactions seen, MariaDB.
    pub gtid_list: Option<GtidList>,
    /// Where the session starts.
    pub starting_strategy: StartingStrategy,
}

/// A replication position, as plain values.
pub struct BinlogOptionsView {
    pub filename: Seq<char>,
    pub position: u32,
    pub gtid_set: Option<Set<crate::providers::mysql::Gtid>>,
    pub gtid_list: Option<Seq<crate::providers::mariadb::Gtid>>,
    pub starting_strategy: StartingStrategy,
}

impl View for BinlogOptions {
    type V = BinlogOptionsView;

    open spec fn view(&self) -> BinlogOptionsView {
        BinlogOptionsView {
            filename: self.filename@,
            position: self.position,
            gtid_set: match self.gtid_set {
                Some(set) => Some(set@),
                None => None,
            },
            gtid_list: match self.gtid_list {
                Some(list) => Some(list@),
                None => None,
            },
            starting_strategy: self.starting_strategy,
        }
    }
}

/// The offset of the first event of a log file, behind the file's magic
/// number.
pub const FIRST_EVENT_POSITION: u32 = 4;

impl BinlogOptions {
    /// Whether the set of transactions, if there is one, is well formed.
    pub open spec fn wf(&self) -> bool {
        self.gtid_set matches Some(set) ==> set.wf()
    }

    /// Whether the set of transactions, if there is one, is well formed: the
    /// test that a caller makes before it commits to a position that it
    /// built by hand.
    pub fn is_well_formed(&self) -> (ok: bool)
        ensures
            ok == self.wf(),
    {
        match &self.gtid_set {
            Some(set) => set.is_well_formed(),
            None => true,
        }
    }

    /// Starts from the first event of the first log file.
    pub fn from_start() -> (o: BinlogOptions)
        ensures
            o.wf(),
            o@ == (BinlogOptionsView {
                filename: Seq::<char>::empty(),
                position: FIRST_EVENT_POSITION,
                gtid_set: None,
                gtid_list: None,
                starting_strategy: StartingStrategy::FromStart,
            }),
    {
        BinlogOptions {
            filename: String::new(),
            position: FIRST_EVENT_POSITION,
            gtid_set: None,
            gtid_list: None,
            starting_strategy: StartingStrategy::FromStart,
        }
    }

    /// Starts from the end of the current log file, which the session asks
    /// the server for.
    pub fn from_end() -> (o: BinlogOptions)
        ensures
            o.wf(),
            o@ == (BinlogOptionsView {
                filename: Seq::<char>::empty(),
                position: 0,
                gtid_set: None,
                gtid_list: None,
                starting_strategy: StartingStrategy::FromEnd,
            }),
    {
        BinlogOptions {
            filename: String::new(),
            position: 0,
            gtid_set: None,
            gtid_list: None,
            starting_strategy: StartingStrategy::FromEnd,
        }
    }

    /// Starts from a known file and offset.
    pub fn from_position(filename: String, position: u32) -> (o: BinlogOptions)
        ensures
            o.wf(),
            o@ == (BinlogOptionsView {
                filename: filename@,
                position,
                gtid_set: None,
                gtid_list: None,
                starting_strategy: StartingStrategy::FromPosition,
            }),
    {
        BinlogOptions {
            filename,
            position,
            gtid_set: None,
            gtid_list: None,
            starting_strategy: StartingStrategy::FromPosition,
        }
    }

    /// Starts behind the transactions of a MySQL set.
    pub fn from_mysql_gtid(gtid_set: GtidSet) -> (o: BinlogOptions)
        requires
            gtid_set.wf(),
        ensures
            o.wf(),
            o@ == (BinlogOptionsView {
                filename: Seq::<char>::empty(),
                position: FIRST_EVENT_POSITION,
                gtid_set: Some(gtid_set@),
                gtid_list: None,
                starting_strategy: StartingStrategy::FromGtid,
            }),
    {
        BinlogOptions {
            filename: String::new(),
            position: FIRST_EVENT_POSITION,
            gtid_set: Some(gtid_set),
            gtid_list: None,
            starting_strategy: StartingStrategy::FromGtid,
        }
    }

    /// Starts behind the transactions of a MariaDB list.
    pub fn from_mariadb_gtid(gtid_list: GtidList) -> (o: BinlogOptions)
        ensures
            o.wf(),
            o@ == (BinlogOptionsView {
                filename: Seq::<char>::empty(),
                position: FIRST_EVENT_POSITION,
                gtid_set: None,
                gtid_list: Some(gtid_list@),
                starting_strategy: StartingStrategy::FromGtid,
            }),
    {
        BinlogOptions {
            filename: String::new(),
            position: FIRST_EVENT_POSITION,
            gtid_set: None,
            gtid_list: Some(gtid_list),
            starting_strategy: StartingStrategy::FromGtid,
        }
    }
}

/// Settings of a replication client.
#[derive(Clone, Debug)]
pub struct ReplicaOptions {
    /// Port of the server.
    pub port: u16,
    /// Host name of the server.
    pub hostname: String,
    /// How the connection is to be encrypted.
    pub ssl_mode: SslMode,
    /// User to log in as.
    pub username: String,
    /// Password of that user.
    pub password: String,
    /// Default database of the session.
    pub database: Option<String>,
    /// Identifier under which a blocking client registers with the server.
    pub server_id: u32,
    /// Whether the server keeps the connection open at the end of the log
    /// and waits for new events.
    pub blocking: bool,
    /// Interval of the server's heartbeat events, in milliseconds.
    pub heartbeat_interval: u64,
    /// Replication position.
    pub binlog: BinlogOptions,
}

impl ReplicaOptions {
    /// The settings for the server at `hostname`, with the usual port and a
    /// heartbeat every thirty seconds, from the position `binlog` on.
    pub fn new(hostname: String, binlog: BinlogOptions) -> (o: ReplicaOptions)
        ensures
            o.port == 3306,
            o.hostname@ == hostname@,
            o.ssl_mode == SslMode::Disabled,
            o.username@ == Seq::<char>::empty(),
            o.password@ == Seq::<char>::empty(),
            o.database is None,
            o.server_id == 65535,
            o.blocking,
            o.heartbeat_interval == 30000,
            o.binlog == binlog,
    {
        ReplicaOptions {
            port: 3306,
            hostname,
            ssl_mode: SslMode::Disabled,
            username: String::new(),
            password: String::new(),
            database: None,
            server_id: 65535,
            blocking: true,
            heartbeat_interval: 30000,
            binlog,
        }
    }
}

} // verus!
