use mysql_cdc::binlog_client::BinlogClient;
use mysql_cdc::errors::Error;
use mysql_cdc::events::binlog_event::{
    BinlogEvent, MariaDbGtidEvent, MySqlGtidEvent, QueryEvent, TableMapEvent, XidEvent,
};
use mysql_cdc::events::event_header::EventHeader;
use mysql_cdc::events::format_description_event::FormatDescriptionEvent;
use mysql_cdc::events::rotate_event::RotateEvent;
use mysql_cdc::constants::checksum_type::ChecksumType;
use mysql_cdc::providers::mariadb::{Gtid as MariaGtid, GtidList};
use mysql_cdc::providers::mysql::{Gtid as MySqlGtid, GtidSet, Interval, Uuid, UuidSet};
use mysql_cdc::replica_options::{BinlogOptions, ReplicaOptions};
use mysql_cdc::ssl_mode::SslMode;
use mysql_cdc::starting_strategy::StartingStrategy;

fn header(next_event_position: u32) -> EventHeader {
    EventHeader {
        timestamp: 0,
        event_type: 0,
        server_id: 1,
        event_length: 0,
        next_event_position,
        event_flags: 0,
    }
}

fn new_client(binlog: BinlogOptions) -> BinlogClient {
    BinlogClient::new(ReplicaOptions::new("localhost".to_string(), binlog)).unwrap()
}

fn query(sql: &str) -> BinlogEvent {
    BinlogEvent::QueryEvent(QueryEvent { sql_statement: sql.to_string() })
}

fn rotate(name: &str, position: u64) -> BinlogEvent {
    BinlogEvent::RotateEvent(RotateEvent {
        binlog_filename: name.to_string(),
        binlog_position: position,
    })
}

fn maria(domain_id: u32, server_id: u32, sequence: u64) -> MariaGtid {
    MariaGtid { domain_id, server_id, sequence }
}

fn mysql(source: u64, transaction_id: u64) -> MySqlGtid {
    MySqlGtid { source_id: Uuid { high: source, low: !source }, transaction_id }
}

fn list_of(client: &BinlogClient) -> Vec<MariaGtid> {
    client.options.binlog.gtid_list.as_ref().unwrap().gtids.clone()
}

fn runs_of(client: &BinlogClient) -> Vec<(u64, Vec<(u64, u64)>)> {
    let set = client.options.binlog.gtid_set.as_ref().unwrap();
    set.uuid_sets
        .iter()
        .map(|s| (s.source_id.high, s.intervals.iter().map(|i| (i.start, i.end)).collect()))
        .collect()
}

#[test]
fn replica_options_defaults() {
    let options = ReplicaOptions::new("db.example".to_string(), BinlogOptions::from_end());
    assert_eq!(options.port, 3306);
    assert_eq!(options.hostname, "db.example");
    assert_eq!(options.ssl_mode, SslMode::Disabled);
    assert_eq!(options.username, "");
    assert_eq!(options.password, "");
    assert_eq!(options.database, None);
    assert_eq!(options.server_id, 65535);
    assert!(options.blocking);
    assert_eq!(options.heartbeat_interval, 30000);
}

#[test]
fn binlog_options_strategies() {
    let start = BinlogOptions::from_start();
    assert_eq!(start.starting_strategy, StartingStrategy::FromStart);
    assert_eq!((start.filename.as_str(), start.position), ("", 4));
    let end = BinlogOptions::from_end();
    assert_eq!(end.starting_strategy, StartingStrategy::FromEnd);
    assert_eq!((end.filename.as_str(), end.position), ("", 0));
    let position = BinlogOptions::from_position("binlog.000007".to_string(), 1234);
    assert_eq!(position.starting_strategy, StartingStrategy::FromPosition);
    assert_eq!((position.filename.as_str(), position.position), ("binlog.000007", 1234));
    assert!(position.gtid_set.is_none() && position.gtid_list.is_none());
    let set = BinlogOptions::from_mysql_gtid(GtidSet::new());
    assert_eq!(set.starting_strategy, StartingStrategy::FromGtid);
    assert!(set.gtid_set.is_some() && set.gtid_list.is_none());
    let list = BinlogOptions::from_mariadb_gtid(GtidList::new());
    assert_eq!(list.starting_strategy, StartingStrategy::FromGtid);
    assert!(list.gtid_set.is_none() && list.gtid_list.is_some());
}

#[test]
fn new_client_has_no_session() {
    let client = new_client(BinlogOptions::from_start());
    assert!(!client.transaction_open());
    assert_eq!(client.mariadb_gtid(), None);
    assert_eq!(client.mysql_gtid(), None);
    assert_eq!(client.options.hostname, "localhost");
}

#[test]
fn new_client_refuses_encryption() {
    for mode in [
        SslMode::IfAvailable,
        SslMode::Require,
        SslMode::RequireVerifyCa,
        SslMode::RequireVerifyFull,
    ] {
        let mut options = ReplicaOptions::new("localhost".to_string(), BinlogOptions::from_end());
        options.ssl_mode = mode;
        match BinlogClient::new(options) {
            Err(Error::String(message)) => {
                assert_eq!(message, "Ssl encryption is not supported in this version")
            }
            _ => panic!("an encrypted connection was accepted"),
        }
    }
}

#[test]
fn session_server_id_follows_blocking() {
    let mut options = ReplicaOptions::new("localhost".to_string(), BinlogOptions::from_end());
    options.server_id = 4242;
    options.blocking = true;
    assert_eq!(BinlogClient::new(options.clone()).unwrap().session_server_id(), 4242);
    options.blocking = false;
    assert_eq!(BinlogClient::new(options).unwrap().session_server_id(), 0);
}

#[test]
fn commit_moves_offset_behind_event() {
    let mut client = new_client(BinlogOptions::from_position("binlog.000001".to_string(), 4));
    client.commit(&header(500), &BinlogEvent::XidEvent(XidEvent { xid: 1 }));
    assert_eq!(client.options.binlog.position, 500);
    assert_eq!(client.options.binlog.filename, "binlog.000001");
    client.commit(&header(720), &BinlogEvent::UnknownEvent);
    assert_eq!(client.options.binlog.position, 720);
    client.commit(&header(800), &query("insert into t values (1)"));
    assert_eq!(client.options.binlog.position, 800);
    let description = BinlogEvent::FormatDescriptionEvent(FormatDescriptionEvent {
        binlog_version: 4,
        server_version: "8.0.33".to_string(),
        checksum_type: ChecksumType::CRC32,
    });
    client.commit(&header(123), &description);
    assert_eq!(client.options.binlog.position, 123);
}

#[test]
fn commit_twice_keeps_offset() {
    let mut client = new_client(BinlogOptions::from_position("binlog.000001".to_string(), 4));
    let event = BinlogEvent::XidEvent(XidEvent { xid: 1 });
    client.commit(&header(500), &event);
    assert_eq!(client.options.binlog.position, 500);
    client.commit(&header(500), &event);
    assert_eq!(client.options.binlog.position, 500);
    assert_eq!(client.options.binlog.filename, "binlog.000001");
}

#[test]
fn commit_ignores_zero_next_position() {
    let mut client = new_client(BinlogOptions::from_position("binlog.000001".to_string(), 321));
    client.commit(&header(0), &BinlogEvent::UnknownEvent);
    assert_eq!(client.options.binlog.position, 321);
    client.commit(&header(0), &BinlogEvent::XidEvent(XidEvent { xid: 1 }));
    assert_eq!(client.options.binlog.position, 321);
}

#[test]
fn commit_of_table_map_keeps_position() {
    let mut client = new_client(BinlogOptions::from_position("binlog.000001".to_string(), 321));
    client.commit(&header(999), &BinlogEvent::TableMapEvent(TableMapEvent { table_id: 7 }));
    assert_eq!(client.options.binlog.position, 321);
    assert_eq!(client.options.binlog.filename, "binlog.000001");
    let mut fresh = new_client(BinlogOptions::from_end());
    fresh.commit(&header(999), &BinlogEvent::TableMapEvent(TableMapEvent { table_id: 7 }));
    assert_eq!((fresh.options.binlog.filename.as_str(), fresh.options.binlog.position), ("", 0));
}

#[test]
fn commit_of_rotate_replaces_position() {
    let mut client = new_client(BinlogOptions::from_position("binlog.000001".to_string(), 98765));
    client.commit(&header(0), &rotate("binlog.000002", 4));
    assert_eq!(client.options.binlog.filename, "binlog.000002");
    assert_eq!(client.options.binlog.position, 4);
    client.commit(&header(777), &rotate("binlog.000003", 120));
    assert_eq!(client.options.binlog.filename, "binlog.000003");
    assert_eq!(client.options.binlog.position, 120);
    client.commit(&header(5), &rotate("binlog.000004", u32::MAX as u64));
    assert_eq!(client.options.binlog.position, u32::MAX);
}

#[test]
fn commit_of_rotate_keeps_low_32_bits() {
    let mut client = new_client(BinlogOptions::from_start());
    client.commit(&header(0), &rotate("binlog.000009", (1u64 << 32) + 7));
    assert_eq!(client.options.binlog.filename, "binlog.000009");
    assert_eq!(client.options.binlog.position, 7);
}

#[test]
fn mariadb_transaction_merges_at_commit() {
    let mut start = GtidList::new();
    start.add_gtid(maria(0, 1, 10));
    let mut client = new_client(BinlogOptions::from_mariadb_gtid(start));
    client.commit(&header(100), &query("BEGIN"));
    assert!(client.transaction_open());
    assert_eq!(list_of(&client), vec![maria(0, 1, 10)]);
    let gtid = maria(0, 1, 11);
    client.commit(&header(200), &BinlogEvent::MariaDbGtidEvent(MariaDbGtidEvent { gtid }));
    assert_eq!(client.mariadb_gtid(), Some(gtid));
    assert_eq!(list_of(&client), vec![maria(0, 1, 10)]);
    client.commit(&header(300), &query("COMMIT"));
    assert!(!client.transaction_open());
    assert_eq!(list_of(&client), vec![gtid]);
    assert_eq!(client.options.binlog.position, 300);
}

#[test]
fn mysql_transaction_merges_at_commit() {
    let mut client = new_client(BinlogOptions::from_mysql_gtid(GtidSet::new()));
    client.commit(&header(100), &query("BEGIN"));
    assert!(client.transaction_open());
    assert!(runs_of(&client).is_empty());
    let gtid = mysql(5, 1);
    client.commit(&header(200), &BinlogEvent::MySqlGtidEvent(MySqlGtidEvent { gtid }));
    assert_eq!(client.mysql_gtid(), Some(gtid));
    assert!(runs_of(&client).is_empty());
    client.commit(&header(300), &query("COMMIT"));
    assert!(!client.transaction_open());
    assert_eq!(runs_of(&client), vec![(5, vec![(1, 1)])]);
}

#[test]
fn xid_and_rollback_end_a_transaction() {
    let mut client = new_client(BinlogOptions::from_mariadb_gtid(GtidList::new()));
    let first = maria(1, 1, 1);
    client.commit(&header(0), &BinlogEvent::MariaDbGtidEvent(MariaDbGtidEvent { gtid: first }));
    client.commit(&header(0), &query("BEGIN"));
    client.commit(&header(0), &query("insert into t values (1)"));
    assert!(client.transaction_open());
    assert!(list_of(&client).is_empty());
    client.commit(&header(0), &BinlogEvent::XidEvent(XidEvent { xid: 9 }));
    assert!(!client.transaction_open());
    assert_eq!(list_of(&client), vec![first]);

    let second = maria(2, 1, 5);
    client.commit(&header(0), &query("BEGIN"));
    client.commit(&header(0), &BinlogEvent::MariaDbGtidEvent(MariaDbGtidEvent { gtid: second }));
    client.commit(&header(0), &query("ROLLBACK"));
    assert!(!client.transaction_open());
    assert_eq!(list_of(&client), vec![first, second]);
}

#[test]
fn statement_without_transaction_merges_at_once() {
    let mut client = new_client(BinlogOptions::from_mariadb_gtid(GtidList::new()));
    let gtid = maria(3, 2, 40);
    client.commit(&header(10), &BinlogEvent::MariaDbGtidEvent(MariaDbGtidEvent { gtid }));
    assert!(list_of(&client).is_empty());
    client.commit(&header(20), &query("create table t (id int)"));
    assert_eq!(list_of(&client), vec![gtid]);

    let mut other = new_client(BinlogOptions::from_mysql_gtid(GtidSet::new()));
    let gtid = mysql(8, 3);
    other.commit(&header(10), &BinlogEvent::MySqlGtidEvent(MySqlGtidEvent { gtid }));
    assert!(runs_of(&other).is_empty());
    other.commit(&header(20), &query("drop table t"));
    assert_eq!(runs_of(&other), vec![(8, vec![(3, 3)])]);
}

#[test]
fn empty_statement_is_ignored() {
    let mut client = new_client(BinlogOptions::from_mariadb_gtid(GtidList::new()));
    let gtid = maria(3, 2, 40);
    client.commit(&header(10), &BinlogEvent::MariaDbGtidEvent(MariaDbGtidEvent { gtid }));
    client.commit(&header(20), &query(""));
    assert!(list_of(&client).is_empty());
    assert!(!client.transaction_open());
    assert_eq!(client.options.binlog.position, 20);
}

#[test]
fn statement_inside_transaction_does_not_merge() {
    let mut client = new_client(BinlogOptions::from_mariadb_gtid(GtidList::new()));
    client.commit(&header(0), &query("BEGIN"));
    let gtid = maria(3, 2, 40);
    client.commit(&header(0), &BinlogEvent::MariaDbGtidEvent(MariaDbGtidEvent { gtid }));
    client.commit(&header(0), &query("update t set id = 2"));
    assert!(client.transaction_open());
    assert!(list_of(&client).is_empty());
    client.commit(&header(0), &query("begin"));
    assert!(list_of(&client).is_empty());
}

#[test]
fn later_gtid_overwrites_pending_one() {
    let mut client = new_client(BinlogOptions::from_mariadb_gtid(GtidList::new()));
    client.commit(&header(0), &query("BEGIN"));
    for sequence in [1u64, 2, 3] {
        let gtid = maria(0, 1, sequence);
        client.commit(&header(0), &BinlogEvent::MariaDbGtidEvent(MariaDbGtidEvent { gtid }));
    }
    client.commit(&header(0), &query("COMMIT"));
    assert_eq!(list_of(&client), vec![maria(0, 1, 3)]);
}

#[test]
fn gtid_events_are_ignored_without_gtid_strategy() {
    let mut client = new_client(BinlogOptions::from_position("binlog.000001".to_string(), 4));
    client.commit(&header(10), &query("BEGIN"));
    assert!(!client.transaction_open());
    let gtid = maria(0, 1, 11);
    client.commit(&header(20), &BinlogEvent::MariaDbGtidEvent(MariaDbGtidEvent { gtid }));
    assert_eq!(client.mariadb_gtid(), None);
    let gtid = mysql(1, 1);
    client.commit(&header(30), &BinlogEvent::MySqlGtidEvent(MySqlGtidEvent { gtid }));
    assert_eq!(client.mysql_gtid(), None);
    assert_eq!(client.options.binlog.position, 30);
}

#[test]
fn start_session_forgets_last_session() {
    let mut client = new_client(BinlogOptions::from_mariadb_gtid(GtidList::new()));
    client.start_session();
    client.commit(&header(0), &query("BEGIN"));
    let gtid = maria(0, 1, 11);
    client.commit(&header(90), &BinlogEvent::MariaDbGtidEvent(MariaDbGtidEvent { gtid }));
    assert!(client.transaction_open());
    assert_eq!(client.mariadb_gtid(), Some(gtid));
    client.start_session();
    assert!(!client.transaction_open());
    assert_eq!(client.mariadb_gtid(), None);
    assert_eq!(client.mysql_gtid(), None);
    assert_eq!(client.options.binlog.position, 90);
    client.commit(&header(95), &query("COMMIT"));
    assert!(list_of(&client).is_empty());

    let mut other = new_client(BinlogOptions::from_mysql_gtid(GtidSet::new()));
    let gtid = mysql(1, 1);
    other.commit(&header(0), &BinlogEvent::MySqlGtidEvent(MySqlGtidEvent { gtid }));
    assert_eq!(other.mysql_gtid(), Some(gtid));
    other.start_session();
    assert_eq!(other.mysql_gtid(), None);
}

#[test]
fn gtid_list_keeps_last_of_each_domain() {
    let mut list = GtidList::new();
    assert!(list.add_gtid(maria(0, 1, 5)));
    assert!(list.add_gtid(maria(1, 1, 7)));
    assert!(!list.add_gtid(maria(0, 2, 6)));
    assert!(list.add_gtid(maria(9, 3, 1)));
    assert!(!list.add_gtid(maria(1, 1, 8)));
    assert_eq!(list.gtids, vec![maria(0, 2, 6), maria(1, 1, 8), maria(9, 3, 1)]);
}

#[test]
fn uuid_set_joins_runs() {
    let source = Uuid { high: 1, low: 2 };
    let gtid = |transaction_id| MySqlGtid { source_id: source, transaction_id };
    let mut set = UuidSet::new(source);
    let runs = |set: &UuidSet| -> Vec<(u64, u64)> {
        set.intervals.iter().map(|i| (i.start, i.end)).collect()
    };
    assert!(set.add_gtid(gtid(5)).unwrap());
    assert_eq!(runs(&set), vec![(5, 5)]);
    assert!(set.add_gtid(gtid(6)).unwrap());
    assert_eq!(runs(&set), vec![(5, 6)]);
    assert!(set.add_gtid(gtid(4)).unwrap());
    assert_eq!(runs(&set), vec![(4, 6)]);
    assert!(!set.add_gtid(gtid(5)).unwrap());
    assert_eq!(runs(&set), vec![(4, 6)]);
    assert!(set.add_gtid(gtid(9)).unwrap());
    assert_eq!(runs(&set), vec![(4, 6), (9, 9)]);
    assert!(set.add_gtid(gtid(1)).unwrap());
    assert_eq!(runs(&set), vec![(1, 1), (4, 6), (9, 9)]);
    assert!(set.add_gtid(gtid(8)).unwrap());
    assert_eq!(runs(&set), vec![(1, 1), (4, 6), (8, 9)]);
    assert!(set.add_gtid(gtid(7)).unwrap());
    assert_eq!(runs(&set), vec![(1, 1), (4, 9)]);
    assert!(set.add_gtid(gtid(2)).unwrap());
    assert!(set.add_gtid(gtid(3)).unwrap());
    assert_eq!(runs(&set), vec![(1, 9)]);
    assert!(set.add_gtid(gtid(u64::MAX)).unwrap());
    assert!(set.add_gtid(gtid(0)).unwrap());
    assert_eq!(runs(&set), vec![(0, 9), (u64::MAX, u64::MAX)]);
    assert!(set.contains(0) && set.contains(9) && set.contains(u64::MAX));
    assert!(!set.contains(10) && !set.contains(u64::MAX - 1));
}

#[test]
fn uuid_set_refuses_other_source() {
    let mut set = UuidSet {
        source_id: Uuid { high: 1, low: 2 },
        intervals: vec![Interval { start: 3, end: 4 }],
    };
    let other = MySqlGtid { source_id: Uuid { high: 1, low: 3 }, transaction_id: 5 };
    match set.add_gtid(other) {
        Err(Error::String(message)) => {
            assert_eq!(message, "SourceId of the passed gtid doesn't belong to the UuidSet")
        }
        _ => panic!("a transaction of another server was accepted"),
    }
    assert_eq!(set.intervals, vec![Interval { start: 3, end: 4 }]);
}

#[test]
fn gtid_set_keeps_one_set_for_each_source() {
    let mut set = GtidSet::new();
    assert!(set.add_gtid(mysql(1, 1)).unwrap());
    assert!(set.add_gtid(mysql(2, 7)).unwrap());
    assert!(set.add_gtid(mysql(1, 2)).unwrap());
    assert!(!set.add_gtid(mysql(2, 7)).unwrap());
    assert!(set.add_gtid(mysql(1, 4)).unwrap());
    assert_eq!(set.uuid_sets.len(), 2);
    assert_eq!(set.uuid_sets[0].source_id, Uuid { high: 1, low: !1 });
    assert_eq!(
        set.uuid_sets[0].intervals,
        vec![Interval { start: 1, end: 2 }, Interval { start: 4, end: 4 }]
    );
    assert_eq!(set.uuid_sets[1].intervals, vec![Interval { start: 7, end: 7 }]);
    assert!(set.contains(mysql(1, 4)));
    assert!(!set.contains(mysql(1, 3)));
    assert!(!set.contains(mysql(3, 1)));
}

#[test]
fn uuid_set_well_formedness() {
    let source = Uuid { high: 1, low: 2 };
    let set = |runs: &[(u64, u64)]| UuidSet {
        source_id: source,
        intervals: runs.iter().map(|&(start, end)| Interval { start, end }).collect(),
    };
    assert!(set(&[]).is_well_formed());
    assert!(set(&[(1, 1)]).is_well_formed());
    assert!(set(&[(1, 3), (5, 5), (7, u64::MAX)]).is_well_formed());
    assert!(!set(&[(3, 1)]).is_well_formed());
    assert!(!set(&[(1, 3), (4, 5)]).is_well_formed());
    assert!(!set(&[(1, 3), (3, 5)]).is_well_formed());
    assert!(!set(&[(5, 6), (1, 2)]).is_well_formed());
    assert!(!set(&[(1, 2), (4, 5), (7, 6)]).is_well_formed());
    let mut grown = UuidSet::new(source);
    for transaction_id in [9u64, 3, 4, 1, 8, 2, 30, 5] {
        grown.add_gtid(MySqlGtid { source_id: source, transaction_id }).unwrap();
        assert!(grown.is_well_formed());
    }
}

#[test]
fn gtid_set_well_formedness() {
    let one = |high: u64, runs: &[(u64, u64)]| UuidSet {
        source_id: Uuid { high, low: 0 },
        intervals: runs.iter().map(|&(start, end)| Interval { start, end }).collect(),
    };
    assert!(GtidSet::new().is_well_formed());
    assert!(GtidSet { uuid_sets: vec![one(1, &[(1, 5)]), one(2, &[(1, 5)])] }.is_well_formed());
    assert!(!GtidSet { uuid_sets: vec![one(1, &[(1, 5)]), one(1, &[(7, 9)])] }.is_well_formed());
    assert!(!GtidSet { uuid_sets: vec![one(1, &[(1, 5)]), one(2, &[(5, 1)])] }.is_well_formed());
    let broken = GtidSet { uuid_sets: vec![one(1, &[(1, 5), (6, 9)])] };
    assert!(!BinlogOptions::from_position("b".to_string(), 4).gtid_set.is_some());
    let mut options = BinlogOptions::from_start();
    assert!(options.is_well_formed());
    options.gtid_set = Some(broken);
    assert!(!options.is_well_formed());
    assert!(BinlogOptions::from_mysql_gtid(GtidSet::new()).is_well_formed());
}
