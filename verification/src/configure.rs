use vstd::prelude::*;
use vstd::string::*;
use crate::commands::query_command::QueryCommand;
use crate::constants::checksum_type::ChecksumType;
use crate::errors::{DecodeFailure, Error};
use crate::responses::error_packet::{check_error_packet, error_check};
use crate::responses::response_type;
use crate::responses::result_set_row_packet::ResultSetRowPacket;
use crate::text::{decimal_string, decimal_text, parse_u32, parsed_u32};

verus! {

/// Nanoseconds in a millisecond.
pub const NANOSECONDS_PER_MILLISECOND: u128 = 1_000_000;

/// The query for the server's current log file and offset.
pub fn master_status_command() -> (c: QueryCommand)
    ensures
        c.sql@ == "show master status"@,
{
    QueryCommand::new("show master status".to_owned())
}

/// The command that asks for a heartbeat every `interval` milliseconds. The
/// server takes the period in nanoseconds.
pub fn heartbeat_command(interval: u64) -> (c: QueryCommand)
    ensures
        c.sql@ == "set @master_heartbeat_period="@ + decimal_text(
            interval as nat * 1_000_000,
        ),
{
    let nanoseconds: u128 = interval as u128 * NANOSECONDS_PER_MILLISECOND;
    let mut sql = "set @master_heartbeat_period=".to_owned();
    sql.append(decimal_string(nanoseconds).as_str());
    QueryCommand::new(sql)
}

/// The command that makes the session's checksum setting that of the
/// server.
pub fn checksum_command() -> (c: QueryCommand)
    ensures
        c.sql@ == "SET @master_binlog_checksum=@@global.binlog_checksum"@,
{
    QueryCommand::new("SET @master_binlog_checksum=@@global.binlog_checksum".to_owned())
}

/// The query that reads the session's checksum setting back.
pub fn checksum_query() -> (c: QueryCommand)
    ensures
        c.sql@ == "SELECT @master_binlog_checksum"@,
{
    QueryCommand::new("SELECT @master_binlog_checksum".to_owned())
}

/// The rows of a result set, as plain values.
pub open spec fn row_texts(rows: Seq<ResultSetRowPacket>) -> Seq<Seq<Seq<char>>> {
    Seq::new(rows.len(), |i: int| rows[i]@)
}

/// The log file and offset that the answer to the status query gives:
/// columns 0 and 1 of its only row.
pub open spec fn master_status(rows: Seq<Seq<Seq<char>>>) -> Result<(Seq<char>, u32), DecodeFailure> {
    if rows.len() != 1 || rows[0].len() < 2 {
        Err(DecodeFailure::Refused("Could not read master binlog position."@))
    } else {
        match parsed_u32(rows[0][1]) {
            Some(position) => Ok((rows[0][0], position)),
            None => Err(DecodeFailure::NotANumber),
        }
    }
}

/// Reads log file and offset from the answer to the status query. The
/// answer must be one row of two columns or more.
pub fn master_position(result_set: &Vec<ResultSetRowPacket>) -> (r: Result<(String, u32), Error>)
    ensures
        match master_status(row_texts(result_set@)) {
            Ok((filename, position)) => r is Ok && r->Ok_0.0@ == filename && r->Ok_0.1
                == position,
            Err(f) => r is Err && f.reported_as(r->Err_0),
        },
{
    if result_set.len() != 1 || result_set[0].cells.len() < 2 {
        return Err(Error::protocol("Could not read master binlog position."));
    }
    let row = &result_set[0];
    assert(row_texts(result_set@)[0] == row@);
    assert(row@[0] == row.cells@[0]@ && row@[1] == row.cells@[1]@);
    match parse_u32(row.cells[1].as_str()) {
        Ok(position) => Ok((row.cells[0].clone(), position)),
        Err(e) => Err(Error::ParseIntError(e)),
    }
}

/// The checksum type that the answer to the checksum query names: column 0
/// of its first row.
pub open spec fn checksum_answer(rows: Seq<Seq<Seq<char>>>) -> Result<ChecksumType, DecodeFailure> {
    if rows.len() == 0 || rows[0].len() == 0 {
        Err(DecodeFailure::Refused("Could not read master binlog checksum."@))
    } else {
        match ChecksumType::spec_from_name(rows[0][0]) {
            Some(t) => Ok(t),
            None => Err(DecodeFailure::UnsupportedChecksum),
        }
    }
}

/// Reads the checksum type from the answer to the checksum query. A name
/// that this client does not support is a failure, never a fallback.
pub fn negotiated_checksum(result_set: &Vec<ResultSetRowPacket>) -> (r: Result<ChecksumType, Error>)
    ensures
        match checksum_answer(row_texts(result_set@)) {
            Ok(t) => r == Ok::<ChecksumType, Error>(t),
            Err(f) => r is Err && f.reported_as(r->Err_0),
        },
{
    if result_set.len() == 0 || result_set[0].cells.len() == 0 {
        return Err(Error::protocol("Could not read master binlog checksum."));
    }
    let row = &result_set[0];
    assert(row_texts(result_set@)[0] == row@);
    assert(row@[0] == row.cells@[0]@);
    ChecksumType::from_name(&row.cells[0])
}

/// How far the answer to a query has been read.
#[derive(Clone, Copy, Debug, PartialEq, Eq, Structural)]
pub enum ResultSetState {
    /// Nothing was read yet: the first packet says whether the query failed.
    AwaitingHeader,
    /// The descriptions of the columns are passing by.
    InMetadata,
    /// The rows are coming.
    InRows,
    /// The answer is complete.
    Done,
}

/// What a packet does to the reading of an answer: the state behind it, and
/// the rows read by then.
pub open spec fn accepted(
    state: ResultSetState,
    rows: Seq<Seq<Seq<char>>>,
    packet: Seq<u8>,
) -> Result<(ResultSetState, Seq<Seq<Seq<char>>>), DecodeFailure> {
    match state {
        ResultSetState::AwaitingHeader => match error_check(packet, "Reading result set error."@) {
            Ok(_) => Ok((ResultSetState::InMetadata, rows)),
            Err(f) => Err(f),
        },
        ResultSetState::InMetadata => if packet.len() == 0 {
            Err(DecodeFailure::TooShort)
        } else if packet[0] == response_type::END_OF_FILE {
            Ok((ResultSetState::InRows, rows))
        } else {
            Ok((ResultSetState::InMetadata, rows))
        },
        ResultSetState::InRows => match error_check(packet, "Query result set error."@) {
            Err(f) => Err(f),
            Ok(_) => if packet[0] == response_type::END_OF_FILE {
                Ok((ResultSetState::Done, rows))
            } else {
                match ResultSetRowPacket::spec_parse(packet) {
                    Ok(row) => Ok((ResultSetState::InRows, rows.push(row))),
                    Err(f) => Err(f),
                }
            },
        },
        ResultSetState::Done => Ok((ResultSetState::Done, rows)),
    }
}

/// Reads the answer to a query packet by packet: the first packet, then the
/// column descriptions up to an end marker, then the rows up to the next.
pub struct ResultSetReader {
    state: ResultSetState,
    rows: Vec<ResultSetRowPacket>,
}

impl ResultSetReader {
    /// How far the answer has been read.
    pub closed spec fn state(&self) -> ResultSetState {
        self.state
    }

    /// The rows read so far.
    pub closed spec fn rows(&self) -> Seq<Seq<Seq<char>>> {
        row_texts(self.rows@)
    }

    /// A reader that has read nothing.
    pub fn new() -> (reader: ResultSetReader)
        ensures
            reader.state() == ResultSetState::AwaitingHeader,
            reader.rows() == Seq::<Seq<Seq<char>>>::empty(),
    {
        let reader = ResultSetReader { state: ResultSetState::AwaitingHeader, rows: Vec::new() };
        assert(reader.rows() =~= Seq::<Seq<Seq<char>>>::empty());
        reader
    }

    /// Whether the answer is complete.
    pub fn is_done(&self) -> (done: bool)
        ensures
            done == (self.state() == ResultSetState::Done),
    {
        self.state == ResultSetState::Done
    }

    /// Takes the next packet of the answer. Returns whether the answer is
    /// complete with it. A failure leaves the reader as it was.
    pub fn accept(&mut self, packet: &[u8]) -> (r: Result<bool, Error>)
        ensures
            match accepted(old(self).state(), old(self).rows(), packet@) {
                Ok((state, rows)) => r == Ok::<bool, Error>(state == ResultSetState::Done)
                    && final(self).state() == state && final(self).rows() == rows,
                Err(f) => r is Err && f.reported_as(r->Err_0) && final(self).state() == old(
                    self,
                ).state() && final(self).rows() == old(self).rows(),
            },
    {
        match self.state {
            ResultSetState::AwaitingHeader => {
                check_error_packet(packet, "Reading result set error.")?;
                self.state = ResultSetState::InMetadata;
                Ok(false)
            },
            ResultSetState::InMetadata => {
                if packet.len() == 0 {
                    return Err(Error::incomplete());
                }
                if packet[0] == response_type::END_OF_FILE {
                    self.state = ResultSetState::InRows;
                }
                Ok(false)
            },
            ResultSetState::InRows => {
                check_error_packet(packet, "Query result set error.")?;
                if packet[0] == response_type::END_OF_FILE {
                    self.state = ResultSetState::Done;
                    return Ok(true);
                }
                let row = ResultSetRowPacket::parse(packet)?;
                proof {
                    assert(row_texts(self.rows@.push(row)) =~= row_texts(self.rows@).push(row@));
                }
                self.rows.push(row);
                Ok(false)
            },
            ResultSetState::Done => Ok(true),
        }
    }

    /// The rows that were read.
    pub fn into_rows(self) -> (rows: Vec<ResultSetRowPacket>)
        ensures
            row_texts(rows@) == self.rows(),
    {
        self.rows
    }
}

} // verus!
