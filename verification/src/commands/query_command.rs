use vstd::prelude::*;
use vstd::string::*;
use vstd::utf8::*;

verus! {

/// Code of the command that carries a statement.
pub const COM_QUERY: u8 = 0x03;

/// A statement to send to the server.
#[derive(Clone, Debug)]
pub struct QueryCommand {
    /// Text of the statement.
    pub sql: String,
}

impl QueryCommand {
    /// The command for the statement `sql`.
    pub fn new(sql: String) -> (c: QueryCommand)
        ensures
            c.sql == sql,
    {
        QueryCommand { sql }
    }

    /// The payload of the packet that sends the command: the command code,
    /// then the statement in UTF-8.
    pub fn serialize(&self) -> (bytes: Vec<u8>)
        ensures
            bytes@ == seq![COM_QUERY] + encode_utf8(self.sql@),
    {
        let mut bytes: Vec<u8> = Vec::new();
        bytes.push(COM_QUERY);
        bytes.extend_from_slice(self.sql.as_str().as_bytes());
        bytes
    }
}

} // verus!
