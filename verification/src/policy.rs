//! What a policy asks of the key-value store, and what it makes of the
//! store's replies.
use vstd::prelude::*;

verus! {

/// A command for the store: its name and its arguments.
pub struct Command {
    /// The command's name, such as `GET`.
    pub name: String,
    /// The command's arguments, in order.
    pub args: Vec<String>,
}

/// `c` is the command `name` with the arguments `args`.
pub open spec fn is_command(c: Command, name: Seq<char>, args: Seq<Seq<char>>) -> bool {
    &&& c.name@ == name
    &&& c.args@.len() == args.len()
    &&& forall|i: int| 0 <= i < args.len() ==> #[trigger] c.args@[i]@ == args[i]
}

/// The command that reads `key`.
pub fn get_command(key: &str) -> (c: Command)
    ensures
        is_command(c, "GET"@, seq![key@]),
{
    let mut args: Vec<String> = Vec::new();
    args.push(String::from_str(key));
    Command { name: String::from_str("GET"), args }
}

/// The command that stores `data` under `key`.
pub fn set_command(key: &str, data: &str) -> (c: Command)
    ensures
        is_command(c, "SET"@, seq![key@, data@]),
{
    let mut args: Vec<String> = Vec::new();
    args.push(String::from_str(key));
    args.push(String::from_str(data));
    Command { name: String::from_str("SET"), args }
}

/// A reply of the store to a command, with the values the policies read.
pub enum Reply {
    /// A status reply, such as `OK`.
    SimpleString(String),
    /// A bulk string reply, such as the value that a `GET` found.
    BulkString(String),
    /// A bulk reply of raw bytes.
    StringBuffer(Vec<u8>),
    /// An integer reply.
    Integer(i64),
    /// A boolean reply.
    Bool(bool),
    /// An array of replies.
    Array(Vec<Reply>),
    /// The null reply, such as a `GET` of a missing key gives.
    Null,
    /// No reply at all.
    NoReply,
    /// Any other kind of reply (floating point numbers, maps, sets, verbatim strings).
    Other,
}

/// The value a local policy's read yields for the outcome `reply` of its
/// `GET`: the text of a status reply, and the empty string for anything
/// else, a failed call included.
pub open spec fn read_value(reply: Result<Reply, String>) -> Seq<char> {
    match reply {
        Ok(Reply::SimpleString(v)) => v@,
        _ => Seq::empty(),
    }
}

/// What a local policy's read gives back for the outcome `reply` of its `GET`.
pub fn get_value(reply: Result<Reply, String>) -> (v: String)
    ensures
        v@ == read_value(reply),
        reply matches Ok(Reply::SimpleString(w)) ==> v@ == w@,
        !(reply matches Ok(Reply::SimpleString(_))) ==> v@.len() == 0,
{
    match reply {
        Ok(Reply::SimpleString(v)) => v,
        _ => String::new(),
    }
}

/// A status reply is read back whole, whatever its length; every other
/// outcome, a failed call included, reads as the empty string.
pub proof fn read_value_is_status_text(v: String, other: Result<Reply, String>)
    ensures
        read_value(Ok(Reply::SimpleString(v))) == v@,
        read_value(Ok(Reply::SimpleString(v))).len() == v@.len(),
        !(other matches Ok(Reply::SimpleString(_))) ==> read_value(other).len() == 0,
{
}

/// The commands carry the key (and data) unchanged, in order.
pub proof fn commands_carry_arguments(c: Command, d: Command, key: Seq<char>, data: Seq<char>)
    requires
        is_command(c, "GET"@, seq![key]),
        is_command(d, "SET"@, seq![key, data]),
    ensures
        c.args@.len() == 1 && c.args@[0]@ == key,
        d.args@.len() == 2 && d.args@[0]@ == key && d.args@[1]@ == data,
{
    assert(seq![key][0] == key);
    assert(seq![key, data][0] == key);
    assert(seq![key, data][1] == data);
}

} // verus!
