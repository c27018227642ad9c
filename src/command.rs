use vstd::prelude::*;

use crate::validator::views;

verus! {

/// `s` written as a JSON string literal, without escaping.
pub open spec fn quoted(s: Seq<char>) -> Seq<char> {
    "\""@ + s + "\""@
}

/// The entries of a JSON array of strings, separated by commas.
pub open spec fn string_list(items: Seq<Seq<char>>) -> Seq<char>
    decreases items.len(),
{
    if items.len() == 0 {
        Seq::empty()
    } else if items.len() == 1 {
        quoted(items[0])
    } else {
        string_list(items.drop_last()) + ","@ + quoted(items.last())
    }
}

/// The JSON object `{"command":"<name>","<field>":[<items>]}`.
pub open spec fn command_text(name: Seq<char>, field: Seq<char>, items: Seq<Seq<char>>) -> Seq<char> {
    "{"@ + quoted("command"@) + ":"@ + quoted(name) + ","@ + quoted(field) + ":["@ + string_list(
        items,
    ) + "]}"@
}

/// A command of the node's API, with its arguments.
pub enum Command {
    /// Fetch the raw trytes of the transactions with the given hashes.
    GetTrytes { hashes: Vec<String> },
}

impl Command {
    /// The name that the node knows the command by.
    pub open spec fn name_spec(&self) -> Seq<char> {
        match self {
            Command::GetTrytes { .. } => "getTrytes"@,
        }
    }

    /// The JSON text of the command's envelope.
    pub open spec fn json_spec(&self) -> Seq<char> {
        match self {
            Command::GetTrytes { hashes } => command_text(
                "getTrytes"@,
                "hashes"@,
                views(hashes@),
            ),
        }
    }

    /// Returns the name that the node knows the command by.
    pub fn name(&self) -> (r: String)
        ensures
            r@ == self.name_spec(),
    {
        match self {
            Command::GetTrytes { .. } => String::from_str("getTrytes"),
        }
    }

    /// Serializes the command envelope to JSON text.
    pub fn to_json(&self) -> (r: String)
        ensures
            r@ == self.json_spec(),
    {
        match self {
            Command::GetTrytes { hashes } => write_command("getTrytes", "hashes", hashes.as_slice()),
        }
    }
}

fn push_quoted(out: &mut String, s: &str)
    ensures
        final(out)@ == old(out)@ + quoted(s@),
{
    out.append("\"");
    out.append(s);
    out.append("\"");
}

fn write_command(name: &str, field: &str, items: &[String]) -> (r: String)
    ensures
        r@ == command_text(name@, field@, views(items@)),
{
    let mut out = String::from_str("{");
    push_quoted(&mut out, "command");
    out.append(":");
    push_quoted(&mut out, name);
    out.append(",");
    push_quoted(&mut out, field);
    out.append(":[");
    let ghost head = out@;
    let mut i: usize = 0;
    while i < items.len()
        invariant
            i <= items@.len(),
            out@ == head + string_list(views(items@).subrange(0, i as int)),
        decreases items@.len() - i,
    {
        let ghost vs = views(items@);
        if i > 0 {
            out.append(",");
        }
        push_quoted(&mut out, items[i].as_str());
        proof {
            let next = vs.subrange(0, i + 1);
            assert(next.drop_last() =~= vs.subrange(0, i as int));
            assert(next.last() == items@[i as int]@);
            if i == 0 {
                assert(vs.subrange(0, 0) =~= Seq::<Seq<char>>::empty());
            }
        }
        i = i + 1;
    }
    assert(views(items@).subrange(0, items@.len() as int) =~= views(items@));
    out.append("]}");
    proof {
        assert(out@ =~= command_text(name@, field@, views(items@)));
    }
    out
}

/// An HTTP header, as a name and a value.
pub struct Header {
    pub name: String,
    pub value: String,
}

/// The headers that every command is sent with: the body is JSON, and the
/// node is asked for version 1 of its API.
pub open spec fn api_headers_spec(h: Seq<Header>) -> bool {
    &&& h.len() == 2
    &&& h[0].name@ == "Content-Type"@
    &&& h[0].value@ == "application/json"@
    &&& h[1].name@ == "X-IOTA-API-Version"@
    &&& h[1].value@ == "1"@
}

/// Returns the fixed set of headers sent with every command.
pub fn api_headers() -> (r: Vec<Header>)
    ensures
        api_headers_spec(r@),
{
    let mut h: Vec<Header> = Vec::new();
    h.push(
        Header {
            name: String::from_str("Content-Type"),
            value: String::from_str("application/json"),
        },
    );
    h.push(
        Header { name: String::from_str("X-IOTA-API-Version"), value: String::from_str("1") },
    );
    h
}

} // verus!
