use vstd::prelude::*;

verus! {

#[verifier::external_type_specification]
#[verifier::external_body]
pub struct ExJsonValue(serde_json::Value);

#[verifier::external_type_specification]
#[verifier::external_body]
pub struct ExJsonError(serde_json::Error);

/// Command code of a server ping.
pub const CMD_PING: i64 = 0;

/// Command code of a batch of chat entries.
pub const CMD_CHAT: i64 = 93101;

/// Whether `serde_json` accepts a text as one JSON document (well-formed,
/// nothing after it, nesting within its depth limit).
pub uninterp spec fn parses_as_json(text: Seq<char>) -> bool;

/// The integer value of member `key` of the JSON document `text`; `None` when
/// the text is not accepted, is not an object, or the member is absent or not
/// an integer that fits in an `i64`.
pub uninterp spec fn json_member_i64(text: Seq<char>, key: Seq<char>) -> Option<i64>;

/// For member `key` of the JSON document `text`, when it is an array: for
/// each element in order, the text of its member `field` when that is a
/// string. `None` when the text is not accepted or the member is no array.
pub uninterp spec fn json_member_strings(text: Seq<char>, key: Seq<char>, field: Seq<char>) -> Option<
    Seq<Option<Seq<char>>>,
>;

/// The view of an optional string.
pub open spec fn opt_view(o: Option<String>) -> Option<Seq<char>> {
    match o {
        Some(s) => Some(s@),
        None => None,
    }
}

/// Relies on `serde_json::from_str` into a `Value`: succeeds exactly on the
/// texts it accepts.
#[verifier::external_body]
fn parse_json(text: &str) -> (r: Result<serde_json::Value, serde_json::Error>)
    ensures
        r is Ok <==> parses_as_json(text@),
{
    serde_json::from_str::<serde_json::Value>(text)
}

/// Relies on `serde_json::from_str` into a `Value`, indexing it by `key` (null
/// when absent or not an object) and `Value::as_i64`: the result depends on
/// the text and the key alone.
#[verifier::external_body]
fn read_member_i64(text: &str, key: &str) -> (r: Option<i64>)
    ensures
        r == json_member_i64(text@, key@),
{
    serde_json::from_str::<serde_json::Value>(text).ok().and_then(|v| v[key].as_i64())
}

/// Relies on `serde_json::from_str` into a `Value`, indexing it by `key`,
/// `Value::as_array`, and on each element indexing by `field` and
/// `Value::as_str`: the result depends on the text and the keys alone.
#[verifier::external_body]
fn read_member_strings(text: &str, key: &str, field: &str) -> (r: Option<Vec<Option<String>>>)
    ensures
        r is Some <==> json_member_strings(text@, key@, field@) is Some,
        r matches Some(v) ==> v@.map_values(|o: Option<String>| opt_view(o)) == json_member_strings(
            text@,
            key@,
            field@,
        )->0,
{
    let v = serde_json::from_str::<serde_json::Value>(text).ok()?;
    let items = v[key].as_array()?;
    Some(items.iter().map(|e| e[field].as_str().map(|s| s.to_string())).collect())
}

/// The present entries of a sequence of optional strings, in order.
pub open spec fn present(s: Seq<Option<Seq<char>>>) -> Seq<Seq<char>>
    decreases s.len(),
{
    if s.len() == 0 {
        Seq::empty()
    } else {
        let p = present(s.drop_last());
        match s.last() {
            Some(x) => p.push(x),
            None => p,
        }
    }
}

/// The command code of an inbound frame text.
pub open spec fn json_cmd(text: Seq<char>) -> Option<i64> {
    json_member_i64(text, "cmd"@)
}

/// The user ids of a chat batch text: the string `uid` of each entry of its
/// `bdy` array that has one, in order; empty when `bdy` is no array.
pub open spec fn json_chat_uids(text: Seq<char>) -> Seq<Seq<char>> {
    match json_member_strings(text, "bdy"@, "uid"@) {
        Some(s) => present(s),
        None => Seq::empty(),
    }
}

/// An inbound chat-transport frame, by command code.
pub enum InboundFrame {
    /// A server-initiated ping, which asks for a pong.
    Ping,
    /// A batch of chat entries: the user id of each entry that has one.
    ChatBatch(Vec<String>),
    /// Any other command, which is ignored.
    Other(i64),
    /// A frame without an integer command code, which is ignored.
    Untagged,
}

/// Why an inbound frame could not be decoded.
#[derive(Debug, Clone, Copy, PartialEq, Eq, Structural)]
pub enum FrameError {
    /// The text is not JSON.
    Malformed,
}

/// Classifies a frame by its command code.
pub fn classify_frame(cmd: i64, uids: Vec<String>) -> (r: InboundFrame)
    ensures
        cmd == CMD_PING ==> r is Ping,
        cmd == CMD_CHAT ==> (r matches InboundFrame::ChatBatch(u) && u@ == uids@),
        cmd != CMD_PING && cmd != CMD_CHAT ==> (r matches InboundFrame::Other(c) && c == cmd),
{
    if cmd == CMD_PING {
        InboundFrame::Ping
    } else if cmd == CMD_CHAT {
        InboundFrame::ChatBatch(uids)
    } else {
        InboundFrame::Other(cmd)
    }
}

/// The present strings of `entries`, in order.
fn present_strings(entries: Vec<Option<String>>) -> (r: Vec<String>)
    ensures
        r@.map_values(|u: String| u@) == present(entries@.map_values(|o: Option<String>| opt_view(o))),
{
    let ghost views = entries@.map_values(|o: Option<String>| opt_view(o));
    let mut out: Vec<String> = Vec::new();
    let mut i: usize = 0;
    while i < entries.len()
        invariant
            i <= entries.len(),
            views == entries@.map_values(|o: Option<String>| opt_view(o)),
            out@.map_values(|u: String| u@) == present(views.subrange(0, i as int)),
        decreases entries.len() - i,
    {
        proof {
            let t = views.subrange(0, i + 1);
            assert(t.drop_last() == views.subrange(0, i as int));
            assert(t.last() == opt_view(entries@[i as int]));
        }
        match &entries[i] {
            Some(uid) => {
                let ghost before = out@;
                out.push(uid.clone());
                proof {
                    assert(out@ == before.push(*uid));
                    assert(out@.map_values(|u: String| u@) =~= before.map_values(|u: String| u@).push(
                        uid@,
                    ));
                }
            },
            None => {},
        }
        i += 1;
    }
    proof {
        assert(views.subrange(0, entries.len() as int) == views);
    }
    out
}

/// Decodes an inbound text frame by its command code: 0 is a ping, 93101 a
/// chat batch whose user ids are taken from its `bdy` entries, any other
/// integer another command, and a frame without an integer `cmd` untagged.
pub fn decode_frame(text: &str) -> (r: Result<InboundFrame, FrameError>)
    ensures
        r is Err <==> !parses_as_json(text@),
        r matches Err(e) ==> e == FrameError::Malformed,
        parses_as_json(text@) ==> match json_cmd(text@) {
            Some(c) => if c == CMD_PING {
                r matches Ok(InboundFrame::Ping)
            } else if c == CMD_CHAT {
                r matches Ok(InboundFrame::ChatBatch(u)) && u@.map_values(|s: String| s@)
                    == json_chat_uids(text@)
            } else {
                r matches Ok(InboundFrame::Other(k)) && k == c
            },
            None => r matches Ok(InboundFrame::Untagged),
        },
{
    match parse_json(text) {
        Ok(_) => {},
        Err(_) => {
            return Err(FrameError::Malformed);
        },
    }
    match read_member_i64(text, "cmd") {
        None => Ok(InboundFrame::Untagged),
        Some(cmd) => {
            let uids: Vec<String> = if cmd == CMD_CHAT {
                match read_member_strings(text, "bdy", "uid") {
                    Some(entries) => present_strings(entries),
                    None => Vec::new(),
                }
            } else {
                Vec::new()
            };
            proof {
                if cmd == CMD_CHAT && json_member_strings(text@, "bdy"@, "uid"@) is None {
                    assert(uids@.map_values(|s: String| s@) =~= Seq::<Seq<char>>::empty());
                }
            }
            Ok(classify_frame(cmd, uids))
        },
    }
}

} // verus!
