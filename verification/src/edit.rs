//! Edits of the Wikimedia recent-change stream: reading one from a
//! server-sent-events line, and routing it to the human or the bot queue.
use vstd::prelude::*;
use vstd::string::StrSliceExecFns;
use crate::clock::instant_now;

verus! {

/// An edit as the processor receives it.
pub struct WikiEdit {
    pub domain: String,
    pub user: String,
    pub is_bot: bool,
    pub enqueue_time: std::time::Instant,
}

/// The fields of an edit event as they stand in the line it was read from.
pub struct WikiEditRef<'a> {
    pub domain: &'a str,
    pub user: &'a str,
    pub bot: bool,
}

/// The text that starts every data line of the stream: `data: `.
pub open spec fn data_prefix() -> Seq<char> {
    seq!['d', 'a', 't', 'a', ':', ' ']
}

/// The payload of a data line: what follows `data: `, if the line starts so.
pub open spec fn data_payload(line: Seq<char>) -> Option<Seq<char>> {
    if line.len() >= 6 && line.subrange(0, 6) == data_prefix() {
        Some(line.subrange(6, line.len() as int))
    } else {
        None
    }
}

/// The payload of a data line: what follows `data: `, if the line starts so.
pub fn strip_data_prefix(line: &str) -> (r: Option<&str>)
    ensures
        match r {
            Some(body) => data_payload(line@) == Some(body@),
            None => data_payload(line@) is None,
        },
{
    let n = line.unicode_len();
    if n < 6 {
        return None;
    }
    let ok = line.get_char(0) == 'd' && line.get_char(1) == 'a' && line.get_char(2) == 't'
        && line.get_char(3) == 'a' && line.get_char(4) == ':' && line.get_char(5) == ' ';
    if !ok {
        proof {
            assert(line@.subrange(0, 6) != data_prefix()) by {
                if line@.subrange(0, 6) == data_prefix() {
                    assert(line@[0] == line@.subrange(0, 6)[0]);
                    assert(line@[1] == line@.subrange(0, 6)[1]);
                    assert(line@[2] == line@.subrange(0, 6)[2]);
                    assert(line@[3] == line@.subrange(0, 6)[3]);
                    assert(line@[4] == line@.subrange(0, 6)[4]);
                    assert(line@[5] == line@.subrange(0, 6)[5]);
                }
            }
        }
        return None;
    }
    proof {
        assert(line@.subrange(0, 6) =~= data_prefix());
    }
    Some(line.substring_char(6, n))
}

/// What `serde_json` reads from `text` as a JSON value, member `key`, when
/// that member is a string: its characters.
pub uninterp spec fn json_string_member(text: Seq<char>, key: Seq<char>) -> Option<Seq<char>>;

/// What `serde_json` reads from `text` as a JSON value, member `key`, when
/// that member is a boolean: its value.
pub uninterp spec fn json_bool_member(text: Seq<char>, key: Seq<char>) -> Option<bool>;

/// Parses `text` as JSON (`serde_json::from_str::<Value>`) and takes member
/// `key` if it is a string (`Value::get`): `None` when the text is not JSON,
/// is not an object, lacks the member, or holds something else there. The
/// contract names the result and claims nothing more.
#[verifier::external_body]
fn json_member_str(text: &str, key: &str) -> (r: Option<String>)
    ensures
        match r {
            Some(s) => json_string_member(text@, key@) == Some(s@),
            None => json_string_member(text@, key@) is None,
        },
{
    match serde_json::from_str::<serde_json::Value>(text) {
        Ok(v) => match v.get(key) {
            Some(serde_json::Value::String(s)) => Some(s.clone()),
            _ => None,
        },
        Err(_) => None,
    }
}

/// Parses `text` as JSON (`serde_json::from_str::<Value>`) and takes member
/// `key` if it is a boolean (`Value::get`): `None` when the text is not JSON,
/// is not an object, lacks the member, or holds something else there. The
/// contract names the result and claims nothing more.
#[verifier::external_body]
fn json_member_bool(text: &str, key: &str) -> (r: Option<bool>)
    ensures
        r == json_bool_member(text@, key@),
{
    match serde_json::from_str::<serde_json::Value>(text) {
        Ok(v) => match v.get(key) {
            Some(serde_json::Value::Bool(b)) => Some(*b),
            _ => None,
        },
        Err(_) => None,
    }
}

/// The user an edit is attributed to: the one given, or `unknown`.
pub open spec fn user_or_unknown(user: Option<Seq<char>>) -> Seq<char> {
    match user {
        Some(u) => u,
        None => "unknown"@,
    }
}

/// The edit made of fields read from an event: none without a domain; a
/// missing user reads as `unknown` and a missing bot flag as `false`.
pub fn edit_from_fields(
    domain: Option<String>,
    user: Option<String>,
    bot: Option<bool>,
    enqueue_time: std::time::Instant,
) -> (r: Option<WikiEdit>)
    ensures
        match domain {
            None => r is None,
            Some(d) => r matches Some(e) && e.domain@ == d@ && e.user@ == user_or_unknown(
                match user {
                    Some(u) => Some(u@),
                    None => None,
                },
            ) && e.is_bot == (match bot {
                Some(b) => b,
                None => false,
            }) && e.enqueue_time == enqueue_time,
        },
{
    match domain {
        None => None,
        Some(d) => {
            let u = match user {
                Some(u) => u,
                None => "unknown".to_owned(),
            };
            let b = match bot {
                Some(b) => b,
                None => false,
            };
            Some(WikiEdit { domain: d, user: u, is_bot: b, enqueue_time })
        },
    }
}

/// The fields that a JSON event gives an edit: a string `server_name`, a
/// string `user` or `unknown`, a boolean `bot` or `false`.
pub open spec fn event_fields(body: Seq<char>) -> Option<(Seq<char>, Seq<char>, bool)> {
    match json_string_member(body, "server_name"@) {
        None => None,
        Some(d) => Some(
            (
                d,
                user_or_unknown(json_string_member(body, "user"@)),
                match json_bool_member(body, "bot"@) {
                    Some(b) => b,
                    None => false,
                },
            ),
        ),
    }
}

/// Reads an edit from a stream line through a generic JSON value: the line
/// must start with `data: ` and the rest must be a JSON object whose
/// `server_name` is a string; `user` and `bot` are optional. The edit is
/// stamped with the time it was read.
pub fn parse_edit_nz(line: &str) -> (r: Option<WikiEdit>)
    ensures
        match data_payload(line@) {
            None => r is None,
            Some(body) => match event_fields(body) {
                None => r is None,
                Some(f) => r matches Some(e) && e.domain@ == f.0 && e.user@ == f.1 && e.is_bot == f.2,
            },
        },
        r is Some <==> (data_payload(line@) matches Some(body) && json_string_member(body, "server_name"@) is Some),
        r matches Some(e) ==> data_payload(line@) matches Some(body) && (
        json_string_member(body, "server_name"@) == Some(e.domain@)) && (match json_string_member(
            body,
            "user"@,
        ) {
            Some(u) => e.user@ == u,
            None => e.user@ == "unknown"@,
        }) && (match json_bool_member(body, "bot"@) {
            Some(b) => e.is_bot == b,
            None => !e.is_bot,
        }),
{
    let body = match strip_data_prefix(line) {
        Some(b) => b,
        None => return None,
    };
    let domain = json_member_str(body, "server_name");
    if domain.is_none() {
        return None;
    }
    let user = json_member_str(body, "user");
    let bot = json_member_bool(body, "bot");
    edit_from_fields(domain, user, bot, instant_now())
}

impl WikiEdit {
    /// The edit made of the fields of an event, stamped `enqueue_time`.
    pub fn from_ref(fields: WikiEditRef, enqueue_time: std::time::Instant) -> (e: WikiEdit)
        ensures
            e.domain@ == fields.domain@,
            e.user@ == fields.user@,
            e.is_bot == fields.bot,
            e.enqueue_time == enqueue_time,
    {
        WikiEdit {
            domain: fields.domain.to_owned(),
            user: fields.user.to_owned(),
            is_bot: fields.bot,
            enqueue_time,
        }
    }
}

/// The two queues an edit can go to.
#[derive(PartialEq, Eq, Structural, Debug, Clone, Copy)]
pub enum Lane {
    Human,
    Bot,
}

/// Human edits go to the high-priority queue, bot edits to the other.
pub fn lane_for(is_bot: bool) -> (l: Lane)
    ensures
        l == (if is_bot {
            Lane::Bot
        } else {
            Lane::Human
        }),
{
    if is_bot {
        Lane::Bot
    } else {
        Lane::Human
    }
}

/// Takes the next edit with human priority: the human queue is asked first,
/// and the bot queue only when the human queue had nothing.
pub fn take_by_priority<T, H: FnOnce() -> Option<T>, B: FnOnce() -> Option<T>>(
    take_human: H,
    take_bot: B,
) -> (r: Option<T>)
    requires
        take_human.requires(()),
        forall|h: Option<T>| take_human.ensures((), h) && h is None ==> take_bot.requires(()),
    ensures
        exists|h: Option<T>|
            #![trigger take_human.ensures((), h)]
            take_human.ensures((), h) && (h is Some ==> r == h) && (h is None ==> take_bot.ensures((), r)),
{
    let h = take_human();
    match h {
        Some(e) => Some(e),
        None => take_bot(),
    }
}

/// What an event says is what the edit holds: an event yields an edit
/// exactly when its payload names the domain as a string; the edit's domain
/// is that string, its user is the event's user when that is a string and
/// `unknown` otherwise, and it is a bot edit exactly when the event's `bot`
/// member is the boolean `true` (a `false` or a missing or non-boolean
/// member makes it a human edit).
pub proof fn lemma_event_fields_follow_the_event(body: Seq<char>)
    ensures
        event_fields(body) is Some <==> json_string_member(body, "server_name"@) is Some,
        event_fields(body) matches Some(f) ==> {
            &&& json_string_member(body, "server_name"@) == Some(f.0)
            &&& (json_string_member(body, "user"@) matches Some(u) ==> f.1 == u)
            &&& (json_string_member(body, "user"@) is None ==> f.1 == "unknown"@)
            &&& (f.2 <==> json_bool_member(body, "bot"@) == Some(true))
        },
{
}

} // verus!
