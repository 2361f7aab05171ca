//! The JSON messages of the peer protocol: the handshake and the
//! SET_ACTIVITY command. Objects are written with their keys in sorted
//! order, one value after another, with no whitespace.

use crate::engine::{asset_entries_spec, PresenceButton, PresenceState, PresenceView};
use crate::rpc::{decimal, decimal_text, hex, hex_text};
use vstd::prelude::*;

verus! {

/// The JSON text of a string value, quotes and escapes included.
pub uninterp spec fn json_quoted(s: Seq<char>) -> Seq<char>;

/// Relies on serde_json's serialization of a string value, which depends on
/// the characters alone.
#[verifier::external_body]
fn json_string(s: &str) -> (r: String)
    ensures
        r@ == json_quoted(s@),
{
    serde_json::Value::String(s.to_string()).to_string()
}

/// The decimal numeral of `v`, with a minus sign when negative.
pub open spec fn int_text(v: int) -> Seq<char> {
    if v < 0 {
        "-"@ + decimal((-v) as nat)
    } else {
        decimal(v as nat)
    }
}

/// `items` separated by commas.
pub open spec fn joined(items: Seq<Seq<char>>) -> Seq<char>
    decreases items.len(),
{
    if items.len() == 0 {
        Seq::empty()
    } else if items.len() == 1 {
        items[0]
    } else {
        joined(items.drop_last()) + ","@ + items.last()
    }
}

/// The handshake body: `{"client_id":<id>,"v":1}`.
pub open spec fn handshake_text(client_id: Seq<char>) -> Seq<char> {
    "{\"client_id\":"@ + json_quoted(client_id) + ",\"v\":1}"@
}

/// A button object.
pub open spec fn button_json(b: (Seq<char>, Seq<char>)) -> Seq<char> {
    "{\"label\":"@ + json_quoted(b.0) + ",\"url\":"@ + json_quoted(b.1) + "}"@
}

/// One member of the assets object.
pub open spec fn asset_json(e: (Seq<char>, Seq<char>)) -> Seq<char> {
    json_quoted(e.0) + ":"@ + json_quoted(e.1)
}

/// The timestamps object: the start time when known, else empty.
pub open spec fn timestamps_json(t: Option<i64>) -> Seq<char> {
    match t {
        Some(v) => "{\"start\":"@ + int_text(v as int) + "}"@,
        None => "{}"@,
    }
}

/// The assets member of an activity, with its trailing comma; nothing when
/// the presence has no assets.
pub open spec fn assets_member(p: PresenceView) -> Seq<char> {
    let entries = asset_entries_spec(p);
    if entries.len() == 0 {
        Seq::empty()
    } else {
        "\"assets\":{"@ + joined(entries.map_values(|e: (Seq<char>, Seq<char>)| asset_json(e)))
            + "},"@
    }
}

/// The activity object of a presence.
pub open spec fn activity_json(p: PresenceView) -> Seq<char> {
    "{"@ + assets_member(p) + "\"buttons\":["@ + joined(
        p.buttons.map_values(|b: (Seq<char>, Seq<char>)| button_json(b)),
    ) + "],\"details\":"@ + json_quoted(p.details) + ",\"name\":"@ + json_quoted(p.name)
        + ",\"state\":"@ + json_quoted(p.state) + ",\"timestamps\":"@ + timestamps_json(
        p.start_timestamp,
    ) + ",\"type\":"@ + decimal(p.activity_type as nat) + "}"@
}

/// The presence of an optional payload, as text and numbers.
pub open spec fn opt_view(s: Option<PresenceState>) -> Option<PresenceView> {
    match s {
        Some(p) => Some(p@),
        None => None,
    }
}

/// The SET_ACTIVITY command: the activity of a presence, or `null` to clear
/// it, for process `pid`, correlated by `nonce`.
pub open spec fn command_text(activity: Option<PresenceView>, pid: nat, nonce: Seq<char>) -> Seq<
    char,
> {
    "{\"args\":{\"activity\":"@ + match activity {
        Some(p) => activity_json(p),
        None => "null"@,
    } + ",\"pid\":"@ + decimal(pid) + "},\"cmd\":\"SET_ACTIVITY\",\"nonce\":"@ + json_quoted(nonce)
        + "}"@
}

/// The handshake body that opens a session for `client_id`.
pub fn handshake_payload(client_id: &str) -> (r: String)
    ensures
        r@ == handshake_text(client_id@),
{
    let mut text = String::from_str("{\"client_id\":");
    let id = json_string(client_id);
    text.append(id.as_str());
    text.append(",\"v\":1}");
    text
}

/// The decimal numeral of `v`, with a minus sign when negative.
pub fn int_numeral(v: i64) -> (r: String)
    ensures
        r@ == int_text(v as int),
{
    if v < 0 {
        let magnitude: u64 = (-(v + 1)) as u64 + 1;
        let mut text = String::from_str("-");
        let digits = decimal_text(magnitude);
        text.append(digits.as_str());
        text
    } else {
        decimal_text(v as u64)
    }
}

/// A request nonce: `nanos` in lower-case hexadecimal.
pub fn nonce_text(nanos: u128) -> (r: String)
    ensures
        r@ == hex(nanos as nat),
{
    hex_text(nanos)
}

proof fn lemma_joined_step(items: Seq<Seq<char>>, i: int)
    requires
        0 <= i < items.len(),
    ensures
        joined(items.take(i + 1)) == if i == 0 {
            items[0]
        } else {
            joined(items.take(i)) + ","@ + items[i]
        },
{
    let pre = items.take(i + 1);
    assert(pre.drop_last() =~= items.take(i));
    assert(pre.last() == items[i]);
    if i == 0 {
        assert(pre.len() == 1);
    }
}

/// Appends item `i` of a comma-separated list whose first `i` items are
/// already in `text`.
fn append_item(text: &mut String, i: usize, item: &String, Ghost(base): Ghost<Seq<char>>, Ghost(items): Ghost<Seq<Seq<char>>>)
    requires
        i < items.len(),
        items[i as int] == item@,
        old(text)@ == base + joined(items.take(i as int)),
    ensures
        final(text)@ == base + joined(items.take(i + 1)),
{
    proof {
        lemma_joined_step(items, i as int);
    }
    if i > 0 {
        text.append(",");
    }
    text.append(item.as_str());
    assert(text@ =~= base + joined(items.take(i + 1)));
}

fn button_text(b: &PresenceButton) -> (r: String)
    ensures
        r@ == button_json((b.label@, b.url@)),
{
    let mut text = String::from_str("{\"label\":");
    let label = json_string(b.label.as_str());
    text.append(label.as_str());
    text.append(",\"url\":");
    let url = json_string(b.url.as_str());
    text.append(url.as_str());
    text.append("}");
    text
}

fn asset_text(key: &String, value: &String) -> (r: String)
    ensures
        r@ == asset_json((key@, value@)),
{
    let mut text = json_string(key.as_str());
    text.append(":");
    let v = json_string(value.as_str());
    text.append(v.as_str());
    text
}

fn timestamps_text(t: Option<i64>) -> (r: String)
    ensures
        r@ == timestamps_json(t),
{
    match t {
        Some(v) => {
            let mut text = String::from_str("{\"start\":");
            let n = int_numeral(v);
            text.append(n.as_str());
            text.append("}");
            text
        },
        None => String::from_str("{}"),
    }
}

fn assets_text(p: &PresenceState) -> (r: String)
    ensures
        r@ == assets_member(p@),
{
    let entries = p.asset_entries();
    let ghost views = entries@.map_values(|e: (String, String)| (e.0@, e.1@));
    let ghost items = views.map_values(|e: (Seq<char>, Seq<char>)| asset_json(e));
    if entries.len() == 0 {
        return String::new();
    }
    let mut text = String::from_str("\"assets\":{");
    let ghost base = text@;
    let mut i: usize = 0;
    while i < entries.len()
        invariant
            i <= entries@.len(),
            views == entries@.map_values(|e: (String, String)| (e.0@, e.1@)),
            items == views.map_values(|e: (Seq<char>, Seq<char>)| asset_json(e)),
            text@ == base + joined(items.take(i as int)),
        decreases entries@.len() - i,
    {
        let item = asset_text(&entries[i].0, &entries[i].1);
        append_item(&mut text, i, &item, Ghost(base), Ghost(items));
        i = i + 1;
    }
    assert(items.take(items.len() as int) =~= items);
    text.append("},");
    text
}

fn buttons_text(p: &PresenceState) -> (r: String)
    ensures
        r@ == "\"buttons\":["@ + joined(p@.buttons.map_values(|b: (Seq<char>, Seq<char>)| button_json(b))),
{
    let ghost items = p@.buttons.map_values(|b: (Seq<char>, Seq<char>)| button_json(b));
    let mut text = String::from_str("\"buttons\":[");
    let ghost base = text@;
    assert(items.take(0).len() == 0);
    let mut i: usize = 0;
    while i < p.buttons.len()
        invariant
            i <= p.buttons@.len(),
            items == p@.buttons.map_values(|b: (Seq<char>, Seq<char>)| button_json(b)),
            text@ == base + joined(items.take(i as int)),
        decreases p.buttons@.len() - i,
    {
        let item = button_text(&p.buttons[i]);
        append_item(&mut text, i, &item, Ghost(base), Ghost(items));
        i = i + 1;
    }
    assert(items.take(items.len() as int) =~= items);
    text
}

fn activity_text(p: &PresenceState) -> (r: String)
    ensures
        r@ == activity_json(p@),
{
    let mut text = String::from_str("{");
    let assets = assets_text(p);
    text.append(assets.as_str());
    let buttons = buttons_text(p);
    text.append(buttons.as_str());
    text.append("],\"details\":");
    let details = json_string(p.details.as_str());
    text.append(details.as_str());
    text.append(",\"name\":");
    let name = json_string(p.name.as_str());
    text.append(name.as_str());
    text.append(",\"state\":");
    let state = json_string(p.state.as_str());
    text.append(state.as_str());
    text.append(",\"timestamps\":");
    let ts = timestamps_text(p.start_timestamp);
    text.append(ts.as_str());
    text.append(",\"type\":");
    let kind = decimal_text(p.activity_type as u64);
    text.append(kind.as_str());
    text.append("}");
    assert(text@ =~= activity_json(p@));
    text
}

/// The SET_ACTIVITY command: the activity of `state`, or `null` to clear the
/// presence when `state` is `None`, for process `pid`, with `nonce`.
pub fn activity_command(state: &Option<PresenceState>, pid: u32, nonce: &str) -> (r: String)
    ensures
        r@ == command_text(opt_view(*state), pid as nat, nonce@),
{
    let mut text = String::from_str("{\"args\":{\"activity\":");
    match state {
        Some(p) => {
            let activity = activity_text(p);
            text.append(activity.as_str());
        },
        None => text.append("null"),
    }
    text.append(",\"pid\":");
    let pid_text = decimal_text(pid as u64);
    text.append(pid_text.as_str());
    text.append("},\"cmd\":\"SET_ACTIVITY\",\"nonce\":");
    let n = json_string(nonce);
    text.append(n.as_str());
    text.append("}");
    assert(text@ =~= command_text(opt_view(*state), pid as nat, nonce@));
    text
}

} // verus!
