//! The chat relay: each message a client sends is announced on the server's
//! console and relayed to every client with the time it arrived.
use vstd::prelude::*;
use crate::json::{entries_view, json_object_text, string_object_json};
use crate::models::field_value;
use crate::text::{decimal_text, decimal_u128};

verus! {

/// How often the notifier broadcasts, in milliseconds.
pub const BROADCAST_INTERVAL_MS: u64 = 1_000;

/// A chat message as a client sends it.
pub struct ChatMessage {
    pub name: String,
    pub message: String,
}

/// The console line for a message received at `received_at` milliseconds
/// after the epoch.
pub open spec fn announcement_text(name: Seq<char>, message: Seq<char>, received_at: nat) -> Seq<char> {
    name + " said: "@ + message + " at "@ + decimal_text(received_at)
}

/// The fields of the relayed message, in the order they are inserted.
pub open spec fn relay_entries(name: Seq<char>, message: Seq<char>, received_at: nat) -> Seq<(Seq<char>, Seq<char>)> {
    seq![("name"@, name), ("message"@, message), ("received_at"@, decimal_text(received_at))]
}

/// The periodic broadcast.
pub open spec fn broadcast_text() -> Seq<char> {
    "Meow!"@
}

/// The text the notifier broadcasts to every client each interval.
pub fn periodic_broadcast() -> (s: String)
    ensures
        s@ == broadcast_text(),
{
    String::from_str("Meow!")
}

/// The relayed message carries the sender's name under `name`, the message
/// under `message`, and the arrival time under `received_at`, each key once;
/// the console line starts with the name and ends with the arrival time.
pub proof fn lemma_relay_fields(name: Seq<char>, message: Seq<char>, received_at: nat)
    ensures
        field_value(relay_entries(name, message, received_at), "name"@) == Some(name),
        field_value(relay_entries(name, message, received_at), "message"@) == Some(message),
        field_value(relay_entries(name, message, received_at), "received_at"@) == Some(decimal_text(received_at)),
        announcement_text(name, message, received_at).take(name.len() as int) == name,
        announcement_text(name, message, received_at).skip(
            announcement_text(name, message, received_at).len() - decimal_text(received_at).len(),
        ) == decimal_text(received_at),
{
    reveal_strlit("name");
    reveal_strlit("message");
    reveal_strlit("received_at");
    let e = relay_entries(name, message, received_at);
    assert(e.drop_last().drop_last() =~= seq![("name"@, name)]);
    assert(e.drop_last().drop_last().drop_last() =~= Seq::<(Seq<char>, Seq<char>)>::empty());
    assert("name"@.len() != "message"@.len());
    assert("name"@.len() != "received_at"@.len());
    assert("message"@.len() != "received_at"@.len());
    let e1 = e.drop_last();
    let e2 = e1.drop_last();
    assert(e.last().0 == "received_at"@);
    assert(e1.last().0 == "message"@);
    assert(e2.last().0 == "name"@);
    assert(field_value(e2, "name"@) == Some(name));
    assert(field_value(e1, "name"@) == field_value(e2, "name"@));
    assert(field_value(e, "name"@) == field_value(e1, "name"@));
    assert(field_value(e1, "message"@) == Some(message));
    assert(field_value(e, "message"@) == field_value(e1, "message"@));
    let a = announcement_text(name, message, received_at);
    assert(a.take(name.len() as int) =~= name);
    assert(a.skip(a.len() - decimal_text(received_at).len()) =~= decimal_text(received_at));
}

impl ChatMessage {
    /// The console line: `<name> said: <message> at <received_at>`.
    pub fn announcement(&self, received_at: u128) -> (line: String)
        ensures
            line@ == announcement_text(self.name@, self.message@, received_at as nat),
    {
        let mut line = self.name.clone();
        line.append(" said: ");
        line.append(self.message.as_str());
        line.append(" at ");
        let stamp = decimal_u128(received_at);
        line.append(stamp.as_str());
        line
    }

    /// The JSON text relayed to every client: the name, the message, and the
    /// arrival time in milliseconds as a decimal string.
    pub fn relay_text(&self, received_at: u128) -> (text: String)
        ensures
            text@ == json_object_text(relay_entries(self.name@, self.message@, received_at as nat)),
    {
        let mut entries: Vec<(String, String)> = Vec::new();
        entries.push((String::from_str("name"), self.name.clone()));
        entries.push((String::from_str("message"), self.message.clone()));
        entries.push((String::from_str("received_at"), decimal_u128(received_at)));
        proof {
            assert(entries_view(entries@) =~= relay_entries(self.name@, self.message@, received_at as nat));
        }
        string_object_json(entries)
    }
}

} // verus!
