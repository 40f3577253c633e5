//! The command that sets (or clears) the presence shown for a process.
use vstd::prelude::*;
use crate::activity::{Activity, ActivityModel};
use crate::json::{decimal, push_decimal};
use crate::serialize::activity_json;

verus! {

/// A presence command for the process `pid`; without an activity it clears
/// the presence.
pub struct Packet<'a> {
    pub pid: u32,
    pub activity: Option<&'a Activity<'a>>,
}

/// The command envelope: `SET_ACTIVITY` with a placeholder nonce, the process id,
/// and the activity where there is one.
pub open spec fn packet_json(pid: u32, activity: Option<ActivityModel>) -> Seq<char> {
    "{\"cmd\":\"SET_ACTIVITY\""@ + ",\"nonce\":\"-\""@ + ",\"args\":{"@ + "\"pid\":"@ + decimal(
        pid as nat,
    ) + match activity {
        Some(a) => ",\"activity\":"@ + activity_json(a),
        None => seq![],
    } + "}}"@
}

/// The activity of a packet, as its model.
pub open spec fn packet_activity(p: Packet) -> Option<ActivityModel> {
    match p.activity {
        Some(a) => Some(a@),
        None => None,
    }
}

impl<'a> Packet<'a> {
    pub fn new(pid: u32, activity: Option<&'a Activity>) -> (r: Packet<'a>)
        ensures
            r.pid == pid,
            r.activity == activity,
    {
        Packet { pid, activity }
    }

    /// The command as JSON text. Writing into a `String` does not fail, so the
    /// result is always `Ok`.
    pub fn to_json(&self) -> (r: Result<String, std::fmt::Error>)
        ensures
            r is Ok,
            r->Ok_0@ == packet_json(self.pid, packet_activity(*self)),
    {
        let mut json_str = String::new();
        json_str.append("{\"cmd\":\"SET_ACTIVITY\"");
        json_str.append(",\"nonce\":\"-\"");
        json_str.append(",\"args\":{");
        json_str.append("\"pid\":");
        push_decimal(&mut json_str, self.pid as u128);
        if let Some(activity) = self.activity {
            json_str.append(",\"activity\":");
            let _ = activity.push_json(&mut json_str);
        }
        json_str.append("}}");
        assert(json_str@ =~= packet_json(self.pid, packet_activity(*self)));
        Ok(json_str)
    }
}

} // verus!
