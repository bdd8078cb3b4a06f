//! Assembly of the configuration handed to the external game runtime when a
//! character is started: a write-once snapshot of the session, the
//! credentials and the chosen character, with the event's raw stall codes
//! translated into the closed set of typed stalls.

use vstd::prelude::*;

use crate::character_ids;
use crate::controller::MhfLauncher;
use crate::session::Character;

verus! {

/// A typed in-event stall. The set is closed: the server sends numeric
/// codes, and a code outside this set means the client and server disagree
/// on the protocol version.
#[derive(Clone, Copy, PartialEq, Eq, Structural, Debug)]
pub enum Stall {
    UrukiPachinko,
    GuukuScoop,
    Nyanrendo,
    PanicHoney,
    DokkanBattleCats,
    StampRally,
    TokotokoPartnya,
    PointStall,
}

/// Why a launch configuration could not be assembled.
#[derive(Clone, Copy, PartialEq, Eq, Structural, Debug)]
pub enum LaunchError {
    UnknownStallCode(u32),
}

/// The closed code-to-stall mapping; codes outside it have no translation.
pub open spec fn spec_stall_of(code: u32) -> Option<Stall> {
    if code == 3 {
        Some(Stall::UrukiPachinko)
    } else if code == 4 {
        Some(Stall::GuukuScoop)
    } else if code == 5 {
        Some(Stall::Nyanrendo)
    } else if code == 6 {
        Some(Stall::PanicHoney)
    } else if code == 7 {
        Some(Stall::DokkanBattleCats)
    } else if code == 8 {
        Some(Stall::StampRally)
    } else if code == 9 {
        Some(Stall::TokotokoPartnya)
    } else if code == 10 {
        Some(Stall::PointStall)
    } else {
        None
    }
}

/// Translates one raw stall code, reporting the offending code when it lies
/// outside the closed set.
pub fn stall_from_code(code: u32) -> (r: Result<Stall, LaunchError>)
    ensures
        match spec_stall_of(code) {
            Some(s) => r == Ok::<Stall, LaunchError>(s),
            None => r == Err::<Stall, LaunchError>(LaunchError::UnknownStallCode(code)),
        },
{
    match code {
        3 => Ok(Stall::UrukiPachinko),
        4 => Ok(Stall::GuukuScoop),
        5 => Ok(Stall::Nyanrendo),
        6 => Ok(Stall::PanicHoney),
        7 => Ok(Stall::DokkanBattleCats),
        8 => Ok(Stall::StampRally),
        9 => Ok(Stall::TokotokoPartnya),
        10 => Ok(Stall::PointStall),
        _ => Err(LaunchError::UnknownStallCode(code)),
    }
}

/// The stall sequence is the code sequence translated element by element.
pub open spec fn stalls_translated(codes: Seq<u32>, stalls: Seq<Stall>) -> bool {
    &&& stalls.len() == codes.len()
    &&& forall|i: int|
        0 <= i < codes.len() ==> Some(#[trigger] stalls[i]) == spec_stall_of(codes[i])
}

/// Translates a whole sequence of raw stall codes. The result is the
/// element-by-element translation; the first code outside the closed set is
/// reported as the error instead.
pub fn translate_stall_codes(codes: &Vec<u32>) -> (r: Result<Vec<Stall>, LaunchError>)
    ensures
        match r {
            Ok(stalls) => stalls_translated(codes@, stalls@),
            Err(e) => e matches LaunchError::UnknownStallCode(c) && (exists|i: int|
                0 <= i < codes@.len() && #[trigger] codes@[i] == c && spec_stall_of(c) is None
                    && (forall|j: int|
                    0 <= j < i ==> spec_stall_of(#[trigger] codes@[j]) is Some)),
        },
{
    let count = codes.len();
    let mut stalls: Vec<Stall> = Vec::new();
    let mut i: usize = 0;
    while i < count
        invariant
            i <= count,
            count == codes@.len(),
            stalls@.len() == i,
            forall|j: int| 0 <= j < i ==> Some(#[trigger] stalls@[j]) == spec_stall_of(codes@[j]),
        decreases count - i,
    {
        let code = codes[i];
        match stall_from_code(code) {
            Ok(s) => {
                stalls.push(s);
            },
            Err(e) => {
                proof {
                    assert forall|j: int| 0 <= j < i as int implies spec_stall_of(
                        #[trigger] codes@[j],
                    ) is Some by {
                        assert(Some(stalls@[j]) == spec_stall_of(codes@[j]));
                    }
                    assert((i as int) < codes@.len() && codes@[i as int] == code && spec_stall_of(
                        code,
                    ) is None && (forall|j: int|
                        0 <= j < i as int ==> spec_stall_of(#[trigger] codes@[j]) is Some));
                }
                return Err(e);
            },
        }
        i += 1;
    }
    Ok(stalls)
}

/// A notification paired with its flag value, as the runtime takes it.
#[derive(Debug)]
pub struct Notification {
    pub data: String,
    pub flags: u32,
}

/// The output notifications carry the input texts in order, each with a
/// zero flag value.
pub open spec fn notifications_paired(texts: Seq<String>, out: Seq<Notification>) -> bool {
    &&& out.len() == texts.len()
    &&& forall|i: int|
        0 <= i < texts.len() ==> (#[trigger] out[i]).data == texts[i] && out[i].flags == 0
}

/// The active event's share of the launch configuration, with its stall
/// codes already translated.
#[derive(Debug)]
pub struct EventConfig {
    pub id: u32,
    pub start: u32,
    pub end: u32,
    pub solo_tickets: u32,
    pub group_tickets: u32,
    pub stalls: Vec<Stall>,
}

/// The write-once snapshot handed to the external runtime: session counters
/// and timestamps, notifications, the chosen character, the account's
/// character ids, the credentials, the user record, the event (when one is
/// active) and the installation path.
#[derive(Debug)]
pub struct LaunchConfig {
    pub entrance_count: u32,
    pub current_ts: u32,
    pub expiry_ts: u32,
    pub notifications: Vec<Notification>,
    pub char_id: u32,
    pub char_new: bool,
    pub char_name: String,
    pub char_hr: u32,
    pub char_gr: u32,
    pub char_ids: Vec<u32>,
    pub user_name: String,
    pub user_password: String,
    pub user_rights: u32,
    pub user_token: String,
    pub mez_event: Option<EventConfig>,
    pub mhf_folder: String,
}

impl MhfLauncher {
    /// Builds the launch configuration for the character at this index.
    /// With no active event the event part is absent; with one, every event
    /// field is copied and each stall code translated, and the first code
    /// outside the closed set is reported as the error instead.
    pub fn build_launch_config(&self, char_index: usize, mhf_folder: &str) -> (r: Result<
        LaunchConfig,
        LaunchError,
    >)
        requires
            char_index < self.auth_data.characters@.len(),
        ensures
            match r {
                Ok(cfg) => {
                    &&& cfg.entrance_count == self.auth_data.entrance_count
                    &&& cfg.current_ts == self.auth_data.current_ts
                    &&& cfg.expiry_ts == self.auth_data.expiry_ts
                    &&& notifications_paired(self.auth_data.notifications@, cfg.notifications@)
                    &&& cfg.char_id == self.auth_data.characters@[char_index as int].id
                    &&& cfg.char_new == self.auth_data.characters@[char_index as int].is_new
                    &&& cfg.char_name == self.auth_data.characters@[char_index as int].name
                    &&& cfg.char_hr == self.auth_data.characters@[char_index as int].hr
                    &&& cfg.char_gr == self.auth_data.characters@[char_index as int].gr
                    &&& cfg.char_ids@ == character_ids(self.auth_data.characters@)
                    &&& cfg.user_name == self.username
                    &&& cfg.user_password == self.password
                    &&& cfg.user_rights == self.auth_data.user.rights
                    &&& cfg.user_token == self.auth_data.user.token
                    &&& cfg.mhf_folder@ == mhf_folder@
                    &&& match self.auth_data.mez_fes {
                        None => cfg.mez_event is None,
                        Some(m) => cfg.mez_event matches Some(ec) && ec.id == m.id && ec.start
                            == m.start && ec.end == m.end && ec.solo_tickets == m.solo_tickets
                            && ec.group_tickets == m.group_tickets && stalls_translated(
                            m.stalls@,
                            ec.stalls@,
                        ),
                    }
                },
                Err(e) => self.auth_data.mez_fes matches Some(m) && e matches
                    LaunchError::UnknownStallCode(c) && (exists|i: int|
                    0 <= i < m.stalls@.len() && #[trigger] m.stalls@[i] == c && spec_stall_of(
                        c,
                    ) is None && (forall|j: int|
                        0 <= j < i ==> spec_stall_of(#[trigger] m.stalls@[j]) is Some)),
            },
    {
        let auth = &self.auth_data;
        let mez_event: Option<EventConfig>;
        match &auth.mez_fes {
            None => {
                mez_event = None;
            },
            Some(m) => {
                match translate_stall_codes(&m.stalls) {
                    Ok(stalls) => {
                        mez_event = Some(
                            EventConfig {
                                id: m.id,
                                start: m.start,
                                end: m.end,
                                solo_tickets: m.solo_tickets,
                                group_tickets: m.group_tickets,
                                stalls,
                            },
                        );
                    },
                    Err(e) => {
                        return Err(e);
                    },
                }
            },
        }
        let char_count = auth.characters.len();
        let mut char_ids: Vec<u32> = Vec::new();
        let mut i: usize = 0;
        while i < char_count
            invariant
                i <= char_count,
                char_count == auth.characters@.len(),
                char_ids@.len() == i,
                forall|j: int| 0 <= j < i ==> #[trigger] char_ids@[j] == auth.characters@[j].id,
            decreases char_count - i,
        {
            char_ids.push(auth.characters[i].id);
            i += 1;
        }
        proof {
            assert(char_ids@ =~= character_ids(auth.characters@));
        }
        let note_count = auth.notifications.len();
        let mut notifications: Vec<Notification> = Vec::new();
        let mut i: usize = 0;
        while i < note_count
            invariant
                i <= note_count,
                note_count == auth.notifications@.len(),
                notifications@.len() == i,
                forall|j: int|
                    0 <= j < i ==> (#[trigger] notifications@[j]).data == auth.notifications@[j]
                        && notifications@[j].flags == 0,
            decreases note_count - i,
        {
            notifications.push(Notification { data: auth.notifications[i].clone(), flags: 0 });
            i += 1;
        }
        let character = &auth.characters[char_index];
        Ok(
            LaunchConfig {
                entrance_count: auth.entrance_count,
                current_ts: auth.current_ts,
                expiry_ts: auth.expiry_ts,
                notifications,
                char_id: character.id,
                char_new: character.is_new,
                char_name: character.name.clone(),
                char_hr: character.hr,
                char_gr: character.gr,
                char_ids,
                user_name: self.username.clone(),
                user_password: self.password.clone(),
                user_rights: auth.user.rights,
                user_token: auth.user.token.clone(),
                mez_event,
                mhf_folder: mhf_folder.to_owned(),
            },
        )
    }
}

} // verus!
