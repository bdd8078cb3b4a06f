//! The two-state workflow: a Login screen whose operations are login and
//! register, and a Character screen whose operations are create, delete and
//! logout. Every operation takes the transport outcome of its request and
//! mutates the launcher accordingly; the only state a failure leaves behind
//! is the last error message.

use vstd::prelude::*;
use vstd::string::StringExecFns;

use crate::session::AuthData;
use crate::session::Character;
use crate::session::same_but_characters;
use crate::transport::Host;
use crate::transport::ResponseOutcome;
use crate::transport::connect_failure_text;
use crate::transport::decode_failure_text;
use crate::transport::lemma_error_text_nonempty;
use crate::transport::outcome_error_text;
use crate::transport::server_error_text;

verus! {

/// The server's success response to a character deletion: an empty object.
pub struct EmptyResponse {}

/// Which screen the workflow is on.
pub enum MhfState {
    Login,
    Character,
}

/// The launcher's whole mutable state: the current screen, the operator's
/// credentials and host choice, the session issued by the server, and the
/// last error message (if the most recent request failed).
pub struct MhfLauncher {
    pub state: MhfState,
    pub username: String,
    pub password: String,
    pub custom_host: String,
    pub auth_data: AuthData,
    pub error_message: Option<String>,
    pub host: Host,
}

/// The two launcher values agree on the operator-owned fields: credentials
/// and host selection. No workflow operation touches these.
pub open spec fn operator_fields_unchanged(a: MhfLauncher, b: MhfLauncher) -> bool {
    &&& a.username == b.username
    &&& a.password == b.password
    &&& a.custom_host == b.custom_host
    &&& a.host == b.host
}

impl Default for MhfLauncher {
    /// A fresh launcher: Login screen, empty credentials, local host,
    /// empty session, no error.
    fn default() -> (r: MhfLauncher)
        ensures
            r.state is Login,
            r.username@ == Seq::<char>::empty(),
            r.password@ == Seq::<char>::empty(),
            r.custom_host@ == Seq::<char>::empty(),
            r.auth_data.current_ts == 0,
            r.auth_data.expiry_ts == 0,
            r.auth_data.entrance_count == 0,
            r.auth_data.notifications@ == Seq::<String>::empty(),
            r.auth_data.user.rights == 0,
            r.auth_data.user.token@ == Seq::<char>::empty(),
            r.auth_data.characters@ == Seq::<Character>::empty(),
            r.auth_data.mez_fes is None,
            r.error_message is None,
            r.host is LocalHost,
    {
        MhfLauncher {
            state: MhfState::Login,
            username: String::new(),
            password: String::new(),
            custom_host: String::new(),
            auth_data: AuthData::empty(),
            error_message: None,
            host: Host::LocalHost,
        }
    }
}

impl MhfLauncher {
    /// The base URL the host selector resolves to.
    pub open spec fn spec_host(self) -> Seq<char> {
        match self.host {
            Host::LocalHost => "http://127.0.0.1:8080"@,
            Host::Custom => self.custom_host@,
        }
    }

    /// Resolves the host selector: the fixed loopback address, or the
    /// operator's custom host string.
    pub fn get_host(&self) -> (r: &str)
        ensures
            r@ == self.spec_host(),
    {
        match self.host {
            Host::LocalHost => "http://127.0.0.1:8080",
            Host::Custom => self.custom_host.as_str(),
        }
    }

    /// The URL a login request is posted to.
    pub fn login_url(&self) -> (r: String)
        ensures
            r@ == self.spec_host() + "/login"@,
    {
        self.get_host().to_owned().concat("/login")
    }

    /// The URL a registration request is posted to.
    pub fn register_url(&self) -> (r: String)
        ensures
            r@ == self.spec_host() + "/register"@,
    {
        self.get_host().to_owned().concat("/register")
    }

    /// The URL a character-creation request is posted to.
    pub fn create_character_url(&self) -> (r: String)
        ensures
            r@ == self.spec_host() + "/character/create"@,
    {
        self.get_host().to_owned().concat("/character/create")
    }

    /// The URL a character-deletion request is posted to.
    pub fn delete_character_url(&self) -> (r: String)
        ensures
            r@ == self.spec_host() + "/character/delete"@,
    {
        self.get_host().to_owned().concat("/character/delete")
    }

    /// Turns a transport outcome into decoded data or an error message.
    /// On a decoded body the last error is cleared and the data returned;
    /// on any failure the last error is replaced by the exact message of
    /// that failure, which is never empty. Nothing else changes.
    pub fn handle_response<T>(&mut self, outcome: ResponseOutcome<T>) -> (r: Option<T>)
        ensures
            operator_fields_unchanged(*old(self), *final(self)),
            final(self).state == old(self).state,
            final(self).auth_data == old(self).auth_data,
            match outcome {
                ResponseOutcome::Decoded(v) => r == Some(v) && final(self).error_message is None,
                _ => r is None && (final(self).error_message matches Some(m)
                    && m@ == outcome_error_text(outcome) && m@.len() > 0),
            },
    {
        match outcome {
            ResponseOutcome::Decoded(v) => {
                self.error_message = None;
                Some(v)
            },
            ResponseOutcome::DecodeFailure(detail) => {
                proof {
                    lemma_error_text_nonempty(
                        ResponseOutcome::<T>::DecodeFailure(detail),
                    );
                }
                self.error_message = Some(decode_failure_text(detail.as_str()));
                None
            },
            ResponseOutcome::ServerError(body) => {
                proof {
                    lemma_error_text_nonempty(ResponseOutcome::<T>::ServerError(body));
                }
                self.error_message = Some(server_error_text(body));
                None
            },
            ResponseOutcome::ConnectFailure => {
                proof {
                    lemma_error_text_nonempty(ResponseOutcome::<T>::ConnectFailure);
                }
                self.error_message = Some(connect_failure_text());
                None
            },
        }
    }

    /// Applies the outcome of a login request. Success replaces the session
    /// wholesale with the server's snapshot and moves to the Character
    /// screen; a failure leaves the session and the screen as they were and
    /// records a non-empty error message.
    pub fn login(&mut self, outcome: ResponseOutcome<AuthData>)
        requires
            old(self).state is Login,
        ensures
            operator_fields_unchanged(*old(self), *final(self)),
            match outcome {
                ResponseOutcome::Decoded(data) => final(self).auth_data == data
                    && final(self).state is Character && final(self).error_message is None,
                _ => final(self).auth_data == old(self).auth_data && final(self).state is Login
                    && (final(self).error_message matches Some(m)
                    && m@ == outcome_error_text(outcome) && m@.len() > 0),
            },
    {
        let result = self.handle_response(outcome);
        if let Some(data) = result {
            self.auth_data = data;
            self.state = MhfState::Character;
        }
    }

    /// Applies the outcome of a registration request; the server's answer is
    /// a fresh session, handled exactly as a login success or failure.
    pub fn register(&mut self, outcome: ResponseOutcome<AuthData>)
        requires
            old(self).state is Login,
        ensures
            operator_fields_unchanged(*old(self), *final(self)),
            match outcome {
                ResponseOutcome::Decoded(data) => final(self).auth_data == data
                    && final(self).state is Character && final(self).error_message is None,
                _ => final(self).auth_data == old(self).auth_data && final(self).state is Login
                    && (final(self).error_message matches Some(m)
                    && m@ == outcome_error_text(outcome) && m@.len() > 0),
            },
    {
        let result = self.handle_response(outcome);
        if let Some(data) = result {
            self.auth_data = data;
            self.state = MhfState::Character;
        }
    }

    /// Applies the outcome of a character-creation request. Success appends
    /// the server's new character and returns its index, so the caller can
    /// proceed straight to the start flow for it; a failure changes nothing
    /// but the error message.
    pub fn create_character(&mut self, outcome: ResponseOutcome<Character>) -> (r: Option<
        usize,
    >)
        requires
            old(self).state is Character,
        ensures
            operator_fields_unchanged(*old(self), *final(self)),
            final(self).state == old(self).state,
            match outcome {
                ResponseOutcome::Decoded(c) => r == Some(old(self).auth_data.characters.len())
                    && final(self).auth_data.characters@ == old(self).auth_data.characters@.push(c)
                    && same_but_characters(final(self).auth_data, old(self).auth_data)
                    && final(self).error_message is None,
                _ => r is None && final(self).auth_data == old(self).auth_data
                    && (final(self).error_message matches Some(m)
                    && m@ == outcome_error_text(outcome) && m@.len() > 0),
            },
    {
        let result = self.handle_response(outcome);
        match result {
            Some(c) => {
                let index = self.auth_data.characters.len();
                self.auth_data.add_character(c);
                Some(index)
            },
            None => None,
        }
    }

    /// Applies the outcome of a deletion request for the character with this
    /// id. Success removes exactly the matching characters, keeping the
    /// relative order of the rest (and changes nothing when no character has
    /// the id); a failure changes nothing but the error message.
    pub fn delete_character(&mut self, char_id: u32, outcome: ResponseOutcome<EmptyResponse>)
        requires
            old(self).state is Character,
        ensures
            operator_fields_unchanged(*old(self), *final(self)),
            final(self).state == old(self).state,
            match outcome {
                ResponseOutcome::Decoded(_) => final(self).auth_data.characters@
                    == old(self).auth_data.characters@.filter(|c: Character| c.id != char_id)
                    && same_but_characters(final(self).auth_data, old(self).auth_data)
                    && final(self).error_message is None,
                _ => final(self).auth_data == old(self).auth_data
                    && (final(self).error_message matches Some(m)
                    && m@ == outcome_error_text(outcome) && m@.len() > 0),
            },
    {
        let result = self.handle_response(outcome);
        if let Some(_) = result {
            self.auth_data.remove_character_by_id(char_id);
        }
    }

    /// Leaves the Character screen: clears the error message and returns to
    /// Login. The session data itself is deliberately kept, matching the
    /// observed behaviour of the launcher.
    pub fn logout(&mut self)
        requires
            old(self).state is Character,
        ensures
            operator_fields_unchanged(*old(self), *final(self)),
            final(self).state is Login,
            final(self).error_message is None,
            final(self).auth_data == old(self).auth_data,
    {
        self.error_message = None;
        self.state = MhfState::Login;
    }
}

} // verus!
