//! Stored credentials and the endpoint addresses derived from them.

use vstd::prelude::*;
use vstd::string::StringExecFns;

verus! {

/// Why the stored credentials could not be read or written. Each variant
/// carries the message of the failure it stands for.
#[derive(Debug, PartialEq, Eq)]
pub enum ConfigError {
    Io(String),
    TomlSerialize(String),
    TomlDeserialize(String),
}

/// [`ConfigError`] in specifications.
pub enum ConfigErrorView {
    Io(Seq<char>),
    TomlSerialize(Seq<char>),
    TomlDeserialize(Seq<char>),
}

impl View for ConfigError {
    type V = ConfigErrorView;

    open spec fn view(&self) -> ConfigErrorView {
        match *self {
            ConfigError::Io(m) => ConfigErrorView::Io(m@),
            ConfigError::TomlSerialize(m) => ConfigErrorView::TomlSerialize(m@),
            ConfigError::TomlDeserialize(m) => ConfigErrorView::TomlDeserialize(m@),
        }
    }
}

impl Clone for ConfigError {
    fn clone(&self) -> (copy: Self)
        ensures
            copy == *self,
    {
        match self {
            ConfigError::Io(m) => ConfigError::Io(m.clone()),
            ConfigError::TomlSerialize(m) => ConfigError::TomlSerialize(m.clone()),
            ConfigError::TomlDeserialize(m) => ConfigError::TomlDeserialize(m.clone()),
        }
    }
}

/// The credentials of one account on one homeserver.
#[derive(Debug, PartialEq, Eq)]
pub struct Config {
    pub base_url: String,
    pub local_username: String,
    pub full_username: String,
    pub password: Option<String>,
    pub token: Option<String>,
}

/// [`Config`] in specifications.
pub struct ConfigView {
    pub base_url: Seq<char>,
    pub local_username: Seq<char>,
    pub full_username: Seq<char>,
    pub password: Option<Seq<char>>,
    pub token: Option<Seq<char>>,
}

impl View for Config {
    type V = ConfigView;

    open spec fn view(&self) -> ConfigView {
        ConfigView {
            base_url: self.base_url@,
            local_username: self.local_username@,
            full_username: self.full_username@,
            password: self.password.deep_view(),
            token: self.token.deep_view(),
        }
    }
}

impl ConfigView {
    /// These credentials with `token` as the stored access token.
    pub open spec fn with_token(self, token: Seq<char>) -> ConfigView {
        ConfigView { token: Some(token), ..self }
    }
}

impl Clone for Config {
    fn clone(&self) -> (copy: Self)
        ensures
            copy == *self,
    {
        Config {
            base_url: self.base_url.clone(),
            local_username: self.local_username.clone(),
            full_username: self.full_username.clone(),
            password: self.password.clone(),
            token: self.token.clone(),
        }
    }
}

/// Path of the profile of `username`, which answers only to a live token.
pub open spec fn profile_path(username: Seq<char>) -> Seq<char> {
    "/_matrix/client/r0/profile/"@ + username
}

/// Path of the password login.
pub open spec fn login_path() -> Seq<char> {
    "/_matrix/client/r0/login"@
}

/// Path that lists the members who have joined `room`.
pub open spec fn room_members_path(room: Seq<char>) -> Seq<char> {
    "/_matrix/client/r0/rooms/"@ + room + "/joined_members"@
}

/// Path that joins `room`.
pub open spec fn join_path(room: Seq<char>) -> Seq<char> {
    "/_matrix/client/r0/rooms/"@ + room + "/join"@
}

/// Path that takes a message for `room`.
pub open spec fn send_message_path(room: Seq<char>) -> Seq<char> {
    "/_matrix/client/r0/rooms/"@ + room + "/send/m.room.message"@
}

/// An address is the base address of the homeserver, then the path.
pub open spec fn profile_url(base_url: Seq<char>, username: Seq<char>) -> Seq<char> {
    base_url + profile_path(username)
}

/// Address of the password login.
pub open spec fn login_url(base_url: Seq<char>) -> Seq<char> {
    base_url + login_path()
}

/// Address that lists the members who have joined `room`.
pub open spec fn room_members_url(base_url: Seq<char>, room: Seq<char>) -> Seq<char> {
    base_url + room_members_path(room)
}

/// Address that joins `room`.
pub open spec fn join_url(base_url: Seq<char>, room: Seq<char>) -> Seq<char> {
    base_url + join_path(room)
}

/// Address that takes a message for `room`.
pub open spec fn send_message_url(base_url: Seq<char>, room: Seq<char>) -> Seq<char> {
    base_url + send_message_path(room)
}

/// Address of the profile of `username` on the homeserver at `base_url`.
pub fn build_profile_url(base_url: &str, username: &str) -> (url: String)
    ensures
        url@ == profile_url(base_url@, username@),
{
    base_url.to_owned().concat("/_matrix/client/r0/profile/").concat(username)
}

/// Address of the password login on the homeserver at `base_url`.
pub fn build_login_url(base_url: &str) -> (url: String)
    ensures
        url@ == login_url(base_url@),
{
    base_url.to_owned().concat("/_matrix/client/r0/login")
}

/// Address that lists the joined members of `room`.
pub fn build_room_members_url(base_url: &str, room: &str) -> (url: String)
    ensures
        url@ == room_members_url(base_url@, room@),
{
    base_url.to_owned().concat("/_matrix/client/r0/rooms/").concat(room).concat("/joined_members")
}

/// Address that joins `room`.
pub fn build_join_url(base_url: &str, room: &str) -> (url: String)
    ensures
        url@ == join_url(base_url@, room@),
{
    base_url.to_owned().concat("/_matrix/client/r0/rooms/").concat(room).concat("/join")
}

/// Address that takes a message for `room`.
pub fn build_send_message_url(base_url: &str, room: &str) -> (url: String)
    ensures
        url@ == send_message_url(base_url@, room@),
{
    base_url.to_owned().concat("/_matrix/client/r0/rooms/").concat(room).concat(
        "/send/m.room.message",
    )
}

impl Config {
    /// These credentials with `token` as the stored access token.
    pub fn with_token(self, token: String) -> (kept: Config)
        ensures
            kept@ == self@.with_token(token@),
    {
        Config {
            base_url: self.base_url,
            local_username: self.local_username,
            full_username: self.full_username,
            password: self.password,
            token: Some(token),
        }
    }

    /// Address of the account's own profile.
    pub fn get_profile_url(&self) -> (url: String)
        ensures
            url@ == profile_url(self@.base_url, self@.full_username),
    {
        build_profile_url(self.base_url.as_str(), self.full_username.as_str())
    }

    /// Address of the password login on the account's homeserver.
    pub fn get_login_url(&self) -> (url: String)
        ensures
            url@ == login_url(self@.base_url),
    {
        build_login_url(self.base_url.as_str())
    }

    /// Address that lists the joined members of `room` on the account's
    /// homeserver.
    pub fn get_room_members_url(&self, room: &str) -> (url: String)
        ensures
            url@ == room_members_url(self@.base_url, room@),
    {
        build_room_members_url(self.base_url.as_str(), room)
    }

    /// Address that joins `room` on the account's homeserver.
    pub fn get_join_url(&self, room: &str) -> (url: String)
        ensures
            url@ == join_url(self@.base_url, room@),
    {
        build_join_url(self.base_url.as_str(), room)
    }

    /// Address that takes a message for `room` on the account's homeserver.
    pub fn get_send_message_url(&self, room: &str) -> (url: String)
        ensures
            url@ == send_message_url(self@.base_url, room@),
    {
        build_send_message_url(self.base_url.as_str(), room)
    }
}

} // verus!
