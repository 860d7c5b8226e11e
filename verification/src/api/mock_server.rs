//! A stand-in homeserver for trials: what each endpoint is to answer, as
//! plain values for a mock server to be set up with.

use crate::config::{
    build_join_url, build_login_url, build_profile_url, build_room_members_url,
    build_send_message_url, join_path, login_path, profile_path, room_members_path,
    send_message_path,
};
use crate::exchange::Method;
use vstd::prelude::*;
use vstd::string::StringExecFns;

verus! {

/// The status with which every endpoint of the stand-in answers.
pub const OK: u16 = 200;

/// One endpoint of the stand-in: the request it takes and the response it
/// gives.
#[derive(Debug, PartialEq, Eq)]
pub struct MockEndpoint {
    pub method: Method,
    /// The path below the server's base address.
    pub path: String,
    pub status: u16,
    pub body: String,
}

/// [`MockEndpoint`] in specifications.
pub struct MockEndpointView {
    pub method: Method,
    pub path: Seq<char>,
    pub status: u16,
    pub body: Seq<char>,
}

impl View for MockEndpoint {
    type V = MockEndpointView;

    open spec fn view(&self) -> MockEndpointView {
        MockEndpointView {
            method: self.method,
            path: self.path@,
            status: self.status,
            body: self.body@,
        }
    }
}

/// A homeserver on which everything succeeds: any token is live, a login
/// grants the token `testtoken`, one account is the only member of the room,
/// and joining and sending are accepted.
#[derive(Debug, PartialEq, Eq)]
pub struct MockMatrix {
    pub profile_endpoint: MockEndpoint,
    pub login_endpoint: MockEndpoint,
    pub room_members_endpoint: MockEndpoint,
    pub join_room_endpoint: MockEndpoint,
    pub send_message_endpoint: MockEndpoint,
}

/// [`MockMatrix`] in specifications.
pub struct MockMatrixView {
    pub profile_endpoint: MockEndpointView,
    pub login_endpoint: MockEndpointView,
    pub room_members_endpoint: MockEndpointView,
    pub join_room_endpoint: MockEndpointView,
    pub send_message_endpoint: MockEndpointView,
}

impl View for MockMatrix {
    type V = MockMatrixView;

    open spec fn view(&self) -> MockMatrixView {
        MockMatrixView {
            profile_endpoint: self.profile_endpoint@,
            login_endpoint: self.login_endpoint@,
            room_members_endpoint: self.room_members_endpoint@,
            join_room_endpoint: self.join_room_endpoint@,
            send_message_endpoint: self.send_message_endpoint@,
        }
    }
}

/// The body of a response that says nothing: an empty object.
pub open spec fn empty_body() -> Seq<char> {
    "\n{\n}\n"@
}

/// The body of the stand-in's login response.
pub open spec fn login_body() -> Seq<char> {
    "\n{\n    \"access_token\": \"testtoken\",\n    \"user_id\": \"testuser\",\n    \"home_server\": \"testmatrix\",\n    \"device_id\": \"testingdevice\"\n}\n"@
}

/// The body that lists `full_username` as the only member.
pub open spec fn room_members_body(full_username: Seq<char>) -> Seq<char> {
    "\n{\n    \"joined\": {\n        \""@ + full_username
        + "\": {\n            \"display_name\": \"Test\",\n            \"avatar_url\": \"\"\n        }\n    }\n}\n"@
}

/// The stand-in for the account `full_username` and the room `room`.
pub open spec fn mock_matrix(room: Seq<char>, full_username: Seq<char>) -> MockMatrixView {
    MockMatrixView {
        profile_endpoint: MockEndpointView {
            method: Method::Get,
            path: profile_path(full_username),
            status: OK,
            body: empty_body(),
        },
        login_endpoint: MockEndpointView {
            method: Method::Post,
            path: login_path(),
            status: OK,
            body: login_body(),
        },
        room_members_endpoint: MockEndpointView {
            method: Method::Get,
            path: room_members_path(room),
            status: OK,
            body: room_members_body(full_username),
        },
        join_room_endpoint: MockEndpointView {
            method: Method::Post,
            path: join_path(room),
            status: OK,
            body: empty_body(),
        },
        send_message_endpoint: MockEndpointView {
            method: Method::Post,
            path: send_message_path(room),
            status: OK,
            body: empty_body(),
        },
    }
}

impl MockMatrix {
    /// The stand-in for the account `full_username` and the room `room`.
    pub fn new(room: &str, full_username: &str) -> (mock: Self)
        ensures
            mock@ == mock_matrix(room@, full_username@),
    {
        Self {
            profile_endpoint: Self::generate_profile_endpoint(full_username),
            login_endpoint: Self::generate_login_endpoint(),
            room_members_endpoint: Self::generate_room_members_endpoint(room, full_username),
            join_room_endpoint: Self::generate_join_room_endpoint(room),
            send_message_endpoint: Self::generate_send_message_endpoint(room),
        }
    }

    fn generate_profile_endpoint(full_username: &str) -> (endpoint: MockEndpoint)
        ensures
            endpoint@ == mock_matrix(Seq::empty(), full_username@).profile_endpoint,
    {
        let path = build_profile_url("", full_username);
        proof {
            reveal_strlit("");
        }
        MockEndpoint {
            method: Method::Get,
            path,
            status: OK,
            body: "\n{\n}\n".to_owned(),
        }
    }

    fn generate_login_endpoint() -> (endpoint: MockEndpoint)
        ensures
            endpoint@ == mock_matrix(Seq::empty(), Seq::empty()).login_endpoint,
    {
        let path = build_login_url("");
        proof {
            reveal_strlit("");
        }
        MockEndpoint {
            method: Method::Post,
            path,
            status: OK,
            body: "\n{\n    \"access_token\": \"testtoken\",\n    \"user_id\": \"testuser\",\n    \"home_server\": \"testmatrix\",\n    \"device_id\": \"testingdevice\"\n}\n".to_owned(),
        }
    }

    fn generate_room_members_endpoint(room: &str, full_username: &str) -> (endpoint: MockEndpoint)
        ensures
            endpoint@ == mock_matrix(room@, full_username@).room_members_endpoint,
    {
        let path = build_room_members_url("", room);
        proof {
            reveal_strlit("");
        }
        MockEndpoint {
            method: Method::Get,
            path,
            status: OK,
            body: "\n{\n    \"joined\": {\n        \"".to_owned().concat(full_username).concat(
                "\": {\n            \"display_name\": \"Test\",\n            \"avatar_url\": \"\"\n        }\n    }\n}\n",
            ),
        }
    }

    fn generate_join_room_endpoint(room: &str) -> (endpoint: MockEndpoint)
        ensures
            endpoint@ == mock_matrix(room@, Seq::empty()).join_room_endpoint,
    {
        let path = build_join_url("", room);
        proof {
            reveal_strlit("");
        }
        MockEndpoint {
            method: Method::Post,
            path,
            status: OK,
            body: "\n{\n}\n".to_owned(),
        }
    }

    fn generate_send_message_endpoint(room: &str) -> (endpoint: MockEndpoint)
        ensures
            endpoint@ == mock_matrix(room@, Seq::empty()).send_message_endpoint,
    {
        let path = build_send_message_url("", room);
        proof {
            reveal_strlit("");
        }
        MockEndpoint {
            method: Method::Post,
            path,
            status: OK,
            body: "\n{\n}\n".to_owned(),
        }
    }
}

} // verus!
