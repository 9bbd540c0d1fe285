use crate::credentials::RithmicCredentials;
use crate::errors::RithmicApiError;
use crate::plants::SysInfraType;
use vstd::prelude::*;
use vstd::string::StringExecFns;

verus! {

/// The template id of the request that asks which systems a server offers.
pub const SYSTEM_INFO_REQUEST: i32 = 16;

/// The template id of a login request.
pub const LOGIN_REQUEST: i32 = 10;

/// The template id of a logout request.
pub const LOGOUT_REQUEST: i32 = 12;

/// The request that opens the handshake. It only introduces the client.
#[derive(Debug)]
pub struct SystemInfoRequest {
    pub template_id: i32,
    pub user_msg: String,
}

/// The login request of the handshake's second step.
#[derive(Debug)]
pub struct LoginRequest {
    pub template_id: i32,
    pub template_version: String,
    pub user: String,
    pub password: String,
    pub app_name: String,
    pub app_version: String,
    pub system_name: String,
    pub infra_type: i32,
    pub aggregated_quotes: bool,
}

/// How far a handshake has come.
#[derive(Clone, Copy, Debug, PartialEq, Eq, Structural)]
pub enum HandshakeState {
    /// The connection for the system query is being opened.
    ConnectingForSystemInfo,
    /// The system query went out; its response is awaited.
    AwaitingSystemInfo,
    /// The system name is known; the first connection is being closed.
    ClosingDiscovery,
    /// The connection for the login is being opened.
    ConnectingForLogin,
    /// The login request went out; its response is awaited.
    AwaitingLoginResponse,
    /// The handshake has ended, well or badly. Nothing more will be asked for.
    Done,
}

/// What the transport reports back after carrying out an action.
#[derive(Debug)]
pub enum HandshakeEvent {
    /// A connection was opened.
    Connected,
    /// The system names that the server's response lists.
    SystemInfo(Vec<String>),
    /// The current connection was closed.
    Closed,
    /// The login response arrived, with the heartbeat interval in seconds if
    /// it names one.
    LoginResponse(Option<u64>),
    /// The transport failed to carry out the action.
    Failed(String),
}

/// What the transport is asked to do next.
#[derive(Debug)]
pub enum HandshakeAction {
    /// Open a new connection to the server.
    Connect,
    /// Send the system query and read one response.
    RequestSystemInfo(SystemInfoRequest),
    /// Close the current connection.
    Close,
    /// Send the login request and read one response.
    Login(LoginRequest),
    /// The handshake succeeded: register the plant under the system name,
    /// with the heartbeat interval that the server named.
    Register(String, Option<u64>),
    /// The handshake failed.
    Fail(RithmicApiError),
}

/// One handshake with one plant: a system query on a first connection, then
/// a login on a second one.
#[derive(Debug)]
pub struct Handshake {
    plant: SysInfraType,
    state: HandshakeState,
    system_name: String,
}

/// The text that introduces the client in a system query.
pub open spec fn signing_in(app_name: Seq<char>) -> Seq<char> {
    app_name + " Signing In"@
}

/// The text that takes leave of the server in a logout request.
pub open spec fn signing_out(app_name: Seq<char>) -> Seq<char> {
    app_name + " Signing Out"@
}

/// `request` is the login request for these credentials, that system and
/// that plant.
pub open spec fn is_login_request(
    request: LoginRequest,
    credentials: RithmicCredentials,
    system_name: Seq<char>,
    plant: SysInfraType,
) -> bool {
    &&& request.template_id == LOGIN_REQUEST
    &&& request.template_version@ == credentials.template_version@
    &&& request.user@ == credentials.user@
    &&& request.password@ == credentials.password@
    &&& request.app_name@ == credentials.app_name@
    &&& request.app_version@ == credentials.app_version@
    &&& request.system_name@ == system_name
    &&& request.infra_type == plant.code()
    &&& request.aggregated_quotes == credentials.aggregated_quotes
}

/// The state that follows `state` on `event`. Every event that is not the
/// one the state waits for ends the handshake.
pub open spec fn next_state(state: HandshakeState, event: HandshakeEvent) -> HandshakeState {
    match (state, event) {
        (HandshakeState::ConnectingForSystemInfo, HandshakeEvent::Connected) => {
            HandshakeState::AwaitingSystemInfo
        },
        (HandshakeState::AwaitingSystemInfo, HandshakeEvent::SystemInfo(names)) => if names@.len()
            > 0 {
            HandshakeState::ClosingDiscovery
        } else {
            HandshakeState::Done
        },
        (HandshakeState::ClosingDiscovery, HandshakeEvent::Closed) => {
            HandshakeState::ConnectingForLogin
        },
        (HandshakeState::ConnectingForLogin, HandshakeEvent::Connected) => {
            HandshakeState::AwaitingLoginResponse
        },
        _ => HandshakeState::Done,
    }
}

/// `action` is what the handshake asks for when `event` reaches it in state
/// `state`, with `system_name` the name it holds after the step.
pub open spec fn is_action_for(
    state: HandshakeState,
    event: HandshakeEvent,
    credentials: RithmicCredentials,
    plant: SysInfraType,
    system_name: Seq<char>,
    action: HandshakeAction,
) -> bool {
    match (state, event) {
        (HandshakeState::Done, _) => action matches HandshakeAction::Fail(
            RithmicApiError::ClientErrorDebug(_),
        ),
        (_, HandshakeEvent::Failed(reason)) => action matches HandshakeAction::Fail(
            RithmicApiError::WebSocket(text),
        ) && text@ == reason@,
        (HandshakeState::ConnectingForSystemInfo, HandshakeEvent::Connected) => {
            action matches HandshakeAction::RequestSystemInfo(request) && request.template_id
                == SYSTEM_INFO_REQUEST && request.user_msg@ == signing_in(credentials.app_name@)
        },
        (HandshakeState::AwaitingSystemInfo, HandshakeEvent::SystemInfo(names)) => if names@.len()
            > 0 {
            action is Close && system_name == names@[0]@
        } else {
            action matches HandshakeAction::Fail(RithmicApiError::ServerErrorDebug(text)) && text@
                == "No system name found in response"@
        },
        (HandshakeState::ClosingDiscovery, HandshakeEvent::Closed) => action is Connect,
        (HandshakeState::ConnectingForLogin, HandshakeEvent::Connected) => {
            action matches HandshakeAction::Login(request) && is_login_request(
                request,
                credentials,
                system_name,
                plant,
            )
        },
        (HandshakeState::AwaitingLoginResponse, HandshakeEvent::LoginResponse(interval)) => {
            action matches HandshakeAction::Register(name, seconds) && name@ == system_name
                && seconds == interval
        },
        _ => action matches HandshakeAction::Fail(RithmicApiError::ClientErrorDebug(_)),
    }
}

impl Handshake {
    /// The plant that the handshake is with.
    pub closed spec fn plant(&self) -> SysInfraType {
        self.plant
    }

    /// How far the handshake has come.
    pub closed spec fn state(&self) -> HandshakeState {
        self.state
    }

    /// The system name taken from the server's response; empty until then.
    pub closed spec fn system_name(&self) -> Seq<char> {
        self.system_name@
    }

    /// Starts a handshake with the plant of the given code. A code that names
    /// no plant is an error of the caller, reported before anything is sent.
    /// The first thing to do for a new handshake is to open a connection.
    pub fn begin(infra_type: i32) -> (r: Result<Handshake, RithmicApiError>)
        ensures
            match r {
                Ok(handshake) => {
                    &&& 1 <= infra_type <= 5
                    &&& handshake.plant().code() == infra_type
                    &&& handshake.state() == HandshakeState::ConnectingForSystemInfo
                    &&& handshake.system_name() == Seq::<char>::empty()
                },
                Err(error) => !(1 <= infra_type <= 5) && error is ClientErrorDebug,
            },
    {
        match SysInfraType::from_i32(infra_type) {
            Some(plant) => Ok(
                Handshake {
                    plant,
                    state: HandshakeState::ConnectingForSystemInfo,
                    system_name: String::new(),
                },
            ),
            None => Err(
                RithmicApiError::ClientErrorDebug(
                    "Incorrect value for rithmic SysInfraType".to_owned(),
                ),
            ),
        }
    }

    /// Returns the plant that the handshake is with.
    pub fn target(&self) -> (plant: SysInfraType)
        ensures
            plant == self.plant(),
    {
        self.plant
    }

    /// Tells whether the handshake has ended.
    pub fn is_done(&self) -> (b: bool)
        ensures
            b == (self.state() == HandshakeState::Done),
    {
        match self.state {
            HandshakeState::Done => true,
            _ => false,
        }
    }

    /// Takes the transport's report on the last action and says what to do
    /// next. The handshake moves on only when the report is the one its state
    /// waits for; a transport failure or an unexpected report ends it.
    pub fn step(&mut self, credentials: &RithmicCredentials, event: HandshakeEvent) -> (action:
        HandshakeAction)
        ensures
            final(self).plant() == old(self).plant(),
            final(self).state() == next_state(old(self).state(), event),
            is_action_for(
                old(self).state(),
                event,
                *credentials,
                old(self).plant(),
                final(self).system_name(),
                action,
            ),
            !(old(self).state() == HandshakeState::AwaitingSystemInfo && event is SystemInfo)
                ==> final(self).system_name() == old(self).system_name(),
    {
        let state = self.state;
        match state {
            HandshakeState::Done => {
                return HandshakeAction::Fail(
                    RithmicApiError::ClientErrorDebug("The handshake has ended".to_owned()),
                );
            },
            _ => {},
        }
        match event {
            HandshakeEvent::Failed(reason) => {
                self.state = HandshakeState::Done;
                HandshakeAction::Fail(RithmicApiError::WebSocket(reason))
            },
            HandshakeEvent::Connected => match state {
                HandshakeState::ConnectingForSystemInfo => {
                    self.state = HandshakeState::AwaitingSystemInfo;
                    HandshakeAction::RequestSystemInfo(
                        SystemInfoRequest {
                            template_id: SYSTEM_INFO_REQUEST,
                            user_msg: credentials.app_name.clone().concat(" Signing In"),
                        },
                    )
                },
                HandshakeState::ConnectingForLogin => {
                    self.state = HandshakeState::AwaitingLoginResponse;
                    HandshakeAction::Login(
                        LoginRequest {
                            template_id: LOGIN_REQUEST,
                            template_version: credentials.template_version.clone(),
                            user: credentials.user.clone(),
                            password: credentials.password.clone(),
                            app_name: credentials.app_name.clone(),
                            app_version: credentials.app_version.clone(),
                            system_name: self.system_name.clone(),
                            infra_type: self.plant.as_i32(),
                            aggregated_quotes: credentials.aggregated_quotes,
                        },
                    )
                },
                _ => self.unexpected(),
            },
            HandshakeEvent::SystemInfo(names) => match state {
                HandshakeState::AwaitingSystemInfo => {
                    if names.len() > 0 {
                        self.system_name = names[0].clone();
                        self.state = HandshakeState::ClosingDiscovery;
                        HandshakeAction::Close
                    } else {
                        self.state = HandshakeState::Done;
                        HandshakeAction::Fail(
                            RithmicApiError::ServerErrorDebug(
                                "No system name found in response".to_owned(),
                            ),
                        )
                    }
                },
                _ => self.unexpected(),
            },
            HandshakeEvent::Closed => match state {
                HandshakeState::ClosingDiscovery => {
                    self.state = HandshakeState::ConnectingForLogin;
                    HandshakeAction::Connect
                },
                _ => self.unexpected(),
            },
            HandshakeEvent::LoginResponse(interval) => match state {
                HandshakeState::AwaitingLoginResponse => {
                    self.state = HandshakeState::Done;
                    HandshakeAction::Register(self.system_name.clone(), interval)
                },
                _ => self.unexpected(),
            },
        }
    }

    fn unexpected(&mut self) -> (action: HandshakeAction)
        ensures
            final(self).plant == old(self).plant,
            final(self).system_name == old(self).system_name,
            final(self).state == HandshakeState::Done,
            action matches HandshakeAction::Fail(RithmicApiError::ClientErrorDebug(_)),
    {
        self.state = HandshakeState::Done;
        HandshakeAction::Fail(
            RithmicApiError::ClientErrorDebug(
                "The transport reported a step that the handshake did not ask for".to_owned(),
            ),
        )
    }
}

/// The two exchanges of a handshake run on two connections: a connection for
/// the login is asked for only in answer to the report that the first one
/// was closed.
pub proof fn lemma_login_connection_follows_close(
    state: HandshakeState,
    event: HandshakeEvent,
    credentials: RithmicCredentials,
    plant: SysInfraType,
    system_name: Seq<char>,
    action: HandshakeAction,
)
    requires
        is_action_for(state, event, credentials, plant, system_name, action),
        action is Connect,
    ensures
        state == HandshakeState::ClosingDiscovery,
        event is Closed,
        next_state(state, event) == HandshakeState::ConnectingForLogin,
{
}

/// A plant is registered only in answer to a login response, and a failed
/// step always ends the handshake.
pub proof fn lemma_register_follows_login_response(
    state: HandshakeState,
    event: HandshakeEvent,
    credentials: RithmicCredentials,
    plant: SysInfraType,
    system_name: Seq<char>,
    action: HandshakeAction,
)
    requires
        is_action_for(state, event, credentials, plant, system_name, action),
    ensures
        action is Register ==> state == HandshakeState::AwaitingLoginResponse && event
            is LoginResponse,
        action is Fail ==> next_state(state, event) == HandshakeState::Done,
        action is Register ==> next_state(state, event) == HandshakeState::Done,
{
}

/// The state of a handshake that has taken the given reports, in their order,
/// since it began.
pub open spec fn state_after(events: Seq<HandshakeEvent>) -> HandshakeState
    decreases events.len(),
{
    if events.len() == 0 {
        HandshakeState::ConnectingForSystemInfo
    } else {
        next_state(state_after(events.drop_last()), events.last())
    }
}

/// No report leads back to the beginning of a handshake.
pub proof fn lemma_no_way_back_to_start(events: Seq<HandshakeEvent>)
    requires
        state_after(events) == HandshakeState::ConnectingForSystemInfo,
    ensures
        events.len() == 0,
{
}

/// The order of a handshake: a handshake waits for the login response only
/// after a connection was opened, the server named a system, that connection
/// was closed and a second one opened, in this order and with nothing in
/// between. Since a plant is registered only in answer to a login response,
/// no plant is registered on any other path.
pub proof fn lemma_handshake_order(events: Seq<HandshakeEvent>)
    requires
        state_after(events) == HandshakeState::AwaitingLoginResponse,
    ensures
        events.len() == 4,
        events[0] is Connected,
        events[1] matches HandshakeEvent::SystemInfo(names) && names@.len() > 0,
        events[2] is Closed,
        events[3] is Connected,
{
    let e3 = events.drop_last();
    assert(state_after(e3) == HandshakeState::ConnectingForLogin);
    let e2 = e3.drop_last();
    assert(state_after(e2) == HandshakeState::ClosingDiscovery);
    let e1 = e2.drop_last();
    assert(state_after(e1) == HandshakeState::AwaitingSystemInfo);
    let e0 = e1.drop_last();
    assert(state_after(e0) == HandshakeState::ConnectingForSystemInfo);
    lemma_no_way_back_to_start(e0);
    assert(events[3] == events.last());
    assert(events[2] == e3.last());
    assert(events[1] == e2.last());
    assert(events[0] == e1.last());
}

} // verus!
