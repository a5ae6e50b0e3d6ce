//! Sessions of logind.
//!
//! Logind is asked over the message bus. It hands out devices, and tells when they are paused
//! and when they may be used again.

use vstd::prelude::*;
use vstd::string::StringExecFns;

use crate::backend::session::AsErrno;

verus! {

/// An argument of a call.
#[derive(Debug)]
pub enum Arg {
    Text(String),
    Number(u32),
    Flag(bool),
}

/// The value of an argument.
pub enum ArgModel {
    Text(Seq<char>),
    Number(u32),
    Flag(bool),
}

impl View for Arg {
    type V = ArgModel;

    open spec fn view(&self) -> ArgModel {
        match self {
            Arg::Text(text) => ArgModel::Text(text@),
            Arg::Number(n) => ArgModel::Number(*n),
            Arg::Flag(flag) => ArgModel::Flag(*flag),
        }
    }
}

/// A call of a method of logind.
#[derive(Debug)]
pub struct MethodCall {
    /// The path of the object.
    pub path: String,
    pub interface: String,
    pub member: String,
    pub args: Vec<Arg>,
}

/// The contents of a call.
pub struct CallModel {
    pub path: Seq<char>,
    pub interface: Seq<char>,
    pub member: Seq<char>,
    pub args: Seq<ArgModel>,
}

/// The values of some arguments.
pub open spec fn arg_models(args: Seq<Arg>) -> Seq<ArgModel> {
    Seq::new(args.len(), |i: int| args[i]@)
}

impl View for MethodCall {
    type V = CallModel;

    open spec fn view(&self) -> CallModel {
        CallModel {
            path: self.path@,
            interface: self.interface@,
            member: self.member@,
            args: arg_models(self.args@),
        }
    }
}

/// A call of a method of a session.
pub open spec fn session_call(
    path: Seq<char>,
    member: Seq<char>,
    args: Seq<ArgModel>,
) -> CallModel {
    CallModel { path, interface: "org.freedesktop.login1.Session"@, member, args }
}

/// A call of a method of a session.
pub(crate) fn call_session(path: &String, member: &str, args: Vec<Arg>) -> (call: MethodCall)
    ensures
        call@ == session_call(path@, member@, arg_models(args@)),
{
    MethodCall {
        path: path.clone(),
        interface: "org.freedesktop.login1.Session".to_owned(),
        member: member.to_owned(),
        args,
    }
}

/// What came of a call.
#[derive(Clone, Copy, Debug, PartialEq, Eq, Structural)]
pub enum CallOutcome {
    /// There is a reply.
    Replied,
    /// The call could not be sent, or there was no reply in time.
    NotSent,
    /// The reply is an error.
    Refused,
}

/// How long the reply to a call is waited for, in milliseconds.
pub const CALL_TIMEOUT: u32 = 1000;

/// What came of a call that was waited for; an error names the call.
pub fn blocking_call(call: MethodCall, outcome: CallOutcome) -> (r: Result<(), Error>)
    ensures
        r == (match outcome {
            CallOutcome::Replied => Ok::<(), Error>(()),
            CallOutcome::NotSent => Err(Error::FailedToSendDbusCall(call)),
            CallOutcome::Refused => Err(Error::DbusCallFailed(call)),
        }),
{
    match outcome {
        CallOutcome::Replied => Ok(()),
        CallOutcome::NotSent => Err(Error::FailedToSendDbusCall(call)),
        CallOutcome::Refused => Err(Error::DbusCallFailed(call)),
    }
}

/// Why logind could not be used.
#[derive(Debug)]
pub enum Error {
    FailedDbusConnection(i32),
    FailedToGetSession(i32),
    FailedToGetSeat(i32),
    FailedToGetVT,
    /// The call could not be sent.
    FailedToSendDbusCall(MethodCall),
    /// Logind refused the call.
    DbusCallFailed(MethodCall),
    /// A reply or a signal did not hold what it has to.
    UnexpectedMethodReturn,
    /// The rule for signals was refused.
    DbusMatchFailed(String),
    FailedToStatDevice(i32),
    /// The session is closed already.
    SessionLost,
}

/// The contents of an error.
pub enum ErrorModel {
    FailedDbusConnection(i32),
    FailedToGetSession(i32),
    FailedToGetSeat(i32),
    FailedToGetVT,
    FailedToSendDbusCall(CallModel),
    DbusCallFailed(CallModel),
    UnexpectedMethodReturn,
    DbusMatchFailed(Seq<char>),
    FailedToStatDevice(i32),
    SessionLost,
}

impl View for Error {
    type V = ErrorModel;

    open spec fn view(&self) -> ErrorModel {
        match self {
            Error::FailedDbusConnection(e) => ErrorModel::FailedDbusConnection(*e),
            Error::FailedToGetSession(e) => ErrorModel::FailedToGetSession(*e),
            Error::FailedToGetSeat(e) => ErrorModel::FailedToGetSeat(*e),
            Error::FailedToGetVT => ErrorModel::FailedToGetVT,
            Error::FailedToSendDbusCall(call) => ErrorModel::FailedToSendDbusCall(call@),
            Error::DbusCallFailed(call) => ErrorModel::DbusCallFailed(call@),
            Error::UnexpectedMethodReturn => ErrorModel::UnexpectedMethodReturn,
            Error::DbusMatchFailed(rule) => ErrorModel::DbusMatchFailed(rule@),
            Error::FailedToStatDevice(e) => ErrorModel::FailedToStatDevice(*e),
            Error::SessionLost => ErrorModel::SessionLost,
        }
    }
}

impl AsErrno for Error {
    open spec fn spec_as_errno(&self) -> Option<i32> {
        None
    }

    fn as_errno(&self) -> (errno: Option<i32>) {
        None
    }
}

/// The next thing to be asked for when a session is started.
#[derive(Clone, Copy, Debug, PartialEq, Eq, Structural)]
pub enum SetupStep {
    GetSession,
    GetSeat,
    GetVt,
    Connect,
    GetPath,
    MatchRemoved,
    MatchPause,
    MatchResume,
    MatchProperties,
    Activate,
    TakeControl,
    Done,
}

/// What is to be done when a session is started.
#[derive(Debug)]
pub enum SetupAction {
    GetSession,
    /// The seat of a session is asked for.
    GetSeat(String),
    /// The virtual terminal of a session is asked for.
    GetVt(String),
    Connect,
    Call(MethodCall),
    /// Signals that match the rule are asked for.
    AddMatch(String),
}

/// The contents of an action.
pub enum ActionModel {
    GetSession,
    GetSeat(Seq<char>),
    GetVt(Seq<char>),
    Connect,
    Call(CallModel),
    AddMatch(Seq<char>),
}

impl View for SetupAction {
    type V = ActionModel;

    open spec fn view(&self) -> ActionModel {
        match self {
            SetupAction::GetSession => ActionModel::GetSession,
            SetupAction::GetSeat(id) => ActionModel::GetSeat(id@),
            SetupAction::GetVt(id) => ActionModel::GetVt(id@),
            SetupAction::Connect => ActionModel::Connect,
            SetupAction::Call(call) => ActionModel::Call(call@),
            SetupAction::AddMatch(rule) => ActionModel::AddMatch(rule@),
        }
    }
}

/// What came of an action.
#[derive(Debug)]
pub enum SetupEvent {
    /// A text was given.
    Text(String),
    /// A number was given.
    Number(u32),
    /// It was done.
    Done,
    /// The reply did not hold what was asked for.
    Unexpected,
    /// It failed; a call could not be sent.
    Failed(i32),
    /// The call was refused.
    Refused,
}

/// The contents of an event.
pub enum EventModel {
    Text(Seq<char>),
    Number(u32),
    Done,
    Unexpected,
    Failed(i32),
    Refused,
}

impl View for SetupEvent {
    type V = EventModel;

    open spec fn view(&self) -> EventModel {
        match self {
            SetupEvent::Text(text) => EventModel::Text(text@),
            SetupEvent::Number(n) => EventModel::Number(*n),
            SetupEvent::Done => EventModel::Done,
            SetupEvent::Unexpected => EventModel::Unexpected,
            SetupEvent::Failed(e) => EventModel::Failed(*e),
            SetupEvent::Refused => EventModel::Refused,
        }
    }
}

/// A session that is being started.
#[derive(Debug)]
pub struct LogindSetup {
    pub step: SetupStep,
    pub session_id: String,
    pub seat: String,
    pub vt: Option<u32>,
    pub session_path: String,
}

/// What is known of a session that is being started.
pub struct SetupModel {
    pub step: SetupStep,
    pub session_id: Seq<char>,
    pub seat: Seq<char>,
    pub vt: Option<u32>,
    pub session_path: Seq<char>,
}

impl View for LogindSetup {
    type V = SetupModel;

    open spec fn view(&self) -> SetupModel {
        SetupModel {
            step: self.step,
            session_id: self.session_id@,
            seat: self.seat@,
            vt: self.vt,
            session_path: self.session_path@,
        }
    }
}

/// The rule for the signals of a session.
pub open spec fn session_rule(
    interface: Seq<char>,
    member: Seq<char>,
    path: Seq<char>,
) -> Seq<char> {
    "type='signal',sender='org.freedesktop.login1',interface='"@ + interface + "',member='"@
        + member + "',path='"@ + path + "'"@
}

/// The rule for the signals of a session.
fn rule_for(interface: &str, member: &str, path: &str) -> (rule: String)
    ensures
        rule@ == session_rule(interface@, member@, path@),
{
    let mut rule: String = "type='signal',sender='org.freedesktop.login1',interface='".to_owned();
    rule.append(interface);
    rule.append("',member='");
    rule.append(member);
    rule.append("',path='");
    rule.append(path);
    rule.append("'");
    rule
}

impl SetupModel {
    pub open spec fn spec_action(self) -> Option<ActionModel> {
        match self.step {
            SetupStep::GetSession => Some(ActionModel::GetSession),
            SetupStep::GetSeat => Some(ActionModel::GetSeat(self.session_id)),
            SetupStep::GetVt => Some(ActionModel::GetVt(self.session_id)),
            SetupStep::Connect => Some(ActionModel::Connect),
            SetupStep::GetPath => Some(ActionModel::Call(self.spec_call())),
            SetupStep::MatchRemoved | SetupStep::MatchPause | SetupStep::MatchResume
            | SetupStep::MatchProperties => Some(ActionModel::AddMatch(self.spec_rule())),
            SetupStep::Activate | SetupStep::TakeControl => Some(
                ActionModel::Call(self.spec_call()),
            ),
            SetupStep::Done => None,
        }
    }

    /// The call of a step that makes one.
    pub open spec fn spec_call(self) -> CallModel {
        match self.step {
            SetupStep::GetPath => CallModel {
                path: "/org/freedesktop/login1"@,
                interface: "org.freedesktop.login1.Manager"@,
                member: "GetSession"@,
                args: seq![ArgModel::Text(self.session_id)],
            },
            SetupStep::Activate => session_call(self.session_path, "Activate"@, seq![]),
            _ => session_call(self.session_path, "TakeControl"@, seq![ArgModel::Flag(false)]),
        }
    }

    /// The rule of a step that adds one.
    pub open spec fn spec_rule(self) -> Seq<char> {
        match self.step {
            SetupStep::MatchRemoved => session_rule(
                "org.freedesktop.login1.Manager"@,
                "SessionRemoved"@,
                "/org/freedesktop/login1"@,
            ),
            SetupStep::MatchPause => session_rule(
                "org.freedesktop.login1.Session"@,
                "PauseDevice"@,
                self.session_path,
            ),
            SetupStep::MatchResume => session_rule(
                "org.freedesktop.login1.Session"@,
                "ResumeDevice"@,
                self.session_path,
            ),
            _ => session_rule(
                "org.freedesktop.DBus.Properties"@,
                "PropertiesChanged"@,
                self.session_path,
            ),
        }
    }

    /// The same at another step.
    pub open spec fn at(self, step: SetupStep) -> SetupModel {
        SetupModel { step, ..self }
    }

    /// Whether the event answers what is done at the step.
    pub open spec fn expects(self, event: EventModel) -> bool {
        match self.step {
            SetupStep::GetSession | SetupStep::GetSeat => event is Text || event is Failed,
            SetupStep::GetVt => event is Number || event is Failed,
            SetupStep::Connect | SetupStep::MatchRemoved | SetupStep::MatchPause
            | SetupStep::MatchResume | SetupStep::MatchProperties => event is Done
                || event is Failed,
            SetupStep::GetPath => event is Text || event is Unexpected || event is Failed
                || event is Refused,
            SetupStep::Activate | SetupStep::TakeControl => event is Done || event is Failed
                || event is Refused,
            SetupStep::Done => false,
        }
    }

    pub open spec fn advanced(self, event: EventModel) -> Result<SetupModel, ErrorModel> {
        match (self.step, event) {
            (SetupStep::GetSession, EventModel::Text(session_id)) => Ok(
                SetupModel { step: SetupStep::GetSeat, session_id, ..self },
            ),
            (SetupStep::GetSession, EventModel::Failed(e)) => Err(
                ErrorModel::FailedToGetSession(e),
            ),
            (SetupStep::GetSeat, EventModel::Text(seat)) => Ok(
                SetupModel { step: SetupStep::GetVt, seat, ..self },
            ),
            (SetupStep::GetSeat, EventModel::Failed(e)) => Err(ErrorModel::FailedToGetSeat(e)),
            (SetupStep::GetVt, EventModel::Number(vt)) => Ok(
                SetupModel { step: SetupStep::Connect, vt: Some(vt), ..self },
            ),
            (SetupStep::GetVt, _) => Ok(SetupModel { step: SetupStep::Connect, vt: None, ..self }),
            (SetupStep::Connect, EventModel::Failed(e)) => Err(
                ErrorModel::FailedDbusConnection(e),
            ),
            (SetupStep::Connect, _) => Ok(self.at(SetupStep::GetPath)),
            (SetupStep::GetPath, EventModel::Text(session_path)) => Ok(
                SetupModel { step: SetupStep::MatchRemoved, session_path, ..self },
            ),
            (SetupStep::GetPath, EventModel::Unexpected) => Err(
                ErrorModel::UnexpectedMethodReturn,
            ),
            (SetupStep::MatchRemoved, EventModel::Failed(_))
            | (SetupStep::MatchPause, EventModel::Failed(_))
            | (SetupStep::MatchResume, EventModel::Failed(_))
            | (SetupStep::MatchProperties, EventModel::Failed(_)) => Err(
                ErrorModel::DbusMatchFailed(self.spec_rule()),
            ),
            (SetupStep::MatchRemoved, _) => Ok(self.at(SetupStep::MatchPause)),
            (SetupStep::MatchPause, _) => Ok(self.at(SetupStep::MatchResume)),
            (SetupStep::MatchResume, _) => Ok(self.at(SetupStep::MatchProperties)),
            (SetupStep::MatchProperties, _) => Ok(self.at(SetupStep::Activate)),
            (_, EventModel::Failed(_)) => Err(ErrorModel::FailedToSendDbusCall(self.spec_call())),
            (_, EventModel::Refused) => Err(ErrorModel::DbusCallFailed(self.spec_call())),
            (SetupStep::Activate, _) => Ok(self.at(SetupStep::TakeControl)),
            (_, _) => Ok(self.at(SetupStep::Done)),
        }
    }
}

impl LogindSetup {
    /// Nothing is known yet.
    pub fn new() -> (setup: LogindSetup)
        ensures
            setup@.step == SetupStep::GetSession,
            setup@.vt is None,
    {
        LogindSetup {
            step: SetupStep::GetSession,
            session_id: String::new(),
            seat: String::new(),
            vt: None,
            session_path: String::new(),
        }
    }

    /// The call of this step.
    fn call(&self) -> (call: MethodCall)
        ensures
            call@ == self@.spec_call(),
    {
        match self.step {
            SetupStep::GetPath => {
                let mut args: Vec<Arg> = Vec::new();
                args.push(Arg::Text(self.session_id.clone()));
                let call = MethodCall {
                    path: "/org/freedesktop/login1".to_owned(),
                    interface: "org.freedesktop.login1.Manager".to_owned(),
                    member: "GetSession".to_owned(),
                    args,
                };
                assert(call@.args =~= self@.spec_call().args);
                call
            },
            SetupStep::Activate => {
                let call = call_session(&self.session_path, "Activate", Vec::new());
                assert(call@.args =~= self@.spec_call().args);
                call
            },
            _ => {
                let mut args: Vec<Arg> = Vec::new();
                args.push(Arg::Flag(false));
                let call = call_session(&self.session_path, "TakeControl", args);
                assert(call@.args =~= self@.spec_call().args);
                call
            },
        }
    }

    /// The rule of this step.
    fn rule(&self) -> (rule: String)
        ensures
            rule@ == self@.spec_rule(),
    {
        match self.step {
            SetupStep::MatchRemoved => rule_for(
                "org.freedesktop.login1.Manager",
                "SessionRemoved",
                "/org/freedesktop/login1",
            ),
            SetupStep::MatchPause => rule_for(
                "org.freedesktop.login1.Session",
                "PauseDevice",
                self.session_path.as_str(),
            ),
            SetupStep::MatchResume => rule_for(
                "org.freedesktop.login1.Session",
                "ResumeDevice",
                self.session_path.as_str(),
            ),
            _ => rule_for(
                "org.freedesktop.DBus.Properties",
                "PropertiesChanged",
                self.session_path.as_str(),
            ),
        }
    }

    /// What is to be done next; nothing once the session is started.
    pub fn next_action(&self) -> (action: Option<SetupAction>)
        ensures
            match action {
                Some(action) => self@.spec_action() == Some(action@),
                None => self@.spec_action() is None,
            },
    {
        match self.step {
            SetupStep::GetSession => Some(SetupAction::GetSession),
            SetupStep::GetSeat => Some(SetupAction::GetSeat(self.session_id.clone())),
            SetupStep::GetVt => Some(SetupAction::GetVt(self.session_id.clone())),
            SetupStep::Connect => Some(SetupAction::Connect),
            SetupStep::MatchRemoved | SetupStep::MatchPause | SetupStep::MatchResume
            | SetupStep::MatchProperties => Some(SetupAction::AddMatch(self.rule())),
            SetupStep::GetPath | SetupStep::Activate | SetupStep::TakeControl => Some(
                SetupAction::Call(self.call()),
            ),
            SetupStep::Done => None,
        }
    }

    /// Takes what came of the action.
    pub fn advance(&mut self, event: SetupEvent) -> (r: Result<(), Error>)
        requires
            old(self)@.expects(event@),
        ensures
            match (r, old(self)@.advanced(event@)) {
                (Ok(_), Ok(next)) => final(self)@ == next,
                (Err(error), Err(model)) => error@ == model && final(self)@ == old(self)@,
                _ => false,
            },
    {
        match (self.step, event) {
            (SetupStep::GetSession, SetupEvent::Text(session_id)) => {
                self.session_id = session_id;
                self.step = SetupStep::GetSeat;
            },
            (SetupStep::GetSession, SetupEvent::Failed(e)) => {
                return Err(Error::FailedToGetSession(e));
            },
            (SetupStep::GetSeat, SetupEvent::Text(seat)) => {
                self.seat = seat;
                self.step = SetupStep::GetVt;
            },
            (SetupStep::GetSeat, SetupEvent::Failed(e)) => {
                return Err(Error::FailedToGetSeat(e));
            },
            (SetupStep::GetVt, SetupEvent::Number(vt)) => {
                self.vt = Some(vt);
                self.step = SetupStep::Connect;
            },
            (SetupStep::GetVt, _) => {
                self.vt = None;
                self.step = SetupStep::Connect;
            },
            (SetupStep::Connect, SetupEvent::Failed(e)) => {
                return Err(Error::FailedDbusConnection(e));
            },
            (SetupStep::Connect, _) => {
                self.step = SetupStep::GetPath;
            },
            (SetupStep::GetPath, SetupEvent::Text(session_path)) => {
                self.session_path = session_path;
                self.step = SetupStep::MatchRemoved;
            },
            (SetupStep::GetPath, SetupEvent::Unexpected) => {
                return Err(Error::UnexpectedMethodReturn);
            },
            (SetupStep::MatchRemoved, SetupEvent::Failed(_))
            | (SetupStep::MatchPause, SetupEvent::Failed(_))
            | (SetupStep::MatchResume, SetupEvent::Failed(_))
            | (SetupStep::MatchProperties, SetupEvent::Failed(_)) => {
                return Err(Error::DbusMatchFailed(self.rule()));
            },
            (SetupStep::MatchRemoved, _) => {
                self.step = SetupStep::MatchPause;
            },
            (SetupStep::MatchPause, _) => {
                self.step = SetupStep::MatchResume;
            },
            (SetupStep::MatchResume, _) => {
                self.step = SetupStep::MatchProperties;
            },
            (SetupStep::MatchProperties, _) => {
                self.step = SetupStep::Activate;
            },
            (_, SetupEvent::Failed(_)) => {
                return Err(Error::FailedToSendDbusCall(self.call()));
            },
            (_, SetupEvent::Refused) => {
                return Err(Error::DbusCallFailed(self.call()));
            },
            (SetupStep::Activate, _) => {
                self.step = SetupStep::TakeControl;
            },
            (_, _) => {
                self.step = SetupStep::Done;
            },
        }
        Ok(())
    }
}

/// A start of a session that succeeded: what was known before each action and at the end, and what
/// came of each action.
pub open spec fn started(states: Seq<SetupModel>, events: Seq<EventModel>) -> bool {
    &&& states.len() == events.len() + 1
    &&& states[0].step == SetupStep::GetSession
    &&& states.last().step == SetupStep::Done
    &&& forall|i: int|
        0 <= i < events.len() ==> {
            &&& (#[trigger] states[i]).expects(events[i])
            &&& states[i].advanced(events[i]) == Ok::<SetupModel, ErrorModel>(states[i + 1])
        }
}

proof fn lemma_started(states: Seq<SetupModel>, events: Seq<EventModel>)
    requires
        started(states, events),
    ensures
        events.len() == 11,
        states[1].step == SetupStep::GetSeat,
        states[2].step == SetupStep::GetVt,
        states[3].step == SetupStep::Connect,
        states[4].step == SetupStep::GetPath,
        states[5].step == SetupStep::MatchRemoved,
        states[6].step == SetupStep::MatchPause,
        states[7].step == SetupStep::MatchResume,
        states[8].step == SetupStep::MatchProperties,
        states[9].step == SetupStep::Activate,
        states[10].step == SetupStep::TakeControl,
        states[11].step == SetupStep::Done,
{
    assert(states[0].expects(events[0]));
    assert(states[1].step == SetupStep::GetSeat);
    assert(states[1].expects(events[1]));
    assert(states[2].step == SetupStep::GetVt);
    assert(states[2].expects(events[2]));
    assert(states[3].step == SetupStep::Connect);
    assert(states[3].expects(events[3]));
    assert(states[4].step == SetupStep::GetPath);
    assert(states[4].expects(events[4]));
    assert(states[5].step == SetupStep::MatchRemoved);
    assert(states[5].expects(events[5]));
    assert(states[6].step == SetupStep::MatchPause);
    assert(states[6].expects(events[6]));
    assert(states[7].step == SetupStep::MatchResume);
    assert(states[7].expects(events[7]));
    assert(states[8].step == SetupStep::MatchProperties);
    assert(states[8].expects(events[8]));
    assert(states[9].step == SetupStep::Activate);
    assert(states[9].expects(events[9]));
    assert(states[10].step == SetupStep::TakeControl);
    assert(states[10].expects(events[10]));
    assert(states[11].step == SetupStep::Done);
    if events.len() > 11 {
        assert(states[11].expects(events[11]));
    }
}

/// A session is started by asking, in this order and each once: for the session, for its seat and
/// its terminal, for the bus, for the path of the session under its id, for the four signals, and
/// for the session to be activated and controlled without force. What was answered is what is known
/// in the end.
pub proof fn session_is_started_in_order(states: Seq<SetupModel>, events: Seq<EventModel>)
    requires
        started(states, events),
    ensures
        events.len() == 11,
        events[0] is Text && events[1] is Text && events[4] is Text,
        ({
            let id = events[0]->Text_0;
            let path = events[4]->Text_0;
            &&& states[0].spec_action() == Some(ActionModel::GetSession)
            &&& states[1].spec_action() == Some(ActionModel::GetSeat(id))
            &&& states[2].spec_action() == Some(ActionModel::GetVt(id))
            &&& states[3].spec_action() == Some(ActionModel::Connect)
            &&& states[4].spec_action() == Some(
                ActionModel::Call(
                    (CallModel {
                        path: "/org/freedesktop/login1"@,
                        interface: "org.freedesktop.login1.Manager"@,
                        member: "GetSession"@,
                        args: seq![ArgModel::Text(id)],
                    }),
                ),
            )
            &&& forall|i: int|
                5 <= i <= 8 ==> (#[trigger] states[i]).spec_action() is Some
                    && states[i].spec_action()->0 is AddMatch
            &&& states[9].spec_action() == Some(
                ActionModel::Call(
                    (CallModel {
                        path,
                        interface: "org.freedesktop.login1.Session"@,
                        member: "Activate"@,
                        args: Seq::empty(),
                    }),
                ),
            )
            &&& states[10].spec_action() == Some(
                ActionModel::Call(
                    (CallModel {
                        path,
                        interface: "org.freedesktop.login1.Session"@,
                        member: "TakeControl"@,
                        args: seq![ArgModel::Flag(false)],
                    }),
                ),
            )
            &&& states[11].spec_action() is None
            &&& states[11].session_id == id
            &&& states[11].session_path == path
            &&& states[11].seat == events[1]->Text_0
            &&& states[11].vt == (match events[2] {
                EventModel::Number(vt) => Some(vt),
                _ => None,
            })
        }),
{
    lemma_started(states, events);
    assert(states[0].expects(events[0]));
    assert(states[1].expects(events[1]));
    assert(states[2].expects(events[2]));
    assert(states[3].expects(events[3]));
    assert(states[4].expects(events[4]));
    assert(states[5].expects(events[5]));
    assert(states[6].expects(events[6]));
    assert(states[7].expects(events[7]));
    assert(states[8].expects(events[8]));
    assert(states[9].expects(events[9]));
    assert(states[10].expects(events[10]));
    assert(states[9].session_path == events[4]->Text_0);
    assert(states[10].session_path == events[4]->Text_0);
    assert(states[4].session_id == events[0]->Text_0);
}

proof fn lemma_joined_text(
    full: Seq<char>,
    a: Seq<char>,
    b: Seq<char>,
    c: Seq<char>,
    d: Seq<char>,
    e: Seq<char>,
)
    requires
        full.len() == a.len() + b.len() + c.len() + d.len() + e.len(),
        full.subrange(0, a.len() as int) == a,
        full.subrange(a.len() as int, (a.len() + b.len()) as int) == b,
        full.subrange((a.len() + b.len()) as int, (a.len() + b.len() + c.len()) as int) == c,
        full.subrange(
            (a.len() + b.len() + c.len()) as int,
            (a.len() + b.len() + c.len() + d.len()) as int,
        ) == d,
        full.subrange((a.len() + b.len() + c.len() + d.len()) as int, full.len() as int) == e,
    ensures
        full == a + b + c + d + e,
{
    let joined = a + b + c + d + e;
    assert forall|i: int| 0 <= i < full.len() implies full[i] == joined[i] by {
        let u = a.len() as int;
        let v = u + b.len();
        let w = v + c.len();
        let z = w + d.len();
        if i < u {
            assert(full[i] == full.subrange(0, u)[i]);
        } else if i < v {
            assert(full[i] == full.subrange(u, v)[i - u]);
        } else if i < w {
            assert(full[i] == full.subrange(v, w)[i - v]);
        } else if i < z {
            assert(full[i] == full.subrange(w, z)[i - w]);
        } else {
            assert(full[i] == full.subrange(z, full.len() as int)[i - z]);
        }
    }
    assert(full =~= joined);
}

proof fn lemma_removed_text()
    ensures
        "type='signal',sender='org.freedesktop.login1',interface='org.freedesktop.login1.Manager',member='SessionRemoved',path='"@
            == "type='signal',sender='org.freedesktop.login1',interface='"@
            + "org.freedesktop.login1.Manager"@ + "',member='"@ + "SessionRemoved"@
            + "',path='"@,
{
    let full = "type='signal',sender='org.freedesktop.login1',interface='org.freedesktop.login1.Manager',member='SessionRemoved',path='"@;
    reveal_strlit("type='signal',sender='org.freedesktop.login1',interface='org.freedesktop.login1.Manager',member='SessionRemoved',path='");
    reveal_strlit("type='signal',sender='org.freedesktop.login1',interface='");
    reveal_strlit("org.freedesktop.login1.Manager");
    reveal_strlit("',member='");
    reveal_strlit("SessionRemoved");
    reveal_strlit("',path='");
    assert(full.subrange(0, 57) =~= "type='signal',sender='org.freedesktop.login1',interface='"@);
    assert(full.subrange(57, 87) =~= "org.freedesktop.login1.Manager"@);
    assert(full.subrange(87, 97) =~= "',member='"@);
    assert(full.subrange(97, 111) =~= "SessionRemoved"@);
    assert(full.subrange(111, 119) =~= "',path='"@);
    lemma_joined_text(full, "type='signal',sender='org.freedesktop.login1',interface='"@, "org.freedesktop.login1.Manager"@, "',member='"@, "SessionRemoved"@, "',path='"@);
}

proof fn lemma_pause_text()
    ensures
        "type='signal',sender='org.freedesktop.login1',interface='org.freedesktop.login1.Session',member='PauseDevice',path='"@
            == "type='signal',sender='org.freedesktop.login1',interface='"@
            + "org.freedesktop.login1.Session"@ + "',member='"@ + "PauseDevice"@
            + "',path='"@,
{
    let full = "type='signal',sender='org.freedesktop.login1',interface='org.freedesktop.login1.Session',member='PauseDevice',path='"@;
    reveal_strlit("type='signal',sender='org.freedesktop.login1',interface='org.freedesktop.login1.Session',member='PauseDevice',path='");
    reveal_strlit("type='signal',sender='org.freedesktop.login1',interface='");
    reveal_strlit("org.freedesktop.login1.Session");
    reveal_strlit("',member='");
    reveal_strlit("PauseDevice");
    reveal_strlit("',path='");
    assert(full.subrange(0, 57) =~= "type='signal',sender='org.freedesktop.login1',interface='"@);
    assert(full.subrange(57, 87) =~= "org.freedesktop.login1.Session"@);
    assert(full.subrange(87, 97) =~= "',member='"@);
    assert(full.subrange(97, 108) =~= "PauseDevice"@);
    assert(full.subrange(108, 116) =~= "',path='"@);
    lemma_joined_text(full, "type='signal',sender='org.freedesktop.login1',interface='"@, "org.freedesktop.login1.Session"@, "',member='"@, "PauseDevice"@, "',path='"@);
}

proof fn lemma_resume_text()
    ensures
        "type='signal',sender='org.freedesktop.login1',interface='org.freedesktop.login1.Session',member='ResumeDevice',path='"@
            == "type='signal',sender='org.freedesktop.login1',interface='"@
            + "org.freedesktop.login1.Session"@ + "',member='"@ + "ResumeDevice"@
            + "',path='"@,
{
    let full = "type='signal',sender='org.freedesktop.login1',interface='org.freedesktop.login1.Session',member='ResumeDevice',path='"@;
    reveal_strlit("type='signal',sender='org.freedesktop.login1',interface='org.freedesktop.login1.Session',member='ResumeDevice',path='");
    reveal_strlit("type='signal',sender='org.freedesktop.login1',interface='");
    reveal_strlit("org.freedesktop.login1.Session");
    reveal_strlit("',member='");
    reveal_strlit("ResumeDevice");
    reveal_strlit("',path='");
    assert(full.subrange(0, 57) =~= "type='signal',sender='org.freedesktop.login1',interface='"@);
    assert(full.subrange(57, 87) =~= "org.freedesktop.login1.Session"@);
    assert(full.subrange(87, 97) =~= "',member='"@);
    assert(full.subrange(97, 109) =~= "ResumeDevice"@);
    assert(full.subrange(109, 117) =~= "',path='"@);
    lemma_joined_text(full, "type='signal',sender='org.freedesktop.login1',interface='"@, "org.freedesktop.login1.Session"@, "',member='"@, "ResumeDevice"@, "',path='"@);
}

proof fn lemma_properties_text()
    ensures
        "type='signal',sender='org.freedesktop.login1',interface='org.freedesktop.DBus.Properties',member='PropertiesChanged',path='"@
            == "type='signal',sender='org.freedesktop.login1',interface='"@
            + "org.freedesktop.DBus.Properties"@ + "',member='"@ + "PropertiesChanged"@
            + "',path='"@,
{
    let full = "type='signal',sender='org.freedesktop.login1',interface='org.freedesktop.DBus.Properties',member='PropertiesChanged',path='"@;
    reveal_strlit("type='signal',sender='org.freedesktop.login1',interface='org.freedesktop.DBus.Properties',member='PropertiesChanged',path='");
    reveal_strlit("type='signal',sender='org.freedesktop.login1',interface='");
    reveal_strlit("org.freedesktop.DBus.Properties");
    reveal_strlit("',member='");
    reveal_strlit("PropertiesChanged");
    reveal_strlit("',path='");
    assert(full.subrange(0, 57) =~= "type='signal',sender='org.freedesktop.login1',interface='"@);
    assert(full.subrange(57, 88) =~= "org.freedesktop.DBus.Properties"@);
    assert(full.subrange(88, 98) =~= "',member='"@);
    assert(full.subrange(98, 115) =~= "PropertiesChanged"@);
    assert(full.subrange(115, 123) =~= "',path='"@);
    lemma_joined_text(full, "type='signal',sender='org.freedesktop.login1',interface='"@, "org.freedesktop.DBus.Properties"@, "',member='"@, "PropertiesChanged"@, "',path='"@);
}

pub(crate) proof fn lemma_rules_by_parts()
    ensures
        "type='signal',sender='org.freedesktop.login1',interface='org.freedesktop.login1.Manager',member='SessionRemoved',path='"@
            == "type='signal',sender='org.freedesktop.login1',interface='"@ + "org.freedesktop.login1.Manager"@
            + "',member='"@ + "SessionRemoved"@ + "',path='"@,
        "type='signal',sender='org.freedesktop.login1',interface='org.freedesktop.login1.Session',member='PauseDevice',path='"@
            == "type='signal',sender='org.freedesktop.login1',interface='"@ + "org.freedesktop.login1.Session"@
            + "',member='"@ + "PauseDevice"@ + "',path='"@,
        "type='signal',sender='org.freedesktop.login1',interface='org.freedesktop.login1.Session',member='ResumeDevice',path='"@
            == "type='signal',sender='org.freedesktop.login1',interface='"@ + "org.freedesktop.login1.Session"@
            + "',member='"@ + "ResumeDevice"@ + "',path='"@,
        "type='signal',sender='org.freedesktop.login1',interface='org.freedesktop.DBus.Properties',member='PropertiesChanged',path='"@
            == "type='signal',sender='org.freedesktop.login1',interface='"@ + "org.freedesktop.DBus.Properties"@
            + "',member='"@ + "PropertiesChanged"@ + "',path='"@,
{
    lemma_removed_text();
    lemma_pause_text();
    lemma_resume_text();
    lemma_properties_text();
}

/// Whether the signals of a rule are asked for at the given place of a start.
pub open spec fn asked_at(states: Seq<SetupModel>, i: int, rule: Seq<char>) -> bool {
    0 <= i < states.len() && states[i].spec_action() == Some(ActionModel::AddMatch(rule))
}

/// Whether the signals of a rule are asked for, and only once.
pub open spec fn asked_once(states: Seq<SetupModel>, rule: Seq<char>) -> bool {
    &&& exists|i: int| #[trigger] asked_at(states, i, rule)
    &&& forall|i: int, j: int|
        #[trigger] asked_at(states, i, rule) && #[trigger] asked_at(states, j, rule) ==> i == j
}

/// In the course of a start that succeeded the signals of four rules are asked for, each once: that
/// the manager removed a session, that a device of the session is paused, that it is resumed, and
/// that a property of the session changed. No other signal is asked for.
pub proof fn four_signals_are_asked_for(states: Seq<SetupModel>, events: Seq<EventModel>)
    requires
        started(states, events),
    ensures
        events[4] is Text,
        ({
            let path = events[4]->Text_0;
            let removed = "type='signal',sender='org.freedesktop.login1',interface='org.freedesktop.login1.Manager',member='SessionRemoved',path='"@
                + "/org/freedesktop/login1"@ + "'"@;
            let paused = "type='signal',sender='org.freedesktop.login1',interface='org.freedesktop.login1.Session',member='PauseDevice',path='"@
                + path + "'"@;
            let resumed = "type='signal',sender='org.freedesktop.login1',interface='org.freedesktop.login1.Session',member='ResumeDevice',path='"@
                + path + "'"@;
            let changed = "type='signal',sender='org.freedesktop.login1',interface='org.freedesktop.DBus.Properties',member='PropertiesChanged',path='"@
                + path + "'"@;
            &&& asked_once(states, removed)
            &&& asked_once(states, paused)
            &&& asked_once(states, resumed)
            &&& asked_once(states, changed)
            &&& forall|i: int, rule: Seq<char>| #[trigger]
                asked_at(states, i, rule) ==> rule == removed || rule == paused || rule == resumed
                    || rule == changed
        }),
{
    session_is_started_in_order(states, events);
    lemma_started(states, events);
    let path = events[4]->Text_0;
    assert(states[5].expects(events[5]));
    assert(states[6].expects(events[6]));
    assert(states[7].expects(events[7]));
    assert(states[8].expects(events[8]));
    lemma_removed_text();
    lemma_pause_text();
    lemma_resume_text();
    lemma_properties_text();
    let a = "type='signal',sender='org.freedesktop.login1',interface='org.freedesktop.login1.Manager',member='SessionRemoved',path='"@;
    let b = "type='signal',sender='org.freedesktop.login1',interface='org.freedesktop.login1.Session',member='PauseDevice',path='"@;
    let c = "type='signal',sender='org.freedesktop.login1',interface='org.freedesktop.login1.Session',member='ResumeDevice',path='"@;
    let d = "type='signal',sender='org.freedesktop.login1',interface='org.freedesktop.DBus.Properties',member='PropertiesChanged',path='"@;
    let end = "'"@;
    let home = "/org/freedesktop/login1"@;
    let removed = a + home + end;
    let paused = b + path + end;
    let resumed = c + path + end;
    let changed = d + path + end;
    assert(states[5].spec_rule() == removed);
    assert(states[6].spec_rule() == paused);
    assert(states[7].spec_rule() == resumed);
    assert(states[8].spec_rule() == changed);
    reveal_strlit("type='signal',sender='org.freedesktop.login1',interface='org.freedesktop.login1.Manager',member='SessionRemoved',path='");
    reveal_strlit("type='signal',sender='org.freedesktop.login1',interface='org.freedesktop.login1.Session',member='PauseDevice',path='");
    reveal_strlit("type='signal',sender='org.freedesktop.login1',interface='org.freedesktop.login1.Session',member='ResumeDevice',path='");
    reveal_strlit("type='signal',sender='org.freedesktop.login1',interface='org.freedesktop.DBus.Properties',member='PropertiesChanged',path='");
    assert(removed[80] == 'M');
    assert(removed[97] == 'S');
    assert(removed[73] == 'l');
    assert(paused[80] == 'S');
    assert(paused[97] == 'P');
    assert(paused[73] == 'l');
    assert(resumed[80] == 'S');
    assert(resumed[97] == 'R');
    assert(resumed[73] == 'l');
    assert(changed[80] == 'o');
    assert(changed[97] == '\'');
    assert(changed[73] == 'D');
    assert(asked_at(states, 5, removed));
    assert(asked_at(states, 6, paused));
    assert(asked_at(states, 7, resumed));
    assert(asked_at(states, 8, changed));
    assert forall|i: int, rule: Seq<char>| #[trigger] asked_at(states, i, rule) implies {
        ||| i == 5 && rule == removed
        ||| i == 6 && rule == paused
        ||| i == 7 && rule == resumed
        ||| i == 8 && rule == changed
    } by {}
}

/// A step of a start that fails ends it with the error of that step, which names the rule or the
/// call that failed; only a terminal may be missing.
pub proof fn failed_step_names_its_error(state: SetupModel, code: i32)
    requires
        state.expects(EventModel::Failed(code)),
    ensures
        match (state.spec_action()->0, state.advanced(EventModel::Failed(code))) {
            (ActionModel::GetSession, Err(error)) => error == ErrorModel::FailedToGetSession(code),
            (ActionModel::GetSeat(_), Err(error)) => error == ErrorModel::FailedToGetSeat(code),
            (ActionModel::GetVt(_), Ok(next)) => next.vt is None,
            (ActionModel::Connect, Err(error)) => error == ErrorModel::FailedDbusConnection(code),
            (ActionModel::Call(call), Err(error)) => error == ErrorModel::FailedToSendDbusCall(
                call,
            ),
            (ActionModel::AddMatch(rule), Err(error)) => error == ErrorModel::DbusMatchFailed(
                rule,
            ),
            _ => false,
        },
{
}

/// A call of a start that logind refuses ends it with an error that names the call, and a reply
/// without a path ends it as well.
pub proof fn refused_call_is_named(state: SetupModel)
    ensures
        state.expects(EventModel::Refused) <==> state.spec_action() is Some
            && state.spec_action()->0 is Call,
        state.expects(EventModel::Refused) ==> state.advanced(EventModel::Refused) == Err::<
            SetupModel,
            ErrorModel,
        >(ErrorModel::DbusCallFailed(state.spec_action()->0->Call_0)),
        state.expects(EventModel::Unexpected) ==> state.advanced(EventModel::Unexpected) == Err::<
            SetupModel,
            ErrorModel,
        >(ErrorModel::UnexpectedMethodReturn),
{
}

/// A call that was waited for succeeds exactly if there is a reply; otherwise the error names the
/// call, and tells whether it could not be sent or was refused.
pub proof fn failed_call_is_named(call: MethodCall, outcome: CallOutcome, r: Result<(), Error>)
    requires
        call_ensures(blocking_call, (call, outcome), r),
    ensures
        r is Ok <==> outcome is Replied,
        outcome is NotSent <==> r == Err::<(), Error>(Error::FailedToSendDbusCall(call)),
        outcome is Refused <==> r == Err::<(), Error>(Error::DbusCallFailed(call)),
{
}

} // verus!
