use vstd::prelude::*;

use crate::auth::{verify, AuthStatus};
use crate::codec::{decode, decode_spec};
use crate::console::{classify, command_spec, status_of_output, whitelist_command, Status};

verus! {

/// Where one connection's processing stands.
#[derive(Debug)]
pub enum Phase {
    /// Handshake done; the one request message is awaited.
    AwaitingRequest,
    /// The request was decoded; the salted hash of its credential is awaited.
    AwaitingHash { username: String },
    /// The credential matched; the console tool's output is awaited.
    AwaitingOutput,
    /// Nothing more is to be done but closing the connection.
    Finished,
}

/// What the surroundings report back to the connection.
#[derive(Debug)]
pub enum Event {
    /// The request message arrived.
    Request(Vec<u8>),
    /// The salted hash of the credential, or `None` when hashing failed.
    Hashed(Option<Vec<u8>>),
    /// The console tool's standard output, or `None` when it could not be run.
    Output(Option<Vec<u8>>),
}

/// What the surroundings are asked to do next.
#[derive(Debug)]
pub enum Action {
    /// Derive the salted hash of this credential and report it.
    ComputeHash(Vec<u8>),
    /// Run the console tool with this command text and report its output.
    RunCommand(String),
    /// Send this status as the one response message, then close.
    Respond(Status),
    /// Close without a response.
    Close,
}

/// One connection's decision flow, from request to response.
pub struct Connection {
    pub phase: Phase,
    pub expected_hash: Vec<u8>,
}

/// `act` asks to respond with `s`.
pub open spec fn responds(act: Action, s: Status) -> bool {
    act matches Action::Respond(x) && x == s
}

/// The step from `pre` on `ev`, for the provisioned hash `expected`, leads to
/// phase `post` and asks for `act`.
pub open spec fn transition(
    pre: Phase,
    expected: Seq<u8>,
    ev: Event,
    post: Phase,
    act: Action,
) -> bool {
    match (pre, ev) {
        (Phase::AwaitingRequest, Event::Request(m)) => match decode_spec(m@) {
            Ok((u, c)) => {
                &&& post matches Phase::AwaitingHash { username } && username@ == u
                &&& act matches Action::ComputeHash(x) && x@ == c
            },
            Err(_) => post is Finished && responds(act, Status::Unexpected),
        },
        (Phase::AwaitingHash { username }, Event::Hashed(h)) => match h {
            None => post is Finished && responds(act, Status::Unexpected),
            Some(h) => if h@ == expected {
                &&& post is AwaitingOutput
                &&& act matches Action::RunCommand(cmd) && cmd@ == command_spec(username@)
            } else {
                post is Finished && responds(act, Status::IncorrectPassword)
            },
        },
        (Phase::AwaitingOutput, Event::Output(o)) => match o {
            None => post is Finished && responds(act, Status::Unexpected),
            Some(b) => post is Finished && responds(act, status_of_output(b@)),
        },
        _ => post is Finished && act is Close,
    }
}

impl Connection {
    /// A connection whose handshake is done, checked against `expected_hash`.
    pub fn new(expected_hash: Vec<u8>) -> (r: Connection)
        ensures
            r.phase is AwaitingRequest,
            r.expected_hash@ == expected_hash@,
    {
        Connection { phase: Phase::AwaitingRequest, expected_hash }
    }

    /// Takes in what happened and says what to do next. An event that does
    /// not fit the current phase ends the connection without a response.
    pub fn step(&mut self, event: Event) -> (r: Action)
        ensures
            final(self).expected_hash@ == old(self).expected_hash@,
            transition(old(self).phase, old(self).expected_hash@, event, final(self).phase, r),
    {
        let mut phase = Phase::Finished;
        std::mem::swap(&mut phase, &mut self.phase);
        match (phase, event) {
            (Phase::AwaitingRequest, Event::Request(m)) => match decode(m.as_slice()) {
                Ok(req) => {
                    self.phase = Phase::AwaitingHash { username: req.username };
                    Action::ComputeHash(req.credential)
                },
                Err(_) => Action::Respond(Status::Unexpected),
            },
            (Phase::AwaitingHash { username }, Event::Hashed(h)) => match h {
                None => Action::Respond(Status::Unexpected),
                Some(h) => match verify(h.as_slice(), self.expected_hash.as_slice()) {
                    AuthStatus::Authenticated => {
                        self.phase = Phase::AwaitingOutput;
                        Action::RunCommand(whitelist_command(username.as_str()))
                    },
                    AuthStatus::IncorrectPassword => Action::Respond(Status::IncorrectPassword),
                },
            },
            (Phase::AwaitingOutput, Event::Output(o)) => match o {
                None => Action::Respond(Status::Unexpected),
                Some(b) => Action::Respond(classify(b.as_slice())),
            },
            _ => Action::Close,
        }
    }
}

/// When the credential's salted hash differs from the provisioned one, the
/// connection answers `IncorrectPassword` and never asks for the console tool.
pub proof fn lemma_wrong_credential_skips_console(
    username: String,
    expected: Seq<u8>,
    hash: Vec<u8>,
    post: Phase,
    act: Action,
)
    requires
        hash@ != expected,
        transition(
            Phase::AwaitingHash { username },
            expected,
            Event::Hashed(Some(hash)),
            post,
            act,
        ),
    ensures
        responds(act, Status::IncorrectPassword),
        !(act is RunCommand),
        post is Finished,
{
}

} // verus!
