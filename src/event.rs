use crate::status::{Code, Status};
use tokio::sync::{mpsc, oneshot};
use tokio_util::sync::CancellationToken;
use vstd::prelude::*;

verus! {

// tokio's channel ends and tokio-util's cancellation token are carried
// through the envelope as opaque values.
#[verifier::external_type_specification]
#[verifier::external_body]
#[verifier::reject_recursive_types(T)]
pub struct ExOneshotSender<T>(oneshot::Sender<T>);

#[verifier::external_type_specification]
#[verifier::external_body]
#[verifier::reject_recursive_types(T)]
pub struct ExMpscSender<T>(mpsc::Sender<T>);

#[verifier::external_type_specification]
#[verifier::external_body]
pub struct ExCancellationToken(CancellationToken);

/// Relies on tokio's `oneshot::Sender::send`: a failed send (the receiver is
/// gone) hands the value back unchanged.
#[verifier::external_body]
fn send_once(tx: oneshot::Sender<ClientEventResponse>, value: ClientEventResponse) -> (r: Result<
    (),
    ClientEventResponse,
>)
    ensures
        r matches Err(v) ==> v == value,
{
    tx.send(value)
}

/// Relies on tokio-util's `CancellationToken::cancel`: sets the shared flag and
/// wakes every waiter; calling it again has no further effect.
#[verifier::external_body]
fn cancel_token(token: &CancellationToken) {
    token.cancel()
}

/// Relies on tokio-util's `CancellationToken::is_cancelled`: reads the shared
/// flag, which other holders of the token may set at any time.
#[verifier::external_body]
fn token_is_cancelled(token: &CancellationToken) -> bool {
    token.is_cancelled()
}

/// The request carried by a `ClientEvent`.
pub enum Payload {
    RegisterTcp { port: u16 },
    RegisterUdp { port: u16 },
    /// Exactly one addressing mode must be given: a non-empty `subdomain`, a
    /// non-empty `domain`, or `random_subdomain`.
    RegisterHttp { port: u16, subdomain: Vec<u8>, domain: Vec<u8>, random_subdomain: bool },
}

/// Number of HTTP addressing modes that are meaningfully set.
pub open spec fn addressing_modes(subdomain: Seq<u8>, domain: Seq<u8>, random_subdomain: bool) -> nat {
    (if subdomain.len() > 0 { 1nat } else { 0nat }) + (if domain.len() > 0 { 1nat } else { 0nat })
        + (if random_subdomain { 1nat } else { 0nat })
}

/// A payload is acceptable when it is TCP, UDP, or HTTP with exactly one
/// addressing mode.
pub open spec fn payload_valid(p: Payload) -> bool {
    match p {
        Payload::RegisterHttp { subdomain, domain, random_subdomain, .. } => addressing_modes(
            subdomain@,
            domain@,
            random_subdomain,
        ) == 1,
        _ => true,
    }
}

/// How an accepted HTTP registration is addressed.
pub enum HttpAddressing {
    Subdomain(Vec<u8>),
    Domain(Vec<u8>),
    Random,
}

/// A validated registration, ready for resource allocation.
pub enum Registration {
    Tcp { port: u16 },
    Udp { port: u16 },
    Http { port: u16, addressing: HttpAddressing },
}

/// The registration that a valid payload asks for.
pub open spec fn registration_of(p: Payload) -> Registration {
    match p {
        Payload::RegisterTcp { port } => Registration::Tcp { port },
        Payload::RegisterUdp { port } => Registration::Udp { port },
        Payload::RegisterHttp { port, subdomain, domain, random_subdomain } => Registration::Http {
            port,
            addressing: if subdomain@.len() > 0 {
                HttpAddressing::Subdomain(subdomain)
            } else if domain@.len() > 0 {
                HttpAddressing::Domain(domain)
            } else {
                HttpAddressing::Random
            },
        },
    }
}

impl Payload {
    /// Checks the payload before any resource is allocated. An HTTP payload
    /// with no addressing mode, or with more than one, is refused with
    /// `InvalidArgument`; every other payload is accepted as it is.
    pub fn validate(self) -> (r: Result<Registration, Status>)
        ensures
            r is Ok <==> payload_valid(self),
            r matches Ok(reg) ==> reg == registration_of(self),
            r matches Err(s) ==> s.code == Code::InvalidArgument,
    {
        match self {
            Payload::RegisterTcp { port } => Ok(Registration::Tcp { port }),
            Payload::RegisterUdp { port } => Ok(Registration::Udp { port }),
            Payload::RegisterHttp { port, subdomain, domain, random_subdomain } => {
                let has_sub = subdomain.len() > 0;
                let has_dom = domain.len() > 0;
                let modes: u8 = (if has_sub { 1u8 } else { 0u8 }) + (if has_dom { 1u8 } else { 0u8 })
                    + (if random_subdomain { 1u8 } else { 0u8 });
                if modes == 0 {
                    Err(Status::new(Code::InvalidArgument, String::from_str("one of subdomain, domain or random_subdomain must be set")))
                } else if modes > 1 {
                    Err(Status::new(Code::InvalidArgument, String::from_str("only one of subdomain, domain or random_subdomain may be set")))
                } else if has_sub {
                    Ok(Registration::Http { port, addressing: HttpAddressing::Subdomain(subdomain) })
                } else if has_dom {
                    Ok(Registration::Http { port, addressing: HttpAddressing::Domain(domain) })
                } else {
                    Ok(Registration::Http { port, addressing: HttpAddressing::Random })
                }
            },
        }
    }
}


/// `r` is the well-formed response owed for an allocation outcome.
pub open spec fn answers_allocation(r: ClientEventResponse, outcome: Result<Vec<String>, Status>) -> bool {
    &&& r.wf()
    &&& match outcome {
        Ok(e) => if e@.len() > 0 {
            r.succeeded() && r.spec_entrypoint() == e@
        } else {
            r.spec_status() matches Some(s) && s.code == Code::Internal
        },
        Err(s) => r.spec_status() == Some(s),
    }
}

/// The single response to a `ClientEvent`.
pub enum ClientEventResponse {
    Registered {
        /// Set exactly when the registration failed.
        status: Option<Status>,
        /// The allocated public entrypoints, empty exactly when it failed.
        entrypoint: Vec<String>,
    },
}

impl ClientEventResponse {
    /// Well-formed: either no status and at least one entrypoint, or a
    /// status and no entrypoint.
    pub open spec fn wf(&self) -> bool {
        match self {
            ClientEventResponse::Registered { status, entrypoint } => {
                (status is None && entrypoint@.len() > 0) || (status is Some && entrypoint@.len()
                    == 0)
            },
        }
    }

    pub open spec fn succeeded(&self) -> bool {
        match self {
            ClientEventResponse::Registered { status, .. } => status is None,
        }
    }

    pub open spec fn spec_status(&self) -> Option<Status> {
        match self {
            ClientEventResponse::Registered { status, .. } => *status,
        }
    }

    pub open spec fn spec_entrypoint(&self) -> Seq<String> {
        match self {
            ClientEventResponse::Registered { entrypoint, .. } => entrypoint@,
        }
    }

    /// A successful registration with its allocated entrypoints.
    pub fn registered(entrypoint: Vec<String>) -> (r: Self)
        requires
            entrypoint@.len() > 0,
        ensures
            r.wf(),
            r.succeeded(),
            r.spec_entrypoint() == entrypoint@,
    {
        ClientEventResponse::Registered { status: None, entrypoint }
    }

    /// A failed registration: the status is kept and no entrypoint is given.
    pub fn registered_failed(status: Status) -> (r: Self)
        ensures
            r.wf(),
            !r.succeeded(),
            r.spec_status() == Some(status),
            r.spec_entrypoint().len() == 0,
    {
        ClientEventResponse::Registered { status: Some(status), entrypoint: Vec::new() }
    }

    /// The response for the outcome of allocating a validated registration:
    /// the allocated entrypoints, or the status of the failed allocation. An
    /// allocation that yields no entrypoint is reported as `Internal`.
    pub fn from_allocation(outcome: Result<Vec<String>, Status>) -> (r: Self)
        ensures
            answers_allocation(r, outcome),
    {
        match outcome {
            Ok(entrypoint) => {
                if entrypoint.len() > 0 {
                    Self::registered(entrypoint)
                } else {
                    Self::registered_failed(
                        Status::new(Code::Internal, String::from_str("no entrypoint was allocated")),
                    )
                }
            },
            Err(status) => Self::registered_failed(status),
        }
    }

    pub fn is_registered(&self) -> (r: bool)
        ensures
            r,
    {
        match self {
            ClientEventResponse::Registered { .. } => true,
        }
    }

    pub fn entrypoint(&self) -> (r: Option<&Vec<String>>)
        ensures
            r matches Some(e) && e@ == self.spec_entrypoint(),
    {
        match self {
            ClientEventResponse::Registered { entrypoint, .. } => Some(entrypoint),
        }
    }

    pub fn status(&self) -> (r: Option<&Status>)
        ensures
            r matches Some(s) ==> self.spec_status() == Some(*s),
            r is None <==> self.spec_status() is None,
    {
        match self {
            ClientEventResponse::Registered { status, .. } => match status {
                Some(s) => Some(s),
                None => None,
            },
        }
    }
}

/// A live inbound connection's forwarding handle, known to this core by its
/// identifier.
pub struct IdDataSenderBridge {
    pub id: Vec<u8>,
    pub data_sender: mpsc::Sender<Vec<u8>>,
}

/// Sends bridge notifications from the data plane to the session owner.
pub type IncomingEventSender = mpsc::Sender<UserIncoming>;

/// A change to a session's set of live bridges.
pub enum UserIncoming {
    Add(IdDataSenderBridge),
    Remove(Vec<u8>),
}

/// A registration request sent from the control plane to the data plane.
/// Each envelope is answered on its own, so a session may have several
/// registrations in flight; each one gets its own listener.
pub struct ClientEvent {
    pub payload: Payload,
    /// Where the data plane writes its single response.
    pub resp: oneshot::Sender<ClientEventResponse>,
    /// Triggered by the control plane when the client goes away.
    pub close_listener: CancellationToken,
    /// Where the data plane reports bridges once registration succeeded.
    pub incoming_events: IncomingEventSender,
}

impl ClientEvent {
    pub fn new(
        payload: Payload,
        resp: oneshot::Sender<ClientEventResponse>,
        close_listener: CancellationToken,
        incoming_events: IncomingEventSender,
    ) -> (r: Self)
        ensures
            r.payload == payload,
            r.resp == resp,
            r.close_listener == close_listener,
            r.incoming_events == incoming_events,
    {
        ClientEvent { payload, resp, close_listener, incoming_events }
    }
}

/// Triggers cancellation of the listener that a registration started. Safe
/// to call any number of times, also after the listener has closed.
pub fn close_listener(token: &CancellationToken) {
    cancel_token(token)
}

/// Whether the control plane has asked the listener to stop.
pub fn listener_closing(token: &CancellationToken) -> bool {
    token_is_cancelled(token)
}

/// Writes the response into the envelope's one-shot channel. Returns whether
/// it was delivered; a receiver that is already gone makes this return `false`
/// without any error, and the caller then releases what it allocated.
pub fn respond(resp: oneshot::Sender<ClientEventResponse>, response: ClientEventResponse) -> (delivered: bool)
    requires
        response.wf(),
{
    match send_once(resp, response) {
        Ok(()) => true,
        Err(_) => false,
    }
}

} // verus!
