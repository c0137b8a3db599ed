//! Event coordination between the control plane and the data plane of a
//! tunnel broker: the registration envelope and its response, validation of
//! registration requests, the lifecycle of a registered listener, and the
//! per-session registry of live inbound-connection bridges.

mod event;
mod lifecycle;
mod registry;
mod status;

pub use event::{
    addressing_modes, answers_allocation, close_listener, listener_closing, payload_valid,
    registration_of, respond, ClientEvent, ClientEventResponse, HttpAddressing,
    IdDataSenderBridge, IncomingEventSender, Payload, Registration, UserIncoming,
};
pub use lifecycle::{
    cancelled_times, holds_resource, lemma_abandoned_response_releases, lemma_cancel_before_first_wait,
    lemma_cancel_idempotent,
    lemma_resource_accounting, resource_count, transition, ListenerAction, ListenerEvent,
    ListenerState,
};
pub use registry::{
    added, adds_id, applied, has_id, ids_unique, index_of, lemma_removed_stays_absent, removed,
    replayed,
    BridgeRegistry,
};
pub use status::{Code, Status};
