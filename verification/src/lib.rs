//! Event-decoding core of a gateway client: a typed dispatch decoder that maps
//! wire event-name tags and their JSON payloads onto a closed set of payload
//! variants, together with the opcode model, the tag registry, the projection
//! from the full protocol-message superset onto the dispatch subset, and the
//! outbound heartbeat frame.

pub mod dispatch;
pub mod event;
pub mod event_type;
pub mod heartbeat;
pub mod json;
pub mod opcode;
pub mod presence;
