//! An MQTT source connector: it subscribes to a topic pattern on a pub/sub
//! broker, decodes each incoming message body as a JSON document, derives
//! entity identity and labels from the message topic, and emits the result as
//! a normalized graph-change record to a downstream change-processing
//! pipeline.
//!
//! The library holds the verified core of the connector: the topic router,
//! the payload mapper, the emission sink, and the supervisor state machine.
//! Network transport (the MQTT client itself) is driven by the surrounding
//! application, which feeds transport events into the supervisor.

pub mod json;
pub mod mapper;
pub mod pipeline;
pub mod router;
pub mod session;
pub mod sink;
