//! A throughput-benchmark harness for a streamed, flow-controlled,
//! multiplexed request/response protocol over an encrypted transport.
//!
//! The library holds the protocol-level decision logic: the client-side
//! response-body consumer that drains data chunks and returns flow-control
//! credit, the request driver that accumulates byte totals over sequential
//! request cycles, the flow-control window model, the server-side connection
//! handler's parameters and synthetic payload, and the client's configuration
//! (frame-size argument with its lenient default, throughput computation).
//! The surrounding executable performs the socket, TLS and protocol-engine
//! work and feeds events to these state machines.

pub mod consumer;
pub mod driver;
pub mod flow;
pub mod params;
pub mod report;
pub mod server;

pub use consumer::BodyError;
pub use consumer::ConsumerPhase;
pub use consumer::FlowControlledBodyConsumer;
pub use driver::CycleOutcome;
pub use driver::RequestDriver;
pub use flow::drain_body;
pub use flow::simulate_transfer;
pub use params::frame_size_bytes;
pub use params::frame_size_multiplier;
pub use params::parse_u32;
pub use params::request_target;
pub use params::CLIENT_WINDOW_SIZE;
pub use params::DEFAULT_CYCLE_COUNT;
pub use params::DEFAULT_FRAME_SIZE_MULTIPLIER;
pub use params::KIBIBYTE;
pub use report::ThroughputSample;
pub use server::response_content_type;
pub use server::server_settings;
pub use server::synthetic_body;
pub use server::ConnectionHandler;
pub use server::ResponsePlan;
pub use server::ServerSettings;
pub use server::BODY_FILL_BYTE;
pub use server::DEFAULT_BODY_BYTES;
pub use server::ENLARGED_WINDOW_SIZE;
pub use server::RESPONSE_STATUS_OK;
