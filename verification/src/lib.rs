//! A Noise handshake client state machine and the message logic of a
//! Noise-secured JSON-RPC relay, verified with Verus.

pub mod snow_api;
pub mod text;
pub mod error;
pub mod setup;
pub mod machine;
pub mod json;
pub mod rpc;
pub mod channel;
pub mod session;

pub use error::NoiseError;
pub use machine::{Callback, Delivery, NoiseHandshake, NoiseStateMachine, Payload};
pub use rpc::{create_json, ParamsField, RequestError, RequestFields, RequestPlan, RpcCall, RpcImpl};
pub use session::{ClientAction, ClientPhase, RelayClient, RelayFailure, RelayServer, ServerAction, ServerPhase, StreamEvent};
