//! Agents that talk with a language model, carry out the tools that it asks for, and take part
//! in a chat.
//!
//! The library decides; it does no input or output of its own. Where a decision needs something
//! from outside (what the model streams, what a tool returns, what time it is), the library is
//! told, and says what is to be done next.

pub mod agent;
pub mod agent_loop;
pub mod answer_laws;
pub mod app;
pub mod app_call_laws;
pub mod app_laws;
pub mod call_laws;
pub mod dispatch;
pub mod event;
pub mod ids;
pub mod json;
pub mod llm;
pub mod loop_laws;
pub mod message;
pub mod openai;
pub mod openai_laws;
pub mod participant;
pub mod participant_laws;
pub mod request_laws;
pub mod summary;
pub mod text;
pub mod tool;
pub mod tool_calls;
pub mod turn_laws;
pub mod view_laws;

pub use agent::{AgentEvent, Channel, Sender};
pub use agent_loop::{AgentLoop, LoopAction, LoopInput, TurnSummary, MAX_TOOL_ITERATIONS};
pub use app::AgentApp;
pub use dispatch::{RecordedToolCall, ToolCallResult};
pub use llm::{LlmError, LlmEvent};
pub use message::{Message, ToolCall};
pub use participant::AgentParticipantBuilder;
pub use tool::ToolDefinition;
