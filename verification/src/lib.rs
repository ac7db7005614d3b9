//! Core of an agent pipeline that turns a natural-language user request into
//! generated backend code and an API schema by delegating sub-tasks to a
//! large language model (LLM).
//!
//! The library holds the orchestration logic: message construction, the
//! bounded retry policy around LLM calls, agent lifecycles, the shared fact
//! sheet, and the manager's sequential dispatch protocol. All outside work
//! (the LLM transport, the template and artifact stores, operator I/O) is
//! expressed as actions the library asks for and events it is handed back.

pub mod agent_architect;
pub mod agent_backend;
pub mod agent_traits;
pub mod ai_functions;
pub mod basic_agent;
pub mod command_line;
pub mod dispatch;
pub mod general;
pub mod llm;
pub mod managing_agent;
pub mod schema;
