//! Logic behind the `codex team` dashboard and the tool and configuration rules around it.

pub mod cli;
pub mod config_lock;
pub mod escape;
pub mod form;
pub mod http;
pub mod journal;
pub mod json;
pub mod kanban;
pub mod laws;
pub mod markup;
pub mod mcp_resource;
pub mod messages;
pub mod model;
pub mod number;
pub mod order;
pub mod page;
pub mod permissions;
pub mod personality;
pub mod route;
pub mod shell;
pub mod split;
pub mod status;
pub mod team_rules;
pub mod template;
pub mod text;
pub mod time;
pub mod timeline;
pub mod token_usage;
pub mod tool_spec;
