//! Typed commands and results for a remote object whose methods are found
//! by name and called with loosely typed values.

pub mod admin;
pub mod app_ws;
pub mod dispatch;
pub mod marshal;
pub mod naming;
pub mod types;
pub mod value;

pub use admin::{
    AdminWsCmd, AdminWsCmdResponse, admin_tag_known, parse_admin_ws_cmd_response,
};
pub use app_ws::{AppWsCmd, AppWsCmdResponse, app_tag_known, parse_app_ws_cmd_response};
pub use dispatch::WsCall;
pub use marshal::{FromValue, ToValue};
pub use naming::lowercase_first_letter;
pub use types::{
    AgentPk, AppInfo, CellId, CellIdRoleId, CellIdRoleIdVec, CellIdVec, DnaHash, HashRoleProof,
    status_from_value, status_to_value,
};
pub use value::{Entry, ShapeMismatch, Value, get_field};
