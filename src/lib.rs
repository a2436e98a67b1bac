pub mod service;
pub mod syntax;
pub mod classify;
pub mod walker;
pub mod config;
pub mod record;
pub mod instrument;
pub mod laws;

pub use classify::{classify, Class, ExitKind, Position, WalkState};
pub use config::{parse_config, AttrArg, MacroError};
pub use instrument::{
    is_wrapped_trait, log_function, FunctionDescriptor, GenericParam, InstrumentedFn,
};
pub use record::{arg_text, generate_args_text, generate_log, LogRecord, Param};
pub use service::{NodeError, NodeResult, ServiceClient};
pub use syntax::{Expr, Stmt};
pub use walker::{fold_expr, fold_stmts};
