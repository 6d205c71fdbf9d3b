//! A small expression engine: JSON-shaped documents are decoded into
//! expression trees, compiled against a registry of named functions, and
//! evaluated once every external input they query has been supplied.

pub mod compile;
pub mod data;
pub mod entries;
pub mod expr;
pub mod function;
pub mod host;
pub mod laws;
pub mod registry;
pub mod scope;
pub mod value;


pub use compile::CompileError;
pub use data::{DecodeError, Document, ExprData, FunctionExprData};
pub use expr::{EvalError, Expr};
pub use function::{
    AddFunction, AddFunctionBuilder, DivFunction, Function, FunctionBuilder, MulFunction,
    QueryFunction, QueryFunctionBuilder, SubFunction,
};
pub use host::{LoadScript, ScriptBundle, ScriptState, ScriptsReady};
pub use registry::Registry;
pub use scope::ScopeData;
pub use value::StaticExpr;
