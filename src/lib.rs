//! The embedding boundary of a small scripting engine: dynamic values, the
//! variable scope, parse errors, native-function argument marshaling and the
//! custom syntax registry.

pub mod dynamic;
pub mod fn_register;
pub mod parse_error;
pub mod plugin;
pub mod result;
pub mod scope;
pub mod syntax;
mod text;
pub mod token;

pub use dynamic::{AccessMode, Dynamic, TypeTag, Union, Variant};
pub use fn_register::{
    args_fit, by_ref, by_value, into_callable_function, AbiShape, CallableFunction, FnAbi, Mut,
    NativeCallContext, RegisterNativeFunction,
};
pub use parse_error::{LexError, ParseError, ParseErrorType, Position};
pub use plugin::PluginFunction;
pub use scope::Scope;
pub use result::EvalAltResult;
pub use syntax::{
    parse_segments, CustomSyntax, Engine, EvalContext, Expr, Expression, SyntaxParse, MARKER_BLOCK,
    MARKER_EXPR, MARKER_IDENT,
};
pub use token::{is_valid_identifier, lookup_from_syntax, SymbolKind};
