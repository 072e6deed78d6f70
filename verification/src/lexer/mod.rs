//! Lexical analysis: tokens, the scanner that produces them, operator
//! classes and the token stream that the parser reads.

pub mod operations;
pub mod scanner;
pub mod token;
pub mod token_stream;

pub use operations::{MaybeOperator, OperationType};
pub use token::{kind_name, Token, TokenKind};
pub use token_stream::{SpecTokenStream, TokenError, TokenResult, TokenStream};
