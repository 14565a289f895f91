//! Type 1 font programs: charstring decryption and decoding, font dictionary
//! values and the PostScript strings and containers they are built from.

pub mod builtin;
pub mod charstring;
pub mod decode;
pub mod error;
pub mod font;
pub mod graphics_operator;
pub mod lexer;
pub mod object;
pub mod operator;
