//! Decoding of the messages of an exchange into typed values.
//!
//! A message arrives as JSON text. `json` reads the text, `codec` reads
//! single fields, the modules `model` and `futures::model` hold one shape for
//! each kind of message, and `websockets` routes a pushed message to its
//! shape by the tag that it carries. Decimals are exact (`decimal`): a
//! quantity that is written as a string and one that is written as a number
//! decode to the same value. Every decoder is a function of the message
//! alone, and says in its contract what it returns for every message.

pub mod api;
pub mod codec;
pub mod decimal;
pub mod error;
pub mod futures;
pub mod json;
pub mod model;
pub mod text;
pub mod userstream;
pub mod vocabulary;
pub mod websockets;
