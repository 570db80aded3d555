//! A typed URL-pattern routing engine: path templates compiled into matchers,
//! request paths matched against an ordered route table, and positional
//! captures handed to handlers.
//!
//! - [`url_pattern`] compiles templates such as `/users/<uid>` and matches
//!   paths against them.
//! - [`router`] holds routes in mounting order and dispatches a request to
//!   the first route that matches and whose handler accepts the captures.
//! - [`http`] is the vocabulary both speak: methods, statuses, requests and
//!   responses.
//! - [`text`] and [`cut`] split texts on a separator, in mathematics and on
//!   string slices.

pub mod cut;
pub mod http;
pub mod router;
pub mod text;
pub mod url_pattern;
