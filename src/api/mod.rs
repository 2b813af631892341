//! What a handler asks a connector to do, as plain values. The connector's
//! own interface performs the request.
pub mod payload;
pub mod response;
