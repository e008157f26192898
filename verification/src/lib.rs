//! Careful Resume: restarting congestion control from the parameters of an
//! earlier connection, and the decisions of a small HTTP/0.9 client over QUIC.
pub mod resume;
pub mod resume_laws;
pub mod resume_steps;
pub mod roots;
pub mod saved;
pub mod session;
pub mod span;
pub mod target;
pub mod text;
pub mod transport;
