//! An authenticated-request gate and a backend-agnostic storage port.
//!
//! The auth pipeline turns a presented credential (cookie or `Authorization: Bearer`
//! header) into a verified identity, confirming against a session store that
//! the session is still live. The storage port offers record CRUD operations
//! behind a closed set of backends. Both report failures through one closed
//! error taxonomy with a fixed mapping to boundary status codes.

pub mod errors;
pub mod gate;
pub mod repo;
pub mod session;
pub mod text;
pub mod token;
