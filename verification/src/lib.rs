//! Authentication, error and user-record logic of the Latin learning website.
//!
//! The HTTP server, the database client and the signing of tokens live in the
//! application crate; this library holds the decisions they make.
pub mod auth;
pub mod errors;
pub mod models;
pub mod routes;

use vstd::prelude::*;

verus! {

/// The web application, listening on one port.
pub struct LatinApp {
    port: u16,
}

impl LatinApp {
    /// The port the application listens on.
    pub closed spec fn listening_port(&self) -> u16 {
        self.port
    }

    /// An application that will listen on `port`.
    pub fn new(port: u16) -> (app: Self)
        ensures
            app.listening_port() == port,
    {
        LatinApp { port }
    }

    /// The port the application listens on.
    pub fn port(&self) -> (port: u16)
        ensures
            port == self.listening_port(),
    {
        self.port
    }
}

} // verus!
