//! One random photograph from the Unsplash API, saved under a folder.
//!
//! The crate holds the rules of one invocation: how the filter fields become
//! the query of the request, what is sent to the provider, what is read from
//! its reply, where the image is stored, and what is handed back to the host.
//! It performs no I/O itself: the caller sends the request and stores the
//! image, and reports to the library how each of the two went.

pub mod laws;
pub mod params;
pub mod request;
pub mod response;
pub mod session;
