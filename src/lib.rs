//! Typed settings for a still-image capture tool, the argument list they
//! turn into, and the protocol that cleans up, launches and classifies
//! one capture.
pub mod settings;
pub mod capture;
