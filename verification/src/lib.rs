//! Recording sessions and render planning for a screen and webcam recorder.
//!
//! The crate holds the decisions of the recorder: which capture pipelines a
//! session starts and stops, how a session moves through its states, where its
//! files live, what the metadata record of a finished session says, and what a
//! render request has to do. Processes, devices and files are driven by the
//! caller, which reports what happened as plain values.

pub mod bootstrap;
pub mod encoder;
pub mod error;
pub mod ident;
pub mod layout;
pub mod manager;
pub mod meta;
pub mod occlusion;
pub mod options;
pub mod pipeline;
pub mod render;
pub mod session;
pub mod video;
