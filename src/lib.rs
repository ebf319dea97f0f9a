//! Decision logic of a launcher shim that runs a Node.js agent script.
//!
//! The shim picks the script to run from an override value or from the name
//! it was invoked under, builds the command line for the `node` runtime, and
//! maps the child's outcome to its own exit status.
pub mod text;
pub mod resolve;
pub mod launch;
