//! Synthesis of the runtime configuration document of an actor's sandbox
//! bundle, and the plan of the database commands of the command line.
pub mod db;
pub mod guarantees;
pub mod json;
pub mod oci_config;
pub mod path;
