//! Discovers bridge-toolchain projects, extracts their exported function
//! signatures, translates each declared type into the host language's type
//! system, and renders one typed interface stub file per project.

pub mod cli;
pub mod stubgen;
