//! Provisioning of a prebuilt language-server executable for an editor
//! plugin: resolving the release archive for the host platform, planning
//! the on-disk installation layout, guarding the install with an advisory
//! lock marker, extracting the downloaded archive safely, and producing
//! the ordered sequence of host actions that performs the whole flow.

pub mod archive;
pub mod extract;
pub mod layout;
pub mod orchestrator;
pub mod platform;
pub mod resolver;
