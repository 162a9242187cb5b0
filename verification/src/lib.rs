//! A host-side control plane for Firecracker microVMs.
//!
//! The library decides; it does nothing to the host.  What has to happen
//! on the host is written down as scripts (`script`), which a caller
//! walks with the machine (`machine`), carrying out one request at a
//! time and handing back what came of it.  A workflow that needs values
//! from the host says which, and is asked again with what was fetched.
//!
//! The parts: the command runner (`command`), the project file
//! (`config`), the inventory with its schema ledger (`state`), image
//! assembly (`prepare`), the network fabric and the hypervisor's
//! configuration (`vm`), hypervisor processes (`process`), and what the
//! command line (`up`) and the HTTP API (`server`) make of them.

pub mod argv;
pub mod command;
pub mod config;
pub mod error;
pub mod machine;
pub mod outside;
pub mod prepare;
pub mod process;
pub mod script;
pub mod server;
pub mod state;
pub mod text;
pub mod up;
pub mod vm;
