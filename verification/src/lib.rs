//! Decision logic of a DS-Lite B4 client: configuration defaults, AFTR address
//! resolution, the step-by-step procedures that bring an IPv4-in-IPv6 tunnel up
//! and down on Linux (netlink) and illumos (libdladm/libipadm), and the
//! coalescing of network-change notifications.
//!
//! Every operation that talks to the outside world is written here as a state
//! machine: it hands back the request to perform, and the caller feeds in the
//! reply. The program around the library performs the requests.

pub mod address;
pub mod text;
pub mod config;
pub mod dns;
pub mod tunnel;
pub mod backoff;
pub mod network_changes;
