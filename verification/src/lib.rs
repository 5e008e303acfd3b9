//! Hand-off and decode policy of a camera-to-WiFi QR scanner.
//!
//! * [`mailslot`]: the transitions of a single-slot, latest-value-wins mailbox.
//! * [`grid`]: extracted module grids, their binary reading and their picture.
//! * [`decode`]: the decode stages, the fallback decoder and the recognized-payload test.
//! * [`worker`]: the decode worker as a state machine over frames, regions and stages.
//! * [`wifi`]: WiFi join URIs and the `nmcli` command that joins the network.

pub mod decode;
pub mod grid;
pub mod mailslot;
pub mod wifi;
pub mod worker;
