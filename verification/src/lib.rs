//! A minimal network-edge responder core: answers ARP requests for one
//! configured station identity, answers ICMP echo requests, and mirrors UDP
//! datagrams back to their sender, learning IPv4-to-MAC mappings on the way.

pub mod addr;
pub mod cache;
pub mod checksum;
pub mod wire;
pub mod ether;
pub mod arp;
pub mod ipv4;
pub mod icmp;
pub mod udp;
pub mod responder;
pub mod laws;

pub use addr::{HardwareAddress, Ipv4Address, Station};
pub use cache::AddressCache;
pub use responder::{handle_arp, handle_ipv4, handle_frame};
