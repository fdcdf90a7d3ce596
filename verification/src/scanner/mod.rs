//! Scanning of captured Ethernet frames.

pub mod pcap;
