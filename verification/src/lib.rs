//! Enumeration of mounted storage volumes: drive letters decoded from the
//! platform's bitmask, volume metadata decoded from fixed-size UTF-16
//! buffers, and an aggregator that assembles one partition record per
//! mounted letter, tolerating volumes that are mounted but not ready.

pub mod win_api;
pub mod windows_partitions;
