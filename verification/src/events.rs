//! Container notifications.

use std::collections::HashMap;
use vstd::prelude::*;

verus! {

/// What a notification reports
#[derive(Debug, Clone)]
pub enum EventType {
    /// Statistics
    Stats,
    /// Out of memory
    OOM,
}

/// A notification of a container
#[derive(Debug, Clone)]
pub struct Event {
    /// Event type
    pub event_type: Option<EventType>,
    /// Contained id
    pub id: Option<String>,
    /// Event data payload (only for statistics)
    pub stats: Option<Stats>,
}

/// Statistics of a container
#[derive(Debug, Clone)]
pub struct Stats {
    /// CPU usage and throttling
    pub cpu: Option<Cpu>,
    /// Memory usage and limits
    pub memory: Option<Memory>,
    /// Pid count and limits
    pub pids: Option<Pids>,
    /// Disk IO usage and limits
    pub blk_io: Option<Blkio>,
    /// Huge memory pages
    pub huge_tlb: Option<HashMap<String, HugeTlb>>,
}

/// CPU time
#[derive(Debug, Clone)]
pub struct CpuUsage {
    /// Total CPU time consumed
    pub total: Option<u64>,
    /// Total CPU time consumed per core
    pub percpu: Option<Vec<u64>>,
    /// Time spent by tasks in kernel mode
    pub kernel: Option<u64>,
    /// Time spent by tasks in user mode
    pub user: Option<u64>,
}

/// CPU throttling
#[derive(Debug, Clone)]
pub struct Throttling {
    /// Number of periods with throttling active
    pub periods: Option<u64>,
    /// Number of periods when the container hit its throttling limit
    pub throttled_periods: Option<u64>,
    /// Aggregate time the container was throttled for in nanoseconds
    pub throttled_time: Option<u64>,
}

/// CPU statistics
#[derive(Debug, Clone)]
pub struct Cpu {
    pub usage: Option<CpuUsage>,
    pub throttling: Option<Throttling>,
}

/// One account of memory
#[derive(Debug, Clone)]
pub struct MemoryEntry {
    /// Limit in bytes
    pub limit: Option<u64>,
    /// Usage in bytes
    pub usage: Option<u64>,
    /// Maximum usage in bytes
    pub max: Option<u64>,
    /// Memory allocation failures
    pub fail_count: Option<u64>,
}

/// Memory statistics
#[derive(Debug, Clone)]
pub struct Memory {
    /// Memory used for cache
    pub cache: Option<u64>,
    /// Usage of memory
    pub usage: Option<MemoryEntry>,
    /// Usage of memory + swap
    pub swap: Option<MemoryEntry>,
    /// Usage of kernel memory
    pub kernel: Option<MemoryEntry>,
    /// Usage of kernel TCP memory
    pub kernel_tcp: Option<MemoryEntry>,
    /// Raw memory statistics
    pub raw: Option<HashMap<String, u64>>,
}

/// Process counts
#[derive(Debug, Clone)]
pub struct Pids {
    /// Number of pids in the cgroup
    pub current: Option<u64>,
    /// Active pids hard limit
    pub limit: Option<u64>,
}

/// One count of disk IO
#[derive(Debug, Clone)]
pub struct BlkioEntry {
    pub major: Option<u64>,
    pub minor: Option<u64>,
    pub op: Option<String>,
    pub value: Option<u64>,
}

/// Disk IO statistics
#[derive(Debug, Clone)]
pub struct Blkio {
    /// Number of bytes transferred to and from the disk
    pub io_service_bytes_recursive: Option<Vec<BlkioEntry>>,
    /// Number of io requests issued to the disk
    pub io_serviced_recursive: Option<Vec<BlkioEntry>>,
    /// Number of queued disk io requests
    pub io_queued_recursive: Option<Vec<BlkioEntry>>,
    /// Amount of time io requests took to service
    pub io_service_time_recursive: Option<Vec<BlkioEntry>>,
    /// Amount of time io requests spent waiting in the queue
    pub io_wait_time_recursive: Option<Vec<BlkioEntry>>,
    /// Number of merged io requests
    pub io_merged_recursive: Option<Vec<BlkioEntry>>,
    /// Disk time allocated the device
    pub io_time_recursive: Option<Vec<BlkioEntry>>,
    /// Number of sectors transferred to and from the io device
    pub sectors_recursive: Option<Vec<BlkioEntry>>,
}

/// Huge page statistics
#[derive(Debug, Clone)]
pub struct HugeTlb {
    /// Current res_counter usage for hugetlb
    pub usage: Option<u64>,
    /// Maximum usage ever recorded
    pub max: Option<u64>,
    /// Number of allocation failures
    pub fail_count: Option<u64>,
}

} // verus!
