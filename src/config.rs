use vstd::prelude::*;

verus! {

/// Configuration of a whole virtual machine.
#[derive(Clone, Debug)]
pub struct VmConfig {
    pub vcpus: u8,
    pub memory_size: u64,
    pub kernel: Option<String>,
    pub cmdline: String,
}

/// A passthrough device to hot-plug.
#[derive(Clone, Debug)]
pub struct DeviceConfig {
    pub path: String,
    pub iommu: bool,
    pub id: Option<String>,
}

/// A block device to hot-plug.
#[derive(Clone, Debug)]
pub struct DiskConfig {
    pub path: String,
    pub readonly: bool,
    pub id: Option<String>,
}

/// A shared file system to hot-plug.
#[derive(Clone, Debug)]
pub struct FsConfig {
    pub tag: String,
    pub socket: String,
    pub id: Option<String>,
}

/// A persistent memory device to hot-plug.
#[derive(Clone, Debug)]
pub struct PmemConfig {
    pub file: String,
    pub size: u64,
    pub id: Option<String>,
}

/// A network device to hot-plug.
#[derive(Clone, Debug)]
pub struct NetConfig {
    pub tap: Option<String>,
    pub id: Option<String>,
}

/// A vsock device to hot-plug.
#[derive(Clone, Debug)]
pub struct VsockConfig {
    pub cid: u64,
    pub socket: String,
    pub id: Option<String>,
}

} // verus!
