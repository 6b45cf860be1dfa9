//! Virtualized and containerized environments: their kinds, the limits they impose,
//! and the security advice that follows from them.
use vstd::prelude::*;
use std::collections::HashMap;
use crate::protocol::string_views;
use crate::text::{chars_of, contains_lit, has_sub, lowercase, owned, to_lowercase};

verus! {

/// Type of virtualization environment.
#[derive(Debug, Clone, PartialEq, Eq, Structural)]
pub enum VirtualizationType {
    /// Running on bare metal
    Native,
    /// Docker container
    Docker,
    /// Kubernetes pod
    Kubernetes,
    /// LXC/LXD container
    LXC,
    /// Podman container
    Podman,
    /// Full virtual machine
    VirtualMachine,
    /// Windows Subsystem for Linux
    WSL,
    /// Windows Subsystem for Linux 2
    WSL2,
    /// Wine compatibility layer
    Wine,
    /// macOS virtualization
    MacOSVirtualization,
    /// Unknown virtualization
    Unknown,
}

pub open spec fn virtualization_type_label(v: VirtualizationType) -> Seq<char> {
    match v {
        VirtualizationType::Native => "Native"@,
        VirtualizationType::Docker => "Docker"@,
        VirtualizationType::Kubernetes => "Kubernetes"@,
        VirtualizationType::LXC => "LXC"@,
        VirtualizationType::Podman => "Podman"@,
        VirtualizationType::VirtualMachine => "Virtual Machine"@,
        VirtualizationType::WSL => "WSL"@,
        VirtualizationType::WSL2 => "WSL2"@,
        VirtualizationType::Wine => "Wine"@,
        VirtualizationType::MacOSVirtualization => "macOS Virtualization"@,
        VirtualizationType::Unknown => "Unknown"@,
    }
}

impl VirtualizationType {
    /// The display name.
    pub fn label(&self) -> (r: String)
        ensures
            r@ == virtualization_type_label(*self),
    {
        match self {
            VirtualizationType::Native => owned("Native"),
            VirtualizationType::Docker => owned("Docker"),
            VirtualizationType::Kubernetes => owned("Kubernetes"),
            VirtualizationType::LXC => owned("LXC"),
            VirtualizationType::Podman => owned("Podman"),
            VirtualizationType::VirtualMachine => owned("Virtual Machine"),
            VirtualizationType::WSL => owned("WSL"),
            VirtualizationType::WSL2 => owned("WSL2"),
            VirtualizationType::Wine => owned("Wine"),
            VirtualizationType::MacOSVirtualization => owned("macOS Virtualization"),
            VirtualizationType::Unknown => owned("Unknown"),
        }
    }
}

/// Container isolation level.
#[derive(Debug, Clone, PartialEq, Eq, Structural)]
pub enum IsolationLevel {
    /// Full isolation
    Full,
    /// Partial isolation
    Partial,
    /// Minimal isolation
    Minimal,
    /// No isolation (dangerous)
    Unisolated,
}

/// Access control type.
#[derive(Debug, Clone, PartialEq, Eq, Structural)]
pub enum AccessType {
    Allow,
    Deny,
}

/// Type of GPU passthrough.
#[derive(Debug, Clone, PartialEq, Eq, Structural)]
pub enum GPUPassthroughType {
    /// Full GPU passthrough
    Full,
    /// SR-IOV virtual functions
    SRIOV,
    /// GPU sharing/virtualization
    Shared,
    /// Software-only GPU emulation
    Emulated,
    /// No GPU access
    NoAccess,
}

/// Security features enabled in virtualization.
#[derive(Debug, Clone, PartialEq, Eq, Structural)]
pub enum SecurityFeature {
    /// Secure Boot enabled
    SecureBoot,
    /// Intel TXT/AMD SVM
    TrustedExecution,
    /// Intel VT-d/AMD-Vi
    IOMMU,
    /// Kernel Guard Technology
    KGT,
    /// Control Flow Integrity
    CFI,
    /// Address Space Layout Randomization
    ASLR,
    /// Data Execution Prevention
    DEP,
    /// Hypervisor-protected Code Integrity
    HVCI,
    /// Memory Protection Keys
    MPK,
    /// Intel CET
    CET,
}

/// Security context for containers.
#[derive(Debug, Clone)]
pub struct SecurityContext {
    /// Running as privileged container
    pub privileged: bool,
    /// User namespace mapping
    pub user_namespace: bool,
    /// AppArmor/SELinux profile
    pub security_profile: Option<String>,
    /// Capabilities granted
    pub capabilities: Vec<String>,
    /// Resource isolation level
    pub isolation_level: IsolationLevel,
}

/// Container runtime information.
#[derive(Debug, Clone)]
pub struct ContainerRuntime {
    /// Runtime name (docker, containerd, cri-o, etc.)
    pub name: String,
    pub version: Option<String>,
    pub container_id: Option<String>,
    pub image: Option<String>,
    /// Container orchestrator (if any)
    pub orchestrator: Option<String>,
    pub security_context: SecurityContext,
}

/// Memory resource limits.
#[derive(Debug, Clone)]
pub struct MemoryLimits {
    pub max_memory_bytes: Option<u64>,
    pub max_swap_bytes: Option<u64>,
    pub reservation_bytes: Option<u64>,
    pub oom_kill_disabled: bool,
    pub numa_policy: Option<String>,
}

/// I/O resource limits.
#[derive(Debug, Clone)]
pub struct IOLimits {
    pub max_read_iops: Option<u64>,
    pub max_write_iops: Option<u64>,
    /// Maximum read bandwidth (bytes/sec)
    pub max_read_bps: Option<u64>,
    /// Maximum write bandwidth (bytes/sec)
    pub max_write_bps: Option<u64>,
    /// Block device weights
    pub device_weights: HashMap<String, u32>,
}

/// Port access restriction.
#[derive(Debug, Clone)]
pub struct PortRestriction {
    /// Port number or range
    pub port: String,
    /// Protocol (TCP/UDP)
    pub protocol: String,
    pub access: AccessType,
}

/// Network resource limits.
#[derive(Debug, Clone)]
pub struct NetworkLimits {
    /// Maximum bandwidth (bits/sec)
    pub max_bandwidth_bps: Option<u64>,
    pub network_namespace: bool,
    pub port_restrictions: Vec<PortRestriction>,
    pub network_policies: Vec<String>,
}

/// GPU access limitations.
#[derive(Debug, Clone)]
pub struct GPULimits {
    pub gpu_access: bool,
    /// Specific GPU devices accessible
    pub accessible_devices: Vec<String>,
    /// GPU memory limits by device
    pub memory_limits: HashMap<String, u64>,
    /// Compute capability restrictions
    pub capability_restrictions: Vec<String>,
}

/// A device passed through to a guest.
#[derive(Debug, Clone)]
pub struct PassthroughDevice {
    pub device_id: String,
    pub device_name: String,
    pub pci_address: Option<String>,
    pub driver: Option<String>,
}

impl VirtualizationType {
    /// Whether this is any virtualized environment.
    pub fn is_virtualized(&self) -> (r: bool)
        ensures
            r == !(*self is Native),
    {
        match self {
            VirtualizationType::Native => false,
            _ => true,
        }
    }

    /// Whether this is a container: Docker, Kubernetes, LXC or Podman.
    pub fn is_containerized(&self) -> (r: bool)
        ensures
            r == (*self is Docker || *self is Kubernetes || *self is LXC || *self is Podman),
    {
        match self {
            VirtualizationType::Docker | VirtualizationType::Kubernetes | VirtualizationType::LXC
            | VirtualizationType::Podman => true,
            _ => false,
        }
    }

    /// Whether this is a virtual machine: a full VM, WSL or WSL2.
    pub fn is_virtual_machine(&self) -> (r: bool)
        ensures
            r == (*self is VirtualMachine || *self is WSL || *self is WSL2),
    {
        match self {
            VirtualizationType::VirtualMachine | VirtualizationType::WSL
            | VirtualizationType::WSL2 => true,
            _ => false,
        }
    }
}

/// The environment from the checks made in turn: a Docker marker, a Kubernetes
/// service, WSL, a virtual machine; the first that holds decides, else native.
pub fn environment_type_from(docker: bool, kubernetes: bool, wsl: bool, virtual_machine: bool) -> (r:
    VirtualizationType)
    ensures
        r == (if docker {
            VirtualizationType::Docker
        } else if kubernetes {
            VirtualizationType::Kubernetes
        } else if wsl {
            VirtualizationType::WSL
        } else if virtual_machine {
            VirtualizationType::VirtualMachine
        } else {
            VirtualizationType::Native
        }),
{
    if docker {
        VirtualizationType::Docker
    } else if kubernetes {
        VirtualizationType::Kubernetes
    } else if wsl {
        VirtualizationType::WSL
    } else if virtual_machine {
        VirtualizationType::VirtualMachine
    } else {
        VirtualizationType::Native
    }
}

/// Whether a kernel version string marks WSL: it mentions Microsoft, in any case.
pub fn version_marks_wsl(version: &str) -> (r: bool)
    ensures
        r == has_sub(lowercase(version@), "microsoft"@),
{
    let lower = to_lowercase(version);
    let v = chars_of(lower.as_str());
    contains_lit(v.as_slice(), "microsoft")
}

/// Whether `features` includes Secure Boot.
pub open spec fn has_secure_boot(features: Seq<SecurityFeature>) -> bool {
    exists|i: int| 0 <= i < features.len() && features[i] is SecureBoot
}

/// The security advice for an environment, in this order: for a container with a known
/// runtime, on privileged mode, a missing user namespace and a missing security
/// profile; for a virtual machine without Secure Boot; for full GPU passthrough.
pub open spec fn security_recommendations_spec(
    env: VirtualizationType,
    runtime: Option<ContainerRuntime>,
    features: Seq<SecurityFeature>,
    passthrough_available: bool,
    passthrough: GPUPassthroughType,
) -> Seq<Seq<char>> {
    let container = env is Docker || env is Kubernetes || env is LXC || env is Podman;
    let vm = env is VirtualMachine || env is WSL || env is WSL2;
    (match runtime {
        Some(rt) => if container {
            (if rt.security_context.privileged {
                seq!["Consider running container in non-privileged mode for better security"@]
            } else {
                Seq::<Seq<char>>::empty()
            }) + (if !rt.security_context.user_namespace {
                seq!["Enable user namespace mapping for better isolation"@]
            } else {
                Seq::<Seq<char>>::empty()
            }) + (if rt.security_context.security_profile is None {
                seq!["Apply AppArmor/SELinux security profile"@]
            } else {
                Seq::<Seq<char>>::empty()
            })
        } else {
            Seq::<Seq<char>>::empty()
        },
        None => Seq::<Seq<char>>::empty(),
    }) + (if vm && !has_secure_boot(features) {
        seq!["Enable Secure Boot for enhanced security"@]
    } else {
        Seq::<Seq<char>>::empty()
    }) + (if passthrough_available && passthrough is Full {
        seq!["GPU passthrough detected - ensure IOMMU isolation is properly configured"@]
    } else {
        Seq::<Seq<char>>::empty()
    })
}

/// Security recommendations for the current environment.
pub fn get_security_recommendations(
    env: &VirtualizationType,
    runtime: Option<&ContainerRuntime>,
    features: &[SecurityFeature],
    passthrough_available: bool,
    passthrough: &GPUPassthroughType,
) -> (r: Vec<String>)
    ensures
        string_views(r@) == security_recommendations_spec(
            *env,
            match runtime {
                Some(rt) => Some(*rt),
                None => None,
            },
            features@,
            passthrough_available,
            *passthrough,
        ),
{
    let mut out: Vec<String> = Vec::new();
    if env.is_containerized() {
        match runtime {
            Some(rt) => {
                if rt.security_context.privileged {
                    out.push(
                        owned("Consider running container in non-privileged mode for better security"),
                    );
                }
                if !rt.security_context.user_namespace {
                    out.push(owned("Enable user namespace mapping for better isolation"));
                }
                if rt.security_context.security_profile.is_none() {
                    out.push(owned("Apply AppArmor/SELinux security profile"));
                }
            },
            None => {},
        }
    }
    let ghost first = string_views(out@);
    if env.is_virtual_machine() {
        let n = features.len();
        let mut i: usize = 0;
        let mut secure_boot = false;
        while i < n
            invariant
                i <= n,
                n == features@.len(),
                secure_boot == (exists|k: int| 0 <= k < i && features@[k] is SecureBoot),
            decreases n - i,
        {
            match features[i] {
                SecurityFeature::SecureBoot => {
                    secure_boot = true;
                },
                _ => {},
            }
            i += 1;
        }
        if !secure_boot {
            out.push(owned("Enable Secure Boot for enhanced security"));
        }
    }
    let full = match passthrough {
        GPUPassthroughType::Full => true,
        _ => false,
    };
    if passthrough_available && full {
        out.push(
            owned("GPU passthrough detected - ensure IOMMU isolation is properly configured"),
        );
    }
    proof {
        let rt_view = match runtime {
            Some(rt) => Some(*rt),
            None => None,
        };
        assert(string_views(out@) =~= security_recommendations_spec(
            *env,
            rt_view,
            features@,
            passthrough_available,
            *passthrough,
        ));
    }
    out
}

} // verus!
