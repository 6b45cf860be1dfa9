use vstd::prelude::*;

verus! {

/// `serde_json::Error`, carried by an error of this library.
#[verifier::external_type_specification]
#[verifier::external_body]
pub struct ExJsonError(serde_json::Error);

/// Errors that can occur while querying hardware.
#[derive(Debug)]
pub enum HardwareQueryError {
    SystemInfoUnavailable(String),
    DeviceNotFound(String),
    PlatformNotSupported(String),
    PermissionDenied(String),
    IoError(std::io::Error),
    SerializationError(serde_json::Error),
    GPUDriverError(String),
    InvalidConfiguration(String),
    MonitoringError(String),
    PowerManagementError(String),
    VirtualizationError(String),
    ThermalError(String),
    Unknown(String),
}

/// The result of a hardware query.
pub type Result<T> = std::result::Result<T, HardwareQueryError>;

impl HardwareQueryError {
    pub fn system_info_unavailable(msg: String) -> (r: Self)
        ensures
            r matches HardwareQueryError::SystemInfoUnavailable(m) && m == msg,
    {
        HardwareQueryError::SystemInfoUnavailable(msg)
    }

    pub fn device_not_found(msg: String) -> (r: Self)
        ensures
            r matches HardwareQueryError::DeviceNotFound(m) && m == msg,
    {
        HardwareQueryError::DeviceNotFound(msg)
    }

    pub fn platform_not_supported(msg: String) -> (r: Self)
        ensures
            r matches HardwareQueryError::PlatformNotSupported(m) && m == msg,
    {
        HardwareQueryError::PlatformNotSupported(msg)
    }

    pub fn permission_denied(msg: String) -> (r: Self)
        ensures
            r matches HardwareQueryError::PermissionDenied(m) && m == msg,
    {
        HardwareQueryError::PermissionDenied(msg)
    }

    pub fn gpu_driver_error(msg: String) -> (r: Self)
        ensures
            r matches HardwareQueryError::GPUDriverError(m) && m == msg,
    {
        HardwareQueryError::GPUDriverError(msg)
    }

    pub fn invalid_configuration(msg: String) -> (r: Self)
        ensures
            r matches HardwareQueryError::InvalidConfiguration(m) && m == msg,
    {
        HardwareQueryError::InvalidConfiguration(msg)
    }

    pub fn monitoring_error(msg: String) -> (r: Self)
        ensures
            r matches HardwareQueryError::MonitoringError(m) && m == msg,
    {
        HardwareQueryError::MonitoringError(msg)
    }

    pub fn power_management_error(msg: String) -> (r: Self)
        ensures
            r matches HardwareQueryError::PowerManagementError(m) && m == msg,
    {
        HardwareQueryError::PowerManagementError(msg)
    }

    pub fn virtualization_error(msg: String) -> (r: Self)
        ensures
            r matches HardwareQueryError::VirtualizationError(m) && m == msg,
    {
        HardwareQueryError::VirtualizationError(msg)
    }

    pub fn thermal_error(msg: String) -> (r: Self)
        ensures
            r matches HardwareQueryError::ThermalError(m) && m == msg,
    {
        HardwareQueryError::ThermalError(msg)
    }

    pub fn unknown(msg: String) -> (r: Self)
        ensures
            r matches HardwareQueryError::Unknown(m) && m == msg,
    {
        HardwareQueryError::Unknown(msg)
    }
}

} // verus!
