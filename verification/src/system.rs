use vstd::prelude::*;

verus! {

/// Calls that manage processes; no real one is defined yet.
pub enum ProcessControlCall {
    Unspecified,
}

/// Calls that manipulate files; no real one is defined yet.
pub enum FileManipulationCall {
    Unspecified,
}

/// Calls that manipulate devices; no real one is defined yet.
pub enum DeviceManipulationCall {
    Unspecified,
}

/// Calls that read or maintain system information; no real one is defined
/// yet.
pub enum InformationMaintenanceCall {
    Unspecified,
}

/// Calls that communicate between processes; no real one is defined yet.
pub enum CommunicationCall {
    Unspecified,
}

/// The classes a system call falls into.
pub enum CallType {
    ProcessControl(ProcessControlCall),
    FileManipulation(FileManipulationCall),
    DeviceManipulation(DeviceManipulationCall),
    InformationMaintenance(InformationMaintenanceCall),
    Communication(CommunicationCall),
    Undefined(),
}

/// Dispatches a system call to its class's handler. No class has handlers
/// yet, so every call returns with nothing done.
pub fn syscall(t: CallType) {
    match t {
        CallType::ProcessControl(_pcc) => {},
        CallType::FileManipulation(_fmc) => {},
        CallType::DeviceManipulation(_dmc) => {},
        CallType::InformationMaintenance(_imc) => {},
        CallType::Communication(_cc) => {},
        CallType::Undefined() => {},
    }
}

} // verus!
