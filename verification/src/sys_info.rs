//! What is told about the machine.

use vstd::prelude::*;

verus! {

#[derive(Debug, PartialEq, Eq)]
pub struct SystemInfo {
    /// The machine's identifier.
    pub hwid: String,
    pub os_type: String,
    pub os_ver: String,
}

/// What stands for the identifier of a machine that has none to give.
pub open spec fn unknown_hwid() -> Seq<char> {
    "unknown_hwid"@
}

impl Clone for SystemInfo {
    fn clone(&self) -> (copy: Self)
        ensures
            copy.hwid@ == self.hwid@,
            copy.os_type@ == self.os_type@,
            copy.os_ver@ == self.os_ver@,
    {
        SystemInfo {
            hwid: self.hwid.clone(),
            os_type: self.os_type.clone(),
            os_ver: self.os_ver.clone(),
        }
    }
}

/// Puts together what was found out about the machine. `hwid` is `None`
/// where the machine's identifier could not be read.
pub fn get_system_info(hwid: Option<String>, os_type: String, os_ver: String) -> (info: SystemInfo)
    ensures
        info.hwid@ == (match hwid {
            Some(id) => id@,
            None => unknown_hwid(),
        }),
        info.os_type@ == os_type@,
        info.os_ver@ == os_ver@,
{
    SystemInfo {
        hwid: match hwid {
            Some(id) => id,
            None => "unknown_hwid".to_owned(),
        },
        os_type,
        os_ver,
    }
}

} // verus!
