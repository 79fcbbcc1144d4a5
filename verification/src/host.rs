//! The host operating systems the acquisition supports.

use vstd::prelude::*;

use crate::errors::{AcquireError, AcquireErrorModel};

verus! {

/// An operating system on which the compiler can be acquired. Any other
/// host is rejected before discovery or building begins.
#[derive(Clone, Copy, Debug, PartialEq, Eq, Structural)]
pub enum HostOs {
    Linux,
    MacOs,
    Windows,
}

/// Classifies a host name as reported by the toolchain. Exactly the
/// three supported names are accepted; every other host is fatal, with
/// the reported name carried in the error.
pub fn host_os_from_name(name: &str) -> (r: Result<HostOs, AcquireError>)
    ensures
        name@ == "linux"@ ==> r == Ok::<HostOs, AcquireError>(HostOs::Linux),
        name@ == "macos"@ ==> r == Ok::<HostOs, AcquireError>(HostOs::MacOs),
        name@ == "windows"@ ==> r == Ok::<HostOs, AcquireError>(HostOs::Windows),
        name@ != "linux"@ && name@ != "macos"@ && name@ != "windows"@ ==> (r matches Err(e)
            && e@ == AcquireErrorModel::UnsupportedHostOs(name@)),
{
    proof {
        reveal_strlit("linux");
        reveal_strlit("macos");
        reveal_strlit("windows");
        assert("linux"@[0] != "macos"@[0]);
        assert("linux"@ != "macos"@);
    }
    let owned = name.to_owned();
    if owned == String::from_str("linux") {
        Ok(HostOs::Linux)
    } else if owned == String::from_str("macos") {
        Ok(HostOs::MacOs)
    } else if owned == String::from_str("windows") {
        Ok(HostOs::Windows)
    } else {
        Err(AcquireError::UnsupportedHostOs(owned))
    }
}

} // verus!
