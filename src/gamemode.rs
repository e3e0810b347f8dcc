use vstd::prelude::*;

use crate::errors::Error;

verus! {

/// The process id as the registration call carries it: a signed 32-bit
/// integer with the same bits.
pub open spec fn registration_arg_of(pid: u32) -> i32 {
    if pid <= i32::MAX {
        pid as i32
    } else {
        (pid - 0x1_0000_0000) as i32
    }
}

/// The argument of the registration call for this process.
pub fn registration_arg(pid: u32) -> (r: i32)
    ensures
        r == registration_arg_of(pid),
        pid <= i32::MAX ==> r == pid,
{
    if pid <= i32::MAX as u32 {
        pid as i32
    } else {
        let below: u32 = pid - 0x8000_0000u32;
        (below as i32) - 0x7fff_ffffi32 - 1
    }
}

/// What the registration call's result code means: zero is success, any other
/// code a refusal.
pub fn registration_outcome(code: i32) -> (r: Result<(), Error>)
    ensures
        code == 0 <==> r is Ok,
        code != 0 ==> r == Err::<(), Error>(Error::Other("Failed to register pid for gamemode")),
{
    if code != 0 {
        Err(Error::Other("Failed to register pid for gamemode"))
    } else {
        Ok(())
    }
}

} // verus!
