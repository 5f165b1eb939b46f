//! The arguments of the requests sent to the service control manager, checked and put in the
//! form it takes: names, start arguments, a description and a preshutdown timeout.
use vstd::prelude::*;

use crate::double_nul_terminated::{first_with_nul, units_of};
use crate::duration::{Duration, NANOS_PER_MILLI};
use crate::error::Error;
use crate::wide::{
    is_nul_free, nul_index, opt_nul_free, opt_units, terminated, to_optional_wide_cstring,
    to_wide_cstring,
};

verus! {

/// Each string with a nul appended.
pub open spec fn all_terminated(s: Seq<Seq<u16>>) -> Seq<Seq<u16>> {
    s.map_values(|v: Seq<u16>| v.push(0u16))
}

/// Checks a service name and appends its nul terminator.
pub fn service_name_wide(name: &[u16]) -> (r: Result<Vec<u16>, Error>)
    ensures
        match r {
            Ok(w) => is_nul_free(name@) && w@ == name@.push(0u16),
            Err(e) => !is_nul_free(name@) && (e matches Error::InvalidServiceName(n) && n.0
                == nul_index(name@)),
        },
{
    match to_wide_cstring(name) {
        Ok(w) => Ok(w),
        Err(e) => Err(Error::InvalidServiceName(e)),
    }
}

/// Checks a service description and appends its nul terminator.
pub fn description_wide(description: &[u16]) -> (r: Result<Vec<u16>, Error>)
    ensures
        match r {
            Ok(w) => is_nul_free(description@) && w@ == description@.push(0u16),
            Err(e) => !is_nul_free(description@) && (e matches Error::InvalidServiceDescription(n)
                && n.0 == nul_index(description@)),
        },
{
    match to_wide_cstring(description) {
        Ok(w) => Ok(w),
        Err(e) => Err(Error::InvalidServiceDescription(e)),
    }
}

/// Checks the machine name of a connection, if any, and appends its nul terminator; `None`
/// connects to the local machine.
pub fn machine_name_wide(machine: &Option<Vec<u16>>) -> (r: Result<Option<Vec<u16>>, Error>)
    ensures
        match r {
            Ok(w) => opt_nul_free(*machine) && opt_units(w) == terminated(opt_units(*machine)),
            Err(e) => !opt_nul_free(*machine) && e is InvalidMachineName,
        },
{
    match to_optional_wide_cstring(machine) {
        Ok(w) => Ok(w),
        Err(e) => Err(Error::InvalidMachineName(e)),
    }
}

/// Checks the database name of a connection, if any, and appends its nul terminator; `None`
/// connects to the active database.
pub fn database_name_wide(database: &Option<Vec<u16>>) -> (r: Result<Option<Vec<u16>>, Error>)
    ensures
        match r {
            Ok(w) => opt_nul_free(*database) && opt_units(w) == terminated(opt_units(*database)),
            Err(e) => !opt_nul_free(*database) && e is InvalidDatabaseName,
        },
{
    match to_optional_wide_cstring(database) {
        Ok(w) => Ok(w),
        Err(e) => Err(Error::InvalidDatabaseName(e)),
    }
}

/// Checks the arguments of a start request and appends a nul terminator to each; the first
/// argument that holds a nul is an error.
pub fn start_arguments_wide(arguments: &[Vec<u16>]) -> (r: Result<Vec<Vec<u16>>, Error>)
    ensures
        match r {
            Ok(w) => units_of(w@) == all_terminated(units_of(arguments@)),
            Err(e) => exists|i: int|
                first_with_nul(units_of(arguments@), i) && (e matches Error::InvalidStartArgument(
                    n,
                ) && n.0 == nul_index(arguments@[i]@)),
        },
        r is Ok <==> forall|i: int|
            0 <= i < arguments@.len() ==> is_nul_free(#[trigger] arguments@[i]@),
{
    let ghost args = units_of(arguments@);
    let mut out: Vec<Vec<u16>> = Vec::new();
    let mut i: usize = 0;
    while i < arguments.len()
        invariant
            i <= arguments@.len(),
            args == units_of(arguments@),
            units_of(out@) == all_terminated(args.subrange(0, i as int)),
            forall|j: int| 0 <= j < i ==> is_nul_free(#[trigger] arguments@[j]@),
        decreases arguments@.len() - i,
    {
        match to_wide_cstring(arguments[i].as_slice()) {
            Ok(w) => {
                let ghost before = out@;
                out.push(w);
                assert(units_of(out@) =~= units_of(before).push(w@));
                assert(all_terminated(args.subrange(0, i + 1)) =~= all_terminated(
                    args.subrange(0, i as int),
                ).push(args[i as int].push(0u16)));
            },
            Err(e) => {
                assert(first_with_nul(args, i as int));
                return Err(Error::InvalidStartArgument(e));
            },
        }
        i = i + 1;
    }
    assert(args.subrange(0, i as int) =~= args);
    Ok(out)
}

/// The preshutdown timeout as the record's `u32` of milliseconds; it must fit there.
pub fn preshutdown_timeout_millis(timeout: Duration) -> (r: u32)
    requires
        timeout@ / (NANOS_PER_MILLI as nat) <= u32::MAX,
    ensures
        r as nat == timeout@ / (NANOS_PER_MILLI as nat),
{
    timeout.as_millis() as u32
}

} // verus!
