//! The names under which a profile's operations are exposed, and the port
//! on which a numbered instance listens.

use vstd::prelude::*;
use vstd::string::StringExecFns;

verus! {

/// The port of instance number zero.
pub const BASE_PORT: u16 = 9000;

/// The name of a profile's query operation.
pub fn query_field_for(profile: &str) -> (name: String)
    ensures
        name@ == profile@ + "QueryValue"@,
{
    let mut name = String::from_str(profile);
    name.append("QueryValue");
    name
}

/// The name of a profile's mutation operation.
pub fn mutation_field_for(profile: &str) -> (name: String)
    ensures
        name@ == profile@ + "IncrementValue"@,
{
    let mut name = String::from_str(profile);
    name.append("IncrementValue");
    name
}

/// The name of a profile's subscription operation.
pub fn subscription_field_for(profile: &str) -> (name: String)
    ensures
        name@ == profile@ + "OnValueChange"@,
{
    let mut name = String::from_str(profile);
    name.append("OnValueChange");
    name
}

/// The port of instance `number`, where there is one: the base port plus
/// the number, as long as that is a port.
pub fn port_for(number: u16) -> (port: Option<u16>)
    ensures
        port == if BASE_PORT + number <= u16::MAX {
            Some((BASE_PORT + number) as u16)
        } else {
            None
        },
{
    if number <= u16::MAX - BASE_PORT {
        Some(BASE_PORT + number)
    } else {
        None
    }
}

} // verus!
