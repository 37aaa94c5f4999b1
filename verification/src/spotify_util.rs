use vstd::prelude::*;
use vstd::std_specs::convert::FromSpecImpl;

use crate::access_token_provider::AtpError;

verus! {

/// A Spotify Connect device.
#[derive(Debug, Clone, PartialEq, Eq)]
pub struct Device {
    pub id: String,
    pub name: String,
    pub is_active: bool,
}

/// Why a device lookup failed.
#[derive(Debug)]
pub enum JukeboxError {
    DeviceNotFound { device_name: String },
    TokenRetrieval { err: AtpError },
    HttpError { message: String },
    DeserializationFailed { message: String },
}

impl From<AtpError> for JukeboxError {
    fn from(err: AtpError) -> (r: JukeboxError) {
        JukeboxError::TokenRetrieval { err }
    }
}

impl FromSpecImpl<AtpError> for JukeboxError {
    open spec fn obeys_from_spec() -> bool {
        true
    }

    open spec fn from_spec(v: AtpError) -> JukeboxError {
        JukeboxError::TokenRetrieval { err: v }
    }
}

/// Whether `i` is the position of the first device named `name`.
pub open spec fn first_named(devices: Seq<Device>, name: Seq<char>, i: int) -> bool {
    &&& 0 <= i < devices.len()
    &&& devices[i].name@ == name
    &&& forall|j: int| 0 <= j < i ==> devices[j].name@ != name
}

/// The first of the devices with the given name.
pub fn find_device_by_name(devices: Vec<Device>, device_name: &str) -> (r: Result<
    Device,
    JukeboxError,
>)
    ensures
        match r {
            Ok(dev) => exists|i: int| first_named(devices@, device_name@, i) && dev == devices@[i],
            Err(JukeboxError::DeviceNotFound { device_name: n }) => n@ == device_name@ && forall|
                j: int,
            |
                0 <= j < devices@.len() ==> devices@[j].name@ != device_name@,
            Err(_) => false,
        },
{
    let wanted = device_name.to_owned();
    let mut i: usize = 0;
    while i < devices.len()
        invariant
            wanted@ == device_name@,
            i <= devices@.len(),
            forall|j: int| 0 <= j < i ==> devices@[j].name@ != device_name@,
        decreases devices@.len() - i,
    {
        if devices[i].name == wanted {
            let found = &devices[i];
            let dev = Device {
                id: found.id.clone(),
                name: found.name.clone(),
                is_active: found.is_active,
            };
            proof {
                assert(first_named(devices@, device_name@, i as int));
            }
            return Ok(dev);
        }
        i = i + 1;
    }
    Err(JukeboxError::DeviceNotFound { device_name: wanted })
}

} // verus!
