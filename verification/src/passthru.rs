//! Pass-thru (J2534) devices installed on a machine: the description of a device and
//! how an entry describing it is read.

use vstd::prelude::*;
use vstd::string::*;
use crate::text::push_str;

verus! {

/// Versions reported by a pass-thru driver.
#[derive(Debug, Clone)]
pub struct DrvVersion {
    /// Library (DLL) Version
    pub dll_version: String,
    /// Passthru API Version (Only V04.04 is supported currently!)
    pub api_version: String,
    /// Device Firmware version
    pub fw_version: String,
}

/// An installed pass-thru device.
#[derive(Debug, Clone)]
pub struct PassthruDevice {
    /// Driver path
    pub drv_path: String,
    /// Name of passthru device
    pub name: String,
    /// Vendor of passthru device
    pub vendor: String,
    /// Device CAN support?
    pub can: bool,
    /// Device ISO15765 (Over CAN) support
    pub iso15765: bool,
    /// Device ISO9141 support
    pub iso9141: bool,
    /// Device ISO14230 support (KWP2000)
    pub iso14230: bool,
    /// Device SCI A Transmission support
    pub sci_a_trans: bool,
    /// Device SCI A Engine support
    pub sci_a_engine: bool,
    /// Device SCI B Transmission support
    pub sci_b_trans: bool,
    /// Device SCI B Engine support
    pub sci_b_engine: bool,
    /// Device J1850VPW support
    pub j1850vpw: bool,
    /// Device J1850PWM support
    pub j1850pwm: bool,
}

/// Why a device entry could not be loaded.
#[derive(Debug, Clone)]
pub enum LoadDeviceError {
    /// Device entry contains no name
    NoName,
    /// Device entry contains no vendor
    NoVendor,
    /// Device entry contains no library
    NoFunctionLib,
    /// Permission error reading JSON (UNIX Only)
    NoPermission,
    /// Malformed JSON (UNIX Only)
    InvalidJSON,
    /// Unknown IO Error
    IoError(String),
    /// library load failed
    LibLoadError(String),
    /// No Passthru devices found
    NoDeviceFound,
}

/// The description of a load error.
pub open spec fn load_error_text(e: LoadDeviceError) -> Seq<char> {
    match e {
        LoadDeviceError::NoName => "No device name attribute"@,
        LoadDeviceError::NoVendor => "No device vendor attribute"@,
        LoadDeviceError::NoFunctionLib => "No device function library attribute"@,
        LoadDeviceError::NoPermission => "No permission reading device attributes"@,
        LoadDeviceError::InvalidJSON => "Device JSON File malformed"@,
        LoadDeviceError::IoError(e) => "IO Error: "@ + e@,
        LoadDeviceError::LibLoadError(e) => "Library load error: "@ + e@,
        LoadDeviceError::NoDeviceFound => "No devices found on machine"@,
    }
}

impl LoadDeviceError {
    /// A description of the error.
    pub fn get_err_desc(&self) -> (r: String)
        ensures
            r@ == load_error_text(*self),
    {
        let (prefix, detail): (&str, &String) = match self {
            LoadDeviceError::NoName => return String::from_str("No device name attribute"),
            LoadDeviceError::NoVendor => return String::from_str("No device vendor attribute"),
            LoadDeviceError::NoFunctionLib => return String::from_str("No device function library attribute"),
            LoadDeviceError::NoPermission => return String::from_str("No permission reading device attributes"),
            LoadDeviceError::InvalidJSON => return String::from_str("Device JSON File malformed"),
            LoadDeviceError::IoError(e) => ("IO Error: ", e),
            LoadDeviceError::LibLoadError(e) => ("Library load error: ", e),
            LoadDeviceError::NoDeviceFound => return String::from_str("No devices found on machine"),
        };
        let mut s = String::new();
        push_str(&mut s, prefix);
        push_str(&mut s, detail.as_str());
        s
    }
}

pub type DeviceError<T> = Result<T, LoadDeviceError>;

/// The protocol flags of a device entry; a flag that is missing or not a boolean reads
/// as false.
#[derive(Debug, Clone, Copy, PartialEq, Eq, Structural)]
pub struct DeviceFlags {
    pub can: bool,
    pub iso15765: bool,
    pub iso9141: bool,
    pub iso14230: bool,
    pub sci_a_trans: bool,
    pub sci_a_engine: bool,
    pub sci_b_trans: bool,
    pub sci_b_engine: bool,
    pub j1850vpw: bool,
    pub j1850pwm: bool,
}

/// Builds a device from the attributes of its entry. The function library is checked
/// first, then the name, then the vendor: the first one missing is the error.
pub fn device_from_entry(
    function_lib: Option<String>,
    name: Option<String>,
    vendor: Option<String>,
    flags: DeviceFlags,
) -> (r: DeviceError<PassthruDevice>)
    ensures
        function_lib is None ==> r matches Err(LoadDeviceError::NoFunctionLib),
        function_lib is Some && name is None ==> r matches Err(LoadDeviceError::NoName),
        function_lib is Some && name is Some && vendor is None ==> r matches Err(LoadDeviceError::NoVendor),
        function_lib matches Some(l) ==> name matches Some(n) ==> vendor matches Some(v) ==> (r matches Ok(d)
            && d.drv_path@ == l@ && d.name@ == n@ && d.vendor@ == v@
            && d.can == flags.can && d.iso15765 == flags.iso15765 && d.iso9141 == flags.iso9141
            && d.iso14230 == flags.iso14230 && d.sci_a_trans == flags.sci_a_trans
            && d.sci_a_engine == flags.sci_a_engine && d.sci_b_trans == flags.sci_b_trans
            && d.sci_b_engine == flags.sci_b_engine && d.j1850vpw == flags.j1850vpw
            && d.j1850pwm == flags.j1850pwm),
{
    let lib = match function_lib {
        Some(s) => s,
        None => return Err(LoadDeviceError::NoFunctionLib),
    };
    let name = match name {
        Some(s) => s,
        None => return Err(LoadDeviceError::NoName),
    };
    let vend = match vendor {
        Some(s) => s,
        None => return Err(LoadDeviceError::NoVendor),
    };
    Ok(PassthruDevice {
        drv_path: lib,
        name,
        vendor: vend,
        can: flags.can,
        iso15765: flags.iso15765,
        iso9141: flags.iso9141,
        iso14230: flags.iso14230,
        sci_a_trans: flags.sci_a_trans,
        sci_a_engine: flags.sci_a_engine,
        sci_b_trans: flags.sci_b_trans,
        sci_b_engine: flags.sci_b_engine,
        j1850vpw: flags.j1850vpw,
        j1850pwm: flags.j1850pwm,
    })
}

/// The devices that loaded, in order.
pub open spec fn loaded_devices(entries: Seq<DeviceError<PassthruDevice>>) -> Seq<PassthruDevice>
    decreases entries.len(),
{
    if entries.len() == 0 {
        Seq::empty()
    } else {
        let before = loaded_devices(entries.drop_last());
        match entries.last() {
            Ok(d) => before.push(d),
            Err(_) => before,
        }
    }
}

/// Keeps the device entries that loaded, discarding the others; finding none is an error.
pub fn collect_devices(entries: Vec<DeviceError<PassthruDevice>>) -> (r: DeviceError<Vec<PassthruDevice>>)
    ensures
        loaded_devices(entries@).len() == 0 ==> r matches Err(LoadDeviceError::NoDeviceFound),
        loaded_devices(entries@).len() > 0 ==> (r matches Ok(v) && v@ == loaded_devices(entries@)),
{
    let n = entries.len();
    let ghost all = entries@;
    let mut rest = entries;
    let mut out: Vec<PassthruDevice> = Vec::new();
    let mut i: usize = 0;
    while rest.len() > 0
        invariant
            i <= all.len(),
            all.len() == n,
            rest@ == all.subrange(i as int, all.len() as int),
            out@ == loaded_devices(all.subrange(0, i as int)),
        decreases rest@.len(),
    {
        let e = rest.remove(0);
        proof {
            assert(all.subrange(0, i + 1).drop_last() =~= all.subrange(0, i as int));
            assert(e == all[i as int]);
        }
        match e {
            Ok(d) => out.push(d),
            Err(_) => {},
        }
        assert(rest@ =~= all.subrange(i + 1, all.len() as int));
        i = i + 1;
    }
    assert(all.subrange(0, all.len() as int) =~= all);
    if out.len() == 0 {
        Err(LoadDeviceError::NoDeviceFound)
    } else {
        Ok(out)
    }
}

} // verus!
