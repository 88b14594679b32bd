//! The decisions around the motor ABI: how vendor and transport names are
//! normalised, which controller backend and which vendor driver a name
//! selects, which library file a platform loads and where it is looked for.

use vstd::prelude::*;
use crate::text::{concat, normalize_name, normalize_name_exec, str_eq};

verus! {

/// A motor vendor that the ABI has a driver for.
#[derive(Clone, Copy, Debug, PartialEq, Eq, Structural)]
pub enum Vendor {
    Damiao,
    Robstride,
    MyActuator,
    Hexfellow,
    HighTorque,
}

/// A controller backend of the ABI.
#[derive(Clone, Copy, Debug, PartialEq, Eq, Structural)]
pub enum Backend {
    SocketCan,
    SocketCanFd,
    DmSerial,
}

/// How the ABI is to open a controller.
#[derive(Clone, Copy, Debug, PartialEq, Eq, Structural)]
pub enum ControllerOpen {
    SocketCan,
    SocketCanFd,
    DmSerial { baud: u32 },
}

/// The operating system that the ABI library was built for.
#[derive(Clone, Copy, Debug, PartialEq, Eq, Structural)]
pub enum TargetOs {
    Windows,
    MacOs,
    Other,
}

/// Errors of the ABI decisions; each carries the normalised name that was
/// not recognised.
#[derive(Debug)]
pub enum AbiError {
    UnsupportedTransport(String),
    UnsupportedVendor(String),
    LibraryNotFound,
}

/// The text of an error.
pub open spec fn abi_error_text(e: AbiError) -> Seq<char> {
    match e {
        AbiError::UnsupportedTransport(t) => "unsupported motorbridge ABI transport: "@ + t@,
        AbiError::UnsupportedVendor(v) => "unsupported motorbridge ABI vendor: "@ + v@,
        AbiError::LibraryNotFound =>
            "motor ABI artifact not found; run cargo build first or set MOTORBRIDGE_ABI_PATH"@,
    }
}

impl AbiError {
    /// The text of the error (see `abi_error_text`).
    pub fn message(&self) -> (res: String)
        ensures
            res@ == abi_error_text(*self),
    {
        match self {
            AbiError::UnsupportedTransport(t) => concat(
                "unsupported motorbridge ABI transport: ",
                t.as_str(),
            ),
            AbiError::UnsupportedVendor(v) => concat("unsupported motorbridge ABI vendor: ", v.as_str()),
            AbiError::LibraryNotFound => {
                "motor ABI artifact not found; run cargo build first or set MOTORBRIDGE_ABI_PATH".to_owned()
            },
        }
    }
}

/// The vendor that a normalised name denotes.
pub open spec fn vendor_of(n: Seq<char>) -> Option<Vendor> {
    if n == "damiao"@ {
        Some(Vendor::Damiao)
    } else if n == "robstride"@ {
        Some(Vendor::Robstride)
    } else if n == "myactuator"@ {
        Some(Vendor::MyActuator)
    } else if n == "hexfellow"@ {
        Some(Vendor::Hexfellow)
    } else if n == "hightorque"@ {
        Some(Vendor::HighTorque)
    } else {
        None
    }
}

/// The backend that a normalised transport name denotes.
pub open spec fn backend_of(n: Seq<char>) -> Option<Backend> {
    if n == "socketcan"@ || n == "can"@ || n == "auto"@ {
        Some(Backend::SocketCan)
    } else if n == "socketcanfd"@ || n == "canfd"@ {
        Some(Backend::SocketCanFd)
    } else if n == "dmserial"@ || n == "serial"@ {
        Some(Backend::DmSerial)
    } else {
        None
    }
}

/// The serial baud rate used when none is configured.
pub const DEFAULT_SERIAL_BAUD: u32 = 921_600;

/// The canonical form of a vendor name.
pub fn normalize_vendor(vendor: &str) -> (res: String)
    ensures
        res@ == normalize_name(vendor@),
{
    normalize_name_exec(vendor)
}

/// The canonical form of a transport name.
pub fn normalize_transport(transport: &str) -> (res: String)
    ensures
        res@ == normalize_name(transport@),
{
    normalize_name_exec(transport)
}

/// The vendor that an already normalised name denotes.
pub fn vendor_from_normalized(n: &str) -> (res: Option<Vendor>)
    ensures
        res == vendor_of(n@),
{
    if str_eq(n, "damiao") {
        Some(Vendor::Damiao)
    } else if str_eq(n, "robstride") {
        Some(Vendor::Robstride)
    } else if str_eq(n, "myactuator") {
        Some(Vendor::MyActuator)
    } else if str_eq(n, "hexfellow") {
        Some(Vendor::Hexfellow)
    } else if str_eq(n, "hightorque") {
        Some(Vendor::HighTorque)
    } else {
        None
    }
}

/// The backend that an already normalised transport name denotes.
pub fn backend_from_normalized(n: &str) -> (res: Option<Backend>)
    ensures
        res == backend_of(n@),
{
    if str_eq(n, "socketcan") || str_eq(n, "can") || str_eq(n, "auto") {
        Some(Backend::SocketCan)
    } else if str_eq(n, "socketcanfd") || str_eq(n, "canfd") {
        Some(Backend::SocketCanFd)
    } else if str_eq(n, "dmserial") || str_eq(n, "serial") {
        Some(Backend::DmSerial)
    } else {
        None
    }
}

/// The transport names select their backends: `socketcan`, `can` and `auto`
/// a classic CAN controller; `socketcanfd` and `canfd` a CAN FD controller;
/// `dmserial` and `serial` a serial controller; no other name selects one.
pub proof fn transport_names_select_backends(n: Seq<char>)
    ensures
        (n == "socketcan"@ || n == "can"@ || n == "auto"@) <==> backend_of(n) == Some(Backend::SocketCan),
        (n == "socketcanfd"@ || n == "canfd"@) <==> backend_of(n) == Some(Backend::SocketCanFd),
        (n == "dmserial"@ || n == "serial"@) <==> backend_of(n) == Some(Backend::DmSerial),
{
    reveal_strlit("socketcan");
    reveal_strlit("can");
    reveal_strlit("auto");
    reveal_strlit("socketcanfd");
    reveal_strlit("canfd");
    reveal_strlit("dmserial");
    reveal_strlit("serial");
    assert("socketcan"@.len() == 9);
    assert("can"@.len() == 3);
    assert("auto"@.len() == 4);
    assert("socketcanfd"@.len() == 11);
    assert("canfd"@.len() == 5);
    assert("dmserial"@.len() == 8);
    assert("serial"@.len() == 6);
}

/// The vendor names select their drivers, and no other name selects one.
pub proof fn vendor_names_select_drivers(n: Seq<char>)
    ensures
        n == "damiao"@ <==> vendor_of(n) == Some(Vendor::Damiao),
        n == "robstride"@ <==> vendor_of(n) == Some(Vendor::Robstride),
        n == "myactuator"@ <==> vendor_of(n) == Some(Vendor::MyActuator),
        n == "hexfellow"@ <==> vendor_of(n) == Some(Vendor::Hexfellow),
        n == "hightorque"@ <==> vendor_of(n) == Some(Vendor::HighTorque),
{
    reveal_strlit("damiao");
    reveal_strlit("robstride");
    reveal_strlit("myactuator");
    reveal_strlit("hexfellow");
    reveal_strlit("hightorque");
    assert("damiao"@.len() == 6);
    assert("robstride"@.len() == 9);
    assert("myactuator"@.len() == 10);
    assert("hexfellow"@.len() == 9);
    assert("hightorque"@.len() == 10);
    assert("robstride"@[0] != "hexfellow"@[0]);
    assert("myactuator"@[0] != "hightorque"@[0]);
}

/// How a controller for `transport` is opened: the transport name is
/// normalised and must denote a backend; a serial controller runs at `baud`,
/// or at 921600 baud where none is given.
pub fn new_controller(transport: &str, baud: Option<u32>) -> (res: Result<ControllerOpen, AbiError>)
    ensures
        match backend_of(normalize_name(transport@)) {
            Some(Backend::SocketCan) => res matches Ok(ControllerOpen::SocketCan),
            Some(Backend::SocketCanFd) => res matches Ok(ControllerOpen::SocketCanFd),
            Some(Backend::DmSerial) => res matches Ok(ControllerOpen::DmSerial { baud: b })
                && b == (match baud {
                Some(x) => x,
                None => DEFAULT_SERIAL_BAUD,
            }),
            None => res matches Err(AbiError::UnsupportedTransport(n)) && n@ == normalize_name(
                transport@,
            ),
        },
        (normalize_name(transport@) == "socketcan"@ || normalize_name(transport@) == "can"@
            || normalize_name(transport@) == "auto"@) ==> res matches Ok(ControllerOpen::SocketCan),
        (normalize_name(transport@) == "socketcanfd"@ || normalize_name(transport@) == "canfd"@)
            ==> res matches Ok(ControllerOpen::SocketCanFd),
        (normalize_name(transport@) == "dmserial"@ || normalize_name(transport@) == "serial"@)
            ==> res matches Ok(ControllerOpen::DmSerial { .. }),
{
    proof {
        transport_names_select_backends(normalize_name(transport@));
    }
    let t = normalize_transport(transport);
    match backend_from_normalized(t.as_str()) {
        Some(Backend::SocketCan) => Ok(ControllerOpen::SocketCan),
        Some(Backend::SocketCanFd) => Ok(ControllerOpen::SocketCanFd),
        Some(Backend::DmSerial) => {
            let b = match baud {
                Some(x) => x,
                None => DEFAULT_SERIAL_BAUD,
            };
            Ok(ControllerOpen::DmSerial { baud: b })
        },
        None => Err(AbiError::UnsupportedTransport(t)),
    }
}

/// Which vendor driver adds a motor for `vendor`: the name is normalised and
/// must denote a supported vendor.
pub fn add_motor(vendor: &str) -> (res: Result<Vendor, AbiError>)
    ensures
        match vendor_of(normalize_name(vendor@)) {
            Some(v) => res == Ok::<Vendor, AbiError>(v),
            None => res matches Err(AbiError::UnsupportedVendor(n)) && n@ == normalize_name(
                vendor@,
            ),
        },
{
    let n = normalize_vendor(vendor);
    match vendor_from_normalized(n.as_str()) {
        Some(v) => Ok(v),
        None => Err(AbiError::UnsupportedVendor(n)),
    }
}

/// The file name of the ABI library on a platform.
pub fn abi_lib_name(os: TargetOs) -> (res: &'static str)
    ensures
        res@ == (match os {
            TargetOs::Windows => "motor_abi.dll"@,
            TargetOs::MacOs => "libmotor_abi.dylib"@,
            TargetOs::Other => "libmotor_abi.so"@,
        }),
{
    match os {
        TargetOs::Windows => "motor_abi.dll",
        TargetOs::MacOs => "libmotor_abi.dylib",
        TargetOs::Other => "libmotor_abi.so",
    }
}

/// Where the ABI library is loaded from: the path the environment gives, or
/// the candidate path at an index.
#[derive(Debug)]
pub enum AbiPath {
    Override(String),
    Candidate(usize),
}

/// Where the ABI library is loaded from: a path given by the environment
/// wins; otherwise the first candidate path that exists, in the order given.
/// `exists` says, for each candidate, whether a file is there.
pub fn resolve_abi_path(env_override: Option<String>, exists: &Vec<bool>) -> (res: Result<AbiPath, AbiError>)
    ensures
        match env_override {
            Some(p) => res matches Ok(AbiPath::Override(r)) && r@ == p@,
            None => {
                &&& res is Ok <==> exists|i: int| 0 <= i < exists@.len() && #[trigger] exists@[i]
                &&& res is Ok ==> (res matches Ok(AbiPath::Candidate(i)) && i < exists@.len()
                    && exists@[i as int] && forall|k: int| 0 <= k < i ==> !(#[trigger] exists@[k]))
                &&& res matches Err(e) ==> e is LibraryNotFound
            },
        },
{
    if let Some(p) = env_override {
        return Ok(AbiPath::Override(p));
    }
    let mut i: usize = 0;
    while i < exists.len()
        invariant
            i <= exists@.len(),
            env_override is None,
            forall|k: int| 0 <= k < i ==> !(#[trigger] exists@[k]),
        decreases exists@.len() - i,
    {
        if exists[i] {
            return Ok(AbiPath::Candidate(i));
        }
        i = i + 1;
    }
    Err(AbiError::LibraryNotFound)
}

/// Whether an ABI call succeeded: the ABI returns 0 on success and any other
/// code on failure (its text is then the ABI's last error message).
pub fn abi_call_ok(rc: i32) -> (res: bool)
    ensures
        res == (rc == 0),
{
    rc == 0
}

/// Whether a state read from the ABI holds feedback: its `has_value` flag is
/// not 0.
pub fn feedback_present(has_value: i32) -> (res: bool)
    ensures
        res == (has_value != 0),
{
    has_value != 0
}

} // verus!
