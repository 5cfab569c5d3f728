//! Deciding what one system call of an application process asks for, and
//! what the emulator answers.
//!
//! An application writes one line per system call: the syscall number, the
//! driver number and up to three arguments (see `crate::text`). The line
//! is turned into a `Request`; a request that reaches a driver is carried
//! out by it, and the `ReturnCode` that comes back is written to the
//! application as a decimal number.

use crate::text::{
    format_signed, joined_decimal, kept_line, lemma_args_round_trip, lemma_unparsable_fields_ignored,
    line_args, parse_args, signed_decimal,
};
use vstd::prelude::*;

verus! {

/// The driver number of the alarm driver.
pub const ALARM_DRIVER_NUM: usize = 0;

/// The driver number of the LED driver.
pub const LED_DRIVER_NUM: usize = 2;

/// The kinds of system call an application can make, numbered from 0 in
/// this order.
#[derive(Clone, Copy, Debug, PartialEq, Eq, Structural)]
pub enum Syscall {
    Command,
    Subscribe,
    Yield,
}

/// The number of each kind of system call.
pub open spec fn syscall_number(s: Syscall) -> nat {
    match s {
        Syscall::Command => 0,
        Syscall::Subscribe => 1,
        Syscall::Yield => 2,
    }
}

/// The kind of system call that a number stands for, if any.
pub open spec fn syscall_of(n: usize) -> Option<Syscall> {
    if n == 0 {
        Some(Syscall::Command)
    } else if n == 1 {
        Some(Syscall::Subscribe)
    } else if n == 2 {
        Some(Syscall::Yield)
    } else {
        None
    }
}

impl Syscall {
    /// The kind of system call numbered `n`, or `None` for a number that
    /// stands for none.
    pub fn from_usize(n: usize) -> (s: Option<Syscall>)
        ensures
            s == syscall_of(n),
            forall|k: Syscall| s == Some(k) <==> n == syscall_number(k),
    {
        if n == 0 {
            Some(Syscall::Command)
        } else if n == 1 {
            Some(Syscall::Subscribe)
        } else if n == 2 {
            Some(Syscall::Yield)
        } else {
            None
        }
    }
}

/// The drivers that the board offers to applications.
#[derive(Clone, Copy, Debug, PartialEq, Eq, Structural)]
pub enum DriverKind {
    Alarm,
    Led,
}

/// The driver with number `n`, if the board has one.
pub open spec fn driver_of(n: usize) -> Option<DriverKind> {
    if n == ALARM_DRIVER_NUM {
        Some(DriverKind::Alarm)
    } else if n == LED_DRIVER_NUM {
        Some(DriverKind::Led)
    } else {
        None
    }
}

/// The driver that serves driver number `driver_num`, or `None` where the
/// board has no such driver.
pub fn driver_for(driver_num: usize) -> (d: Option<DriverKind>)
    ensures
        d == driver_of(driver_num),
{
    if driver_num == ALARM_DRIVER_NUM {
        Some(DriverKind::Alarm)
    } else if driver_num == LED_DRIVER_NUM {
        Some(DriverKind::Led)
    } else {
        None
    }
}

/// The outcome of a system call.
#[derive(Clone, Copy, Debug, PartialEq, Eq, Structural)]
pub enum ReturnCode {
    /// Success, with a value for the application.
    SuccessWithValue { value: usize },
    /// Success.
    SUCCESS,
    /// Generic failure.
    FAIL,
    /// The underlying system is busy; retry.
    EBUSY,
    /// The state requested is already set.
    EALREADY,
    /// The component is powered down.
    EOFF,
    /// Reservation required before use.
    ERESERVE,
    /// An invalid parameter was passed.
    EINVAL,
    /// The parameter passed was too large.
    ESIZE,
    /// The operation was cancelled by a call.
    ECANCEL,
    /// Memory required is not available.
    ENOMEM,
    /// The operation is not supported.
    ENOSUPPORT,
    /// The device is not available.
    ENODEVICE,
    /// The device is not physically installed.
    EUNINSTALLED,
    /// The packet transmission was not acknowledged.
    ENOACK,
}

/// The number that the application receives for a return code: the value
/// of a success with a value (as an `isize`), 0 for `SUCCESS`, and the
/// negated position of each error in the order of declaration.
pub open spec fn return_code_number(rc: ReturnCode) -> int {
    match rc {
        ReturnCode::SuccessWithValue { value } => (value as isize) as int,
        ReturnCode::SUCCESS => 0,
        ReturnCode::FAIL => -1,
        ReturnCode::EBUSY => -2,
        ReturnCode::EALREADY => -3,
        ReturnCode::EOFF => -4,
        ReturnCode::ERESERVE => -5,
        ReturnCode::EINVAL => -6,
        ReturnCode::ESIZE => -7,
        ReturnCode::ECANCEL => -8,
        ReturnCode::ENOMEM => -9,
        ReturnCode::ENOSUPPORT => -10,
        ReturnCode::ENODEVICE => -11,
        ReturnCode::EUNINSTALLED => -12,
        ReturnCode::ENOACK => -13,
    }
}

/// `SUCCESS` is answered as 0 and each error as a distinct negative number,
/// so the number of any code that carries no value tells which code it is.
pub proof fn lemma_return_code_numbers(a: ReturnCode, b: ReturnCode)
    requires
        !(a is SuccessWithValue),
        !(b is SuccessWithValue),
    ensures
        return_code_number(a) <= 0,
        return_code_number(a) == 0 <==> a == ReturnCode::SUCCESS,
        return_code_number(a) == return_code_number(b) ==> a == b,
{
}

impl From<ReturnCode> for isize {
    fn from(rc: ReturnCode) -> (n: isize) {
        match rc {
            ReturnCode::SuccessWithValue { value } => value as isize,
            ReturnCode::SUCCESS => 0,
            ReturnCode::FAIL => -1,
            ReturnCode::EBUSY => -2,
            ReturnCode::EALREADY => -3,
            ReturnCode::EOFF => -4,
            ReturnCode::ERESERVE => -5,
            ReturnCode::EINVAL => -6,
            ReturnCode::ESIZE => -7,
            ReturnCode::ECANCEL => -8,
            ReturnCode::ENOMEM => -9,
            ReturnCode::ENOSUPPORT => -10,
            ReturnCode::ENODEVICE => -11,
            ReturnCode::EUNINSTALLED => -12,
            ReturnCode::ENOACK => -13,
        }
    }
}

impl vstd::std_specs::convert::FromSpecImpl<ReturnCode> for isize {
    open spec fn obeys_from_spec() -> bool {
        true
    }

    open spec fn from_spec(v: ReturnCode) -> isize {
        return_code_number(v) as isize
    }
}

/// What a line of an application asks the emulator to do.
#[derive(Clone, Copy, Debug, PartialEq, Eq, Structural)]
pub enum Request {
    /// The driver number names no driver of the board.
    NoDevice,
    /// The driver exists, but the syscall number stands for no system call.
    UnknownSyscall { driver: DriverKind },
    /// A command to the driver, with its command number and two arguments.
    Command { driver: DriverKind, minor_num: usize, arg1: usize, arg2: usize },
    /// A callback to register with the driver: the driver number, the
    /// subscribe number, the address of the callback and the data that is
    /// handed back to it.
    Subscribe {
        driver: DriverKind,
        driver_num: usize,
        subscribe_num: usize,
        callback: usize,
        appdata: usize,
    },
    /// A buffer of the application to share with the driver: the allow
    /// number, the address of the buffer and its length.
    Allow { driver: DriverKind, allow_num: usize, address: usize, len: usize },
}

/// Whether the emulator can serve the arguments of a line without failing:
/// there are a syscall number and a driver number, and where both name
/// something, three more arguments, the second of which (an address) is
/// not zero for a subscribe or an allow.
pub open spec fn request_well_formed(args: Seq<usize>) -> bool {
    &&& args.len() >= 2
    &&& (driver_of(args[1]) is Some && syscall_of(args[0]) is Some) ==> {
        &&& args.len() >= 5
        &&& syscall_of(args[0]) != Some(Syscall::Command) ==> args[3] != 0
    }
}

/// The request that the arguments of a line make.
pub open spec fn request_of(args: Seq<usize>) -> Request {
    match driver_of(args[1]) {
        None => Request::NoDevice,
        Some(driver) => match syscall_of(args[0]) {
            None => Request::UnknownSyscall { driver },
            Some(Syscall::Command) => Request::Command {
                driver,
                minor_num: args[2],
                arg1: args[3],
                arg2: args[4],
            },
            Some(Syscall::Subscribe) => Request::Subscribe {
                driver,
                driver_num: args[1],
                subscribe_num: args[2],
                callback: args[3],
                appdata: args[4],
            },
            Some(Syscall::Yield) => Request::Allow {
                driver,
                allow_num: args[2],
                address: args[3],
                len: args[4],
            },
        },
    }
}

/// Whether the emulator can serve `args` (see `request_well_formed`).
pub fn is_well_formed(args: &Vec<usize>) -> (ok: bool)
    ensures
        ok == request_well_formed(args@),
{
    if args.len() < 2 {
        return false;
    }
    let driver = driver_for(args[1]);
    let syscall = Syscall::from_usize(args[0]);
    match (driver, syscall) {
        (Some(_), Some(s)) => {
            if args.len() < 5 {
                false
            } else {
                match s {
                    Syscall::Command => true,
                    _ => args[3] != 0,
                }
            }
        },
        _ => true,
    }
}

/// The request that the arguments `args` of a line make.
pub fn decode_request(args: &Vec<usize>) -> (r: Request)
    requires
        request_well_formed(args@),
    ensures
        r == request_of(args@),
{
    match driver_for(args[1]) {
        None => Request::NoDevice,
        Some(driver) => match Syscall::from_usize(args[0]) {
            None => Request::UnknownSyscall { driver },
            Some(Syscall::Command) => Request::Command {
                driver,
                minor_num: args[2],
                arg1: args[3],
                arg2: args[4],
            },
            Some(Syscall::Subscribe) => Request::Subscribe {
                driver,
                driver_num: args[1],
                subscribe_num: args[2],
                callback: args[3],
                appdata: args[4],
            },
            Some(Syscall::Yield) => Request::Allow {
                driver,
                allow_num: args[2],
                address: args[3],
                len: args[4],
            },
        },
    }
}

/// The return code that the emulator answers without asking a driver:
/// `ENODEVICE` where no driver has the number, `EINVAL` where the syscall
/// number stands for no system call, and `None` for a request that goes to
/// a driver.
pub open spec fn rejection_of(r: Request) -> Option<ReturnCode> {
    match r {
        Request::NoDevice => Some(ReturnCode::ENODEVICE),
        Request::UnknownSyscall { .. } => Some(ReturnCode::EINVAL),
        _ => None,
    }
}

impl Request {
    /// The return code answered without asking a driver (see `rejection_of`).
    pub fn rejection(&self) -> (rc: Option<ReturnCode>)
        ensures
            rc == rejection_of(*self),
    {
        match self {
            Request::NoDevice => Some(ReturnCode::ENODEVICE),
            Request::UnknownSyscall { .. } => Some(ReturnCode::EINVAL),
            _ => None,
        }
    }
}

/// The request that a line of an application makes, or `None` where the
/// emulator cannot serve its arguments.
pub fn request_from_line(line: &[u8]) -> (r: Option<Request>)
    ensures
        request_well_formed(line_args(line@)) ==> r == Some(request_of(line_args(line@))),
        !request_well_formed(line_args(line@)) ==> r is None,
{
    let args = parse_args(line);
    if is_well_formed(&args) {
        Some(decode_request(&args))
    } else {
        None
    }
}

/// The board serves driver number 0 with its alarm and driver number 2 with
/// its LEDs; every other driver number names no device.
pub proof fn lemma_driver_numbers(n: usize)
    ensures
        driver_of(n) is Some <==> (n == 0 || n == 2),
        n == 0 ==> driver_of(n) == Some(DriverKind::Alarm),
        n == 2 ==> driver_of(n) == Some(DriverKind::Led),
{
}

/// A success with a value that fits in an `isize` is answered as that very
/// value: it never reads as a negative, error-like number.
pub proof fn lemma_success_value_answered(v: usize)
    requires
        v <= isize::MAX,
    ensures
        return_code_number(ReturnCode::SuccessWithValue { value: v }) == v,
        return_code_number(ReturnCode::SuccessWithValue { value: v }) >= 0,
{
}

/// Only a request for no device or for an unknown system call is answered
/// without a driver: a command, a subscribe or an allow always goes to the
/// driver.
pub proof fn lemma_rejections(r: Request)
    ensures
        r == Request::NoDevice ==> rejection_of(r) == Some(ReturnCode::ENODEVICE),
        r is UnknownSyscall ==> rejection_of(r) == Some(ReturnCode::EINVAL),
        (r is Command || r is Subscribe || r is Allow) ==> rejection_of(r) is None,
{
}

/// The driver that driver number `n` names, for `n` one of the board's two.
pub open spec fn board_driver(n: usize) -> DriverKind {
    if n == 0 {
        DriverKind::Alarm
    } else {
        DriverKind::Led
    }
}

/// A command line `0,d,m,a,b` to driver `d` asks for command `m` with first
/// argument `a` and second argument `b`.
pub proof fn lemma_command_fields(args: Seq<usize>)
    requires
        args.len() >= 5,
        args[0] == 0,
        args[1] == 0 || args[1] == 2,
    ensures
        request_well_formed(args),
        request_of(args) == (Request::Command {
            driver: board_driver(args[1]),
            minor_num: args[2],
            arg1: args[3],
            arg2: args[4],
        }),
{
}

/// A subscribe line `1,d,s,c,x` to driver `d` registers the callback at `c`
/// under subscribe number `s`, with `x` as the data handed back to it; it
/// is served exactly when `c` is not zero, whatever `x` is.
pub proof fn lemma_subscribe_fields(args: Seq<usize>)
    requires
        args.len() >= 5,
        args[0] == 1,
        args[1] == 0 || args[1] == 2,
    ensures
        request_well_formed(args) <==> args[3] != 0,
        request_of(args) == (Request::Subscribe {
            driver: board_driver(args[1]),
            driver_num: args[1],
            subscribe_num: args[2],
            callback: args[3],
            appdata: args[4],
        }),
{
}

/// An allow line `2,d,n,p,l` to driver `d` shares the buffer at `p` of
/// length `l` under allow number `n`; it is served exactly when `p` is not
/// zero, whatever `l` is.
pub proof fn lemma_allow_fields(args: Seq<usize>)
    requires
        args.len() >= 5,
        args[0] == 2,
        args[1] == 0 || args[1] == 2,
    ensures
        request_well_formed(args) <==> args[3] != 0,
        request_of(args) == (Request::Allow {
            driver: board_driver(args[1]),
            allow_num: args[2],
            address: args[3],
            len: args[4],
        }),
{
}

/// A line with fewer than two arguments cannot be served; a line whose
/// driver number names no device, or whose syscall number is above 2, is
/// served from its first two arguments alone, and is answered without a
/// driver.
pub proof fn lemma_lines_served_without_driver(args: Seq<usize>)
    ensures
        args.len() < 2 ==> !request_well_formed(args),
        (args.len() >= 2 && args[1] != 0 && args[1] != 2) ==> {
            &&& request_well_formed(args)
            &&& request_of(args) == Request::NoDevice
            &&& rejection_of(request_of(args)) == Some(ReturnCode::ENODEVICE)
        },
        (args.len() >= 2 && (args[1] == 0 || args[1] == 2) && args[0] > 2) ==> {
            &&& request_well_formed(args)
            &&& request_of(args) == (Request::UnknownSyscall { driver: board_driver(args[1]) })
            &&& rejection_of(request_of(args)) == Some(ReturnCode::EINVAL)
        },
        (2 <= args.len() < 5 && (args[1] == 0 || args[1] == 2) && args[0] <= 2) ==> !request_well_formed(args),
{
}

/// A line that an application writes from well-formed arguments, each in
/// decimal and separated by commas, is understood as the request that those
/// arguments make.
pub proof fn lemma_written_request_decodes(args: Seq<usize>)
    requires
        request_well_formed(args),
    ensures
        request_well_formed(line_args(joined_decimal(args))),
        request_of(line_args(joined_decimal(args))) == request_of(args),
{
    lemma_args_round_trip(args);
}

/// A line is served as the line rebuilt from its fields that hold a `usize`
/// (see `kept_line`): the emulator can serve both or neither, and they make
/// the same request.
pub proof fn lemma_line_served_as_kept_fields(line: Seq<u8>)
    ensures
        request_well_formed(line_args(kept_line(line))) == request_well_formed(line_args(line)),
        request_of(line_args(kept_line(line))) == request_of(line_args(line)),
{
    lemma_unparsable_fields_ignored(line);
}

/// The text that answers a system call: its return code as a decimal number.
pub fn reply_text(rc: ReturnCode) -> (text: Vec<u8>)
    ensures
        text@ == signed_decimal(return_code_number(rc)),
{
    let n: isize = isize::from(rc);
    format_signed(n)
}

} // verus!
