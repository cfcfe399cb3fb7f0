//! Names for the numbers by which operating systems report exceptions.

use crate::annotated::{Ann, Annotated};
use crate::protocol::{
    Event, EventModel, MachException, MachExceptionModel, Mechanism, MechanismMeta,
    MechanismMetaModel, MechanismModel, PosixSignal, PosixSignalModel,
};
use crate::text::same_text;
use vstd::prelude::*;

verus! {

/// The family of operating systems that an event was generated on.
#[derive(Clone, Copy, Debug, PartialEq, Eq, Structural)]
pub enum OsHint {
    Windows,
    Linux,
    Darwin,
}

/// The family of the operating system of that name.
pub open spec fn os_family(name: Seq<char>) -> Option<OsHint> {
    if name == "ios"@ || name == "watchos"@ || name == "tvos"@ || name == "macos"@ {
        Some(OsHint::Darwin)
    } else if name == "linux"@ || name == "android"@ {
        Some(OsHint::Linux)
    } else if name == "windows"@ {
        Some(OsHint::Windows)
    } else {
        None
    }
}

/// The name of the operating system that an event was generated on: that of the
/// system SDK, or else that of the operating system context.
pub open spec fn os_name(event: EventModel) -> Option<Seq<char>> {
    let sdk_name = match event.debug_meta.value {
        Some(debug_meta) => match debug_meta.system_sdk.value {
            Some(system_sdk) => system_sdk.sdk_name.value,
            None => None,
        },
        None => None,
    };
    if sdk_name is Some {
        sdk_name
    } else {
        match event.contexts.value {
            Some(contexts) => match contexts.os.value {
                Some(os) => os.name.value,
                None => None,
            },
            None => None,
        }
    }
}

/// The family of the operating system that an event was generated on.
pub open spec fn os_hint(event: EventModel) -> Option<OsHint> {
    match os_name(event) {
        Some(name) => os_family(name),
        None => None,
    }
}

impl OsHint {
    /// The family of the operating system of that name.
    pub fn from_name(name: &str) -> (res: Option<OsHint>)
        ensures
            res == os_family(name@),
    {
        if same_text(name, "ios") || same_text(name, "watchos") || same_text(name, "tvos")
            || same_text(name, "macos") {
            Some(OsHint::Darwin)
        } else if same_text(name, "linux") || same_text(name, "android") {
            Some(OsHint::Linux)
        } else if same_text(name, "windows") {
            Some(OsHint::Windows)
        } else {
            None
        }
    }

    /// The family of the operating system that an event was generated on.
    pub fn from_event(event: &Event) -> (res: Option<OsHint>)
        ensures
            res == os_hint(event.deep_view()),
    {
        if let Some(debug_meta) = &event.debug_meta.0 {
            if let Some(system_sdk) = &debug_meta.system_sdk.0 {
                if let Some(name) = &system_sdk.sdk_name.0 {
                    return OsHint::from_name(name.as_str());
                }
            }
        }
        if let Some(contexts) = &event.contexts.0 {
            if let Some(os) = &contexts.os.0 {
                if let Some(name) = &os.name.0 {
                    return OsHint::from_name(name.as_str());
                }
            }
        }
        None
    }
}

/// What Linux calls the signal of that number.
pub open spec fn linux_signal_name(number: i64) -> Option<Seq<char>> {
    match number {
        1i64 => Some("SIGHUP"@),
        2i64 => Some("SIGINT"@),
        3i64 => Some("SIGQUIT"@),
        4i64 => Some("SIGILL"@),
        5i64 => Some("SIGTRAP"@),
        6i64 => Some("SIGABRT"@),
        7i64 => Some("SIGBUS"@),
        8i64 => Some("SIGFPE"@),
        9i64 => Some("SIGKILL"@),
        10i64 => Some("SIGUSR1"@),
        11i64 => Some("SIGSEGV"@),
        12i64 => Some("SIGUSR2"@),
        13i64 => Some("SIGPIPE"@),
        14i64 => Some("SIGALRM"@),
        15i64 => Some("SIGTERM"@),
        16i64 => Some("SIGSTKFLT"@),
        17i64 => Some("SIGCHLD"@),
        18i64 => Some("SIGCONT"@),
        19i64 => Some("SIGSTOP"@),
        20i64 => Some("SIGTSTP"@),
        21i64 => Some("SIGTTIN"@),
        22i64 => Some("SIGTTOU"@),
        23i64 => Some("SIGURG"@),
        24i64 => Some("SIGXCPU"@),
        25i64 => Some("SIGXFSZ"@),
        26i64 => Some("SIGVTALRM"@),
        27i64 => Some("SIGPROF"@),
        28i64 => Some("SIGWINCH"@),
        29i64 => Some("SIGIO"@),
        30i64 => Some("SIGPWR"@),
        31i64 => Some("SIGSYS"@),
        _ => None,
    }
}

/// What Darwin calls the signal of that number.
pub open spec fn darwin_signal_name(number: i64) -> Option<Seq<char>> {
    match number {
        1i64 => Some("SIGHUP"@),
        2i64 => Some("SIGINT"@),
        3i64 => Some("SIGQUIT"@),
        4i64 => Some("SIGILL"@),
        5i64 => Some("SIGTRAP"@),
        6i64 => Some("SIGABRT"@),
        7i64 => Some("SIGEMT"@),
        8i64 => Some("SIGFPE"@),
        9i64 => Some("SIGKILL"@),
        10i64 => Some("SIGBUS"@),
        11i64 => Some("SIGSEGV"@),
        12i64 => Some("SIGSYS"@),
        13i64 => Some("SIGPIPE"@),
        14i64 => Some("SIGALRM"@),
        15i64 => Some("SIGTERM"@),
        16i64 => Some("SIGURG"@),
        17i64 => Some("SIGSTOP"@),
        18i64 => Some("SIGTSTP"@),
        19i64 => Some("SIGCONT"@),
        20i64 => Some("SIGCHLD"@),
        21i64 => Some("SIGTTIN"@),
        22i64 => Some("SIGTTOU"@),
        23i64 => Some("SIGIO"@),
        24i64 => Some("SIGXCPU"@),
        25i64 => Some("SIGXFSZ"@),
        26i64 => Some("SIGVTALRM"@),
        27i64 => Some("SIGPROF"@),
        28i64 => Some("SIGWINCH"@),
        29i64 => Some("SIGINFO"@),
        30i64 => Some("SIGUSR1"@),
        31i64 => Some("SIGUSR2"@),
        _ => None,
    }
}

/// What Darwin calls the Mach exception of that number.
pub open spec fn mach_exception_name(number: i64) -> Option<Seq<char>> {
    match number {
        1i64 => Some("EXC_BAD_ACCESS"@),
        2i64 => Some("EXC_BAD_INSTRUCTION"@),
        3i64 => Some("EXC_ARITHMETIC"@),
        4i64 => Some("EXC_EMULATION"@),
        5i64 => Some("EXC_SOFTWARE"@),
        6i64 => Some("EXC_BREAKPOINT"@),
        7i64 => Some("EXC_SYSCALL"@),
        8i64 => Some("EXC_MACH_SYSCALL"@),
        9i64 => Some("EXC_RPC_ALERT"@),
        10i64 => Some("EXC_CRASH"@),
        11i64 => Some("EXC_RESOURCE"@),
        12i64 => Some("EXC_GUARD"@),
        13i64 => Some("EXC_CORPSE_NOTIFY"@),
        _ => None,
    }
}

/// What the operating system calls the signal of that number.
pub open spec fn signal_name(number: i64, os: OsHint) -> Option<Seq<char>> {
    match os {
        OsHint::Linux => linux_signal_name(number),
        OsHint::Darwin => darwin_signal_name(number),
        OsHint::Windows => None,
    }
}

/// Whether a name that was looked up is the one that the table holds.
pub open spec fn same_name(found: Option<&'static str>, held: Option<Seq<char>>) -> bool {
    match found {
        Some(name) => held == Some(name@),
        None => held is None,
    }
}

/// Looks up what Linux calls the signal of that number.
pub fn find_linux_signal_name(number: i64) -> (res: Option<&'static str>)
    ensures
        same_name(res, linux_signal_name(number)),
{
    match number {
        1i64 => Some("SIGHUP"),
        2i64 => Some("SIGINT"),
        3i64 => Some("SIGQUIT"),
        4i64 => Some("SIGILL"),
        5i64 => Some("SIGTRAP"),
        6i64 => Some("SIGABRT"),
        7i64 => Some("SIGBUS"),
        8i64 => Some("SIGFPE"),
        9i64 => Some("SIGKILL"),
        10i64 => Some("SIGUSR1"),
        11i64 => Some("SIGSEGV"),
        12i64 => Some("SIGUSR2"),
        13i64 => Some("SIGPIPE"),
        14i64 => Some("SIGALRM"),
        15i64 => Some("SIGTERM"),
        16i64 => Some("SIGSTKFLT"),
        17i64 => Some("SIGCHLD"),
        18i64 => Some("SIGCONT"),
        19i64 => Some("SIGSTOP"),
        20i64 => Some("SIGTSTP"),
        21i64 => Some("SIGTTIN"),
        22i64 => Some("SIGTTOU"),
        23i64 => Some("SIGURG"),
        24i64 => Some("SIGXCPU"),
        25i64 => Some("SIGXFSZ"),
        26i64 => Some("SIGVTALRM"),
        27i64 => Some("SIGPROF"),
        28i64 => Some("SIGWINCH"),
        29i64 => Some("SIGIO"),
        30i64 => Some("SIGPWR"),
        31i64 => Some("SIGSYS"),
        _ => None,
    }
}

/// Looks up what Darwin calls the signal of that number.
pub fn find_darwin_signal_name(number: i64) -> (res: Option<&'static str>)
    ensures
        same_name(res, darwin_signal_name(number)),
{
    match number {
        1i64 => Some("SIGHUP"),
        2i64 => Some("SIGINT"),
        3i64 => Some("SIGQUIT"),
        4i64 => Some("SIGILL"),
        5i64 => Some("SIGTRAP"),
        6i64 => Some("SIGABRT"),
        7i64 => Some("SIGEMT"),
        8i64 => Some("SIGFPE"),
        9i64 => Some("SIGKILL"),
        10i64 => Some("SIGBUS"),
        11i64 => Some("SIGSEGV"),
        12i64 => Some("SIGSYS"),
        13i64 => Some("SIGPIPE"),
        14i64 => Some("SIGALRM"),
        15i64 => Some("SIGTERM"),
        16i64 => Some("SIGURG"),
        17i64 => Some("SIGSTOP"),
        18i64 => Some("SIGTSTP"),
        19i64 => Some("SIGCONT"),
        20i64 => Some("SIGCHLD"),
        21i64 => Some("SIGTTIN"),
        22i64 => Some("SIGTTOU"),
        23i64 => Some("SIGIO"),
        24i64 => Some("SIGXCPU"),
        25i64 => Some("SIGXFSZ"),
        26i64 => Some("SIGVTALRM"),
        27i64 => Some("SIGPROF"),
        28i64 => Some("SIGWINCH"),
        29i64 => Some("SIGINFO"),
        30i64 => Some("SIGUSR1"),
        31i64 => Some("SIGUSR2"),
        _ => None,
    }
}

/// Looks up what Darwin calls the Mach exception of that number.
pub fn find_mach_exception_name(number: i64) -> (res: Option<&'static str>)
    ensures
        same_name(res, mach_exception_name(number)),
{
    match number {
        1i64 => Some("EXC_BAD_ACCESS"),
        2i64 => Some("EXC_BAD_INSTRUCTION"),
        3i64 => Some("EXC_ARITHMETIC"),
        4i64 => Some("EXC_EMULATION"),
        5i64 => Some("EXC_SOFTWARE"),
        6i64 => Some("EXC_BREAKPOINT"),
        7i64 => Some("EXC_SYSCALL"),
        8i64 => Some("EXC_MACH_SYSCALL"),
        9i64 => Some("EXC_RPC_ALERT"),
        10i64 => Some("EXC_CRASH"),
        11i64 => Some("EXC_RESOURCE"),
        12i64 => Some("EXC_GUARD"),
        13i64 => Some("EXC_CORPSE_NOTIFY"),
        _ => None,
    }
}

/// Looks up what the operating system calls the signal of that number.
pub fn find_signal_name(number: i64, os: OsHint) -> (res: Option<&'static str>)
    ensures
        same_name(res, signal_name(number, os)),
{
    match os {
        OsHint::Linux => find_linux_signal_name(number),
        OsHint::Darwin => find_darwin_signal_name(number),
        OsHint::Windows => None,
    }
}

/// `name`, with the looked-up one where it is missing.
pub open spec fn named(name: Ann<Seq<char>>, found: Option<Seq<char>>) -> Ann<Seq<char>> {
    match found {
        Some(found) => name.or(found),
        None => name,
    }
}

/// Fills in a looked-up name where it is missing.
fn fill_name(name: Annotated<String>, found: Option<&'static str>) -> (res: Annotated<String>)
    ensures
        forall|held: Option<Seq<char>>|
            same_name(found, held) ==> res.deep_view() == #[trigger] named(name.deep_view(), held),
{
    match found {
        Some(found) => name.or_value(found.to_owned()),
        None => name,
    }
}

/// A signal with its name filled in, where the operating system is known and
/// has a name for its number.
pub open spec fn named_signal(signal: PosixSignalModel, os: Option<OsHint>) -> PosixSignalModel {
    match (signal.number.value, os) {
        (Some(number), Some(os)) => PosixSignalModel {
            name: named(signal.name, signal_name(number, os)),
            ..signal
        },
        _ => signal,
    }
}

/// A Mach exception with its name filled in, where there is one for its number.
pub open spec fn named_mach_exception(exception: MachExceptionModel) -> MachExceptionModel {
    match exception.ty.value {
        Some(number) => MachExceptionModel {
            name: named(exception.name, mach_exception_name(number)),
            ..exception
        },
        None => exception,
    }
}

/// A mechanism with the names of its signal and of its Mach exception filled in.
/// A Mach exception has the same name wherever it is read, because it can only
/// occur on one family of operating systems.
pub open spec fn named_mechanism(mechanism: MechanismModel, os: Option<OsHint>) -> MechanismModel {
    match mechanism.meta.value {
        Some(meta) => MechanismModel {
            meta: mechanism.meta.with(
                MechanismMetaModel {
                    signal: match meta.signal.value {
                        Some(signal) => meta.signal.with(named_signal(signal, os)),
                        None => meta.signal,
                    },
                    mach_exception: match meta.mach_exception.value {
                        Some(exception) => meta.mach_exception.with(
                            named_mach_exception(exception),
                        ),
                        None => meta.mach_exception,
                    },
                    ..meta
                },
            ),
            ..mechanism
        },
        None => mechanism,
    }
}

fn normalize_signal(signal: PosixSignal, os: Option<OsHint>) -> (res: PosixSignal)
    ensures
        res.deep_view() == named_signal(signal.deep_view(), os),
{
    let mut signal = signal;
    if let (Some(number), Some(os)) = (signal.number.0, os) {
        let found = find_signal_name(number, os);
        signal.name = fill_name(signal.name, found);
        assert(same_name(found, signal_name(number, os)));
    }
    signal
}

fn normalize_mach_exception(exception: MachException) -> (res: MachException)
    ensures
        res.deep_view() == named_mach_exception(exception.deep_view()),
{
    let mut exception = exception;
    if let Some(number) = exception.ty.0 {
        let found = find_mach_exception_name(number);
        exception.name = fill_name(exception.name, found);
        assert(same_name(found, mach_exception_name(number)));
    }
    exception
}

fn normalize_reported(meta: MechanismMeta, os: Option<OsHint>) -> (res: MechanismMeta)
    ensures
        res.deep_view().signal == (match meta.deep_view().signal.value {
            Some(signal) => meta.deep_view().signal.with(named_signal(signal, os)),
            None => meta.deep_view().signal,
        }),
        res.deep_view().mach_exception == (match meta.deep_view().mach_exception.value {
            Some(exception) => meta.deep_view().mach_exception.with(
                named_mach_exception(exception),
            ),
            None => meta.deep_view().mach_exception,
        }),
        res.deep_view().other == meta.deep_view().other,
{
    let MechanismMeta { signal, mach_exception, other } = meta;
    let Annotated(signal, signal_meta) = signal;
    let signal = match signal {
        Some(signal) => Some(normalize_signal(signal, os)),
        None => None,
    };
    let Annotated(exception, exception_meta) = mach_exception;
    let exception = match exception {
        Some(exception) => Some(normalize_mach_exception(exception)),
        None => None,
    };
    MechanismMeta {
        signal: Annotated(signal, signal_meta),
        mach_exception: Annotated(exception, exception_meta),
        other,
    }
}

/// Fills in the names of the signal and of the Mach exception of a mechanism.
pub fn normalize_mechanism_meta(mechanism: Mechanism, os: Option<OsHint>) -> (res: Mechanism)
    ensures
        res.deep_view() == named_mechanism(mechanism.deep_view(), os),
{
    let Mechanism { ty, meta, other } = mechanism;
    let Annotated(reported, meta) = meta;
    let reported = match reported {
        Some(reported) => Some(normalize_reported(reported, os)),
        None => None,
    };
    Mechanism { ty, meta: Annotated(reported, meta), other }
}

} // verus!
