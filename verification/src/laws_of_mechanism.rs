//! What the names in a mechanism are, and when they are filled in.

use crate::annotated::Ann;
use crate::mechanism::{
    darwin_signal_name, linux_signal_name, mach_exception_name, named, named_mechanism, os_family,
    os_hint, same_name, signal_name, OsHint,
};
use crate::protocol::{EventModel, MechanismModel};
use vstd::prelude::*;

verus! {

/// The operating systems of each family.
pub proof fn law_families(name: Seq<char>)
    ensures
        os_family(name) == Some(OsHint::Darwin) <==> (name == "ios"@ || name == "macos"@ || name
            == "tvos"@ || name == "watchos"@),
        os_family(name) == Some(OsHint::Linux) <==> (name == "linux"@ || name == "android"@),
        os_family(name) == Some(OsHint::Windows) <==> name == "windows"@,
{
    reveal_strlit("ios");
    reveal_strlit("macos");
    reveal_strlit("tvos");
    reveal_strlit("watchos");
    reveal_strlit("linux");
    reveal_strlit("android");
    reveal_strlit("windows");
    assert("macos"@[0] != "linux"@[0]);
    assert("watchos"@[0] != "android"@[0]);
    assert("watchos"@[1] != "windows"@[1]);
    assert("android"@[0] != "windows"@[0]);
}

/// The operating system of an event is that of the system SDK where that has a name,
/// and else that of the operating system context.
pub proof fn law_system_of_an_event(event: EventModel, name: Seq<char>)
    ensures
        ({
            let sdk_name = match event.debug_meta.value {
                Some(debug_meta) if debug_meta.system_sdk.value is Some =>
                    debug_meta.system_sdk.value->0.sdk_name.value,
                _ => None,
            };
            let context_name = match event.contexts.value {
                Some(contexts) if contexts.os.value is Some => contexts.os.value->0.name.value,
                _ => None,
            };
            &&& sdk_name == Some(name) ==> os_hint(event) == os_family(name)
            &&& sdk_name is None && context_name == Some(name) ==> os_hint(event) == os_family(name)
            &&& sdk_name is None && context_name is None ==> os_hint(event) is None
        }),
{
}

/// The signals of Linux in the order of their numbers.
pub proof fn law_linux_signal_names(number: i64)
    ensures
        ({
            let names = seq![
                "SIGHUP"@,
                "SIGINT"@,
                "SIGQUIT"@,
                "SIGILL"@,
                "SIGTRAP"@,
                "SIGABRT"@,
                "SIGBUS"@,
                "SIGFPE"@,
                "SIGKILL"@,
                "SIGUSR1"@,
                "SIGSEGV"@,
                "SIGUSR2"@,
                "SIGPIPE"@,
                "SIGALRM"@,
                "SIGTERM"@,
                "SIGSTKFLT"@,
                "SIGCHLD"@,
                "SIGCONT"@,
                "SIGSTOP"@,
                "SIGTSTP"@,
                "SIGTTIN"@,
                "SIGTTOU"@,
                "SIGURG"@,
                "SIGXCPU"@,
                "SIGXFSZ"@,
                "SIGVTALRM"@,
                "SIGPROF"@,
                "SIGWINCH"@,
                "SIGIO"@,
                "SIGPWR"@,
                "SIGSYS"@,
            ];
            linux_signal_name(number) == (if 1 <= number <= 31 {
                Some(names[number - 1])
            } else {
                None
            })
        }),
{
}

/// The signals of Darwin in the order of their numbers.
pub proof fn law_darwin_signal_names(number: i64)
    ensures
        ({
            let names = seq![
                "SIGHUP"@,
                "SIGINT"@,
                "SIGQUIT"@,
                "SIGILL"@,
                "SIGTRAP"@,
                "SIGABRT"@,
                "SIGEMT"@,
                "SIGFPE"@,
                "SIGKILL"@,
                "SIGBUS"@,
                "SIGSEGV"@,
                "SIGSYS"@,
                "SIGPIPE"@,
                "SIGALRM"@,
                "SIGTERM"@,
                "SIGURG"@,
                "SIGSTOP"@,
                "SIGTSTP"@,
                "SIGCONT"@,
                "SIGCHLD"@,
                "SIGTTIN"@,
                "SIGTTOU"@,
                "SIGIO"@,
                "SIGXCPU"@,
                "SIGXFSZ"@,
                "SIGVTALRM"@,
                "SIGPROF"@,
                "SIGWINCH"@,
                "SIGINFO"@,
                "SIGUSR1"@,
                "SIGUSR2"@,
            ];
            darwin_signal_name(number) == (if 1 <= number <= 31 {
                Some(names[number - 1])
            } else {
                None
            })
        }),
{
}

/// The Mach exceptions in the order of their numbers.
pub proof fn law_mach_exception_names(number: i64)
    ensures
        ({
            let names = seq![
                "EXC_BAD_ACCESS"@,
                "EXC_BAD_INSTRUCTION"@,
                "EXC_ARITHMETIC"@,
                "EXC_EMULATION"@,
                "EXC_SOFTWARE"@,
                "EXC_BREAKPOINT"@,
                "EXC_SYSCALL"@,
                "EXC_MACH_SYSCALL"@,
                "EXC_RPC_ALERT"@,
                "EXC_CRASH"@,
                "EXC_RESOURCE"@,
                "EXC_GUARD"@,
                "EXC_CORPSE_NOTIFY"@,
            ];
            mach_exception_name(number) == (if 1 <= number <= 13 {
                Some(names[number - 1])
            } else {
                None
            })
        }),
{
}

/// Each system has its own names for signals, and Windows has none.
pub proof fn law_signals_by_system(number: i64)
    ensures
        signal_name(number, OsHint::Linux) == linux_signal_name(number),
        signal_name(number, OsHint::Darwin) == darwin_signal_name(number),
        signal_name(number, OsHint::Windows) is None,
{
}

/// A name that was looked up is the one that is held, and one is found where one is held.
pub proof fn law_names_found_are_names_held(found: Option<&'static str>, held: Option<Seq<char>>)
    ensures
        same_name(found, held) <==> (match held {
            Some(name) => found is Some && found->0@ == name,
            None => found is None,
        }),
{
}

/// A looked-up name is used only where there is none.
pub proof fn law_names_are_filled_in(name: Ann<Seq<char>>, found: Option<Seq<char>>)
    ensures
        named(name, found).meta == name.meta,
        name.value is Some ==> named(name, found).value == name.value,
        name.value is None ==> named(name, found).value == found,
{
}

/// In a mechanism only the two names change: a signal without one gets that of its
/// number on the system, a Mach exception without one that of its number anywhere.
pub proof fn law_only_names_are_filled_in(mechanism: MechanismModel, os: Option<OsHint>)
    ensures
        ({
            let after = named_mechanism(mechanism, os);
            &&& after.ty == mechanism.ty
            &&& after.other == mechanism.other
            &&& after.meta.meta == mechanism.meta.meta
            &&& after.meta.value is Some <==> mechanism.meta.value is Some
            &&& mechanism.meta.value is Some ==> {
                let given = mechanism.meta.value->0;
                let now = after.meta.value->0;
                &&& now.other == given.other
                &&& now.signal.meta == given.signal.meta
                &&& now.signal.value is Some <==> given.signal.value is Some
                &&& given.signal.value is Some ==> {
                    let before = given.signal.value->0;
                    let signal = now.signal.value->0;
                    &&& signal.number == before.number
                    &&& signal.other == before.other
                    &&& signal.name.meta == before.name.meta
                    &&& signal.name.value == (match (before.name.value, before.number.value, os) {
                        (Some(name), _, _) => Some(name),
                        (None, Some(number), Some(OsHint::Linux)) => linux_signal_name(number),
                        (None, Some(number), Some(OsHint::Darwin)) => darwin_signal_name(number),
                        _ => None,
                    })
                }
                &&& now.mach_exception.meta == given.mach_exception.meta
                &&& now.mach_exception.value is Some <==> given.mach_exception.value is Some
                &&& given.mach_exception.value is Some ==> {
                    let before = given.mach_exception.value->0;
                    let exception = now.mach_exception.value->0;
                    &&& exception.ty == before.ty
                    &&& exception.other == before.other
                    &&& exception.name.meta == before.name.meta
                    &&& exception.name.value == (match (before.name.value, before.ty.value) {
                        (Some(name), _) => Some(name),
                        (None, Some(number)) => mach_exception_name(number),
                        (None, None) => None,
                    })
                }
            }
        }),
{
}

} // verus!
