//! The crash reporter: classifies a guest-reported abnormal termination and
//! renders the diagnostic the host writes to its error stream before it
//! terminates with a nonzero status. The write and the termination themselves
//! are the unverified shell's job; this module decides exactly what is
//! written and with which exit status.

use vstd::prelude::*;
use crate::append_bytes;

verus! {

/// The two crash classifications a guest may report: a fault inside the
/// guest's own execution machinery, or a crash the guest program itself
/// signalled deliberately.
#[derive(Clone, Copy, Debug, PartialEq, Eq, Structural)]
pub enum CrashClass {
    RuntimeFault,
    UserCrash,
}

/// Maps the guest's numeric classification tag to a crash class.
/// Only tags 0 and 1 are defined; any other tag is a contract violation
/// and yields `None` (the shell must treat it as fatal, never ignore it).
pub fn classify_crash(tag: u32) -> (r: Option<CrashClass>)
    ensures
        tag == 0 ==> r == Some(CrashClass::RuntimeFault),
        tag == 1 ==> r == Some(CrashClass::UserCrash),
        tag >= 2 ==> r is None,
{
    if tag == 0 {
        Some(CrashClass::RuntimeFault)
    } else if tag == 1 {
        Some(CrashClass::UserCrash)
    } else {
        None
    }
}

/// The banner announcing a fault of the guest's own execution machinery:
/// the bytes of `"Roc crashed with:\n\n\t"`.
pub open spec fn runtime_fault_prefix() -> Seq<u8> {
    seq![
        82u8, 111u8, 99u8, 32u8, 99u8, 114u8, 97u8, 115u8, 104u8, 101u8, 100u8,
        32u8, 119u8, 105u8, 116u8, 104u8, 58u8, 10u8, 10u8, 9u8,
    ]
}

/// The banner announcing a crash the guest program signalled deliberately:
/// the bytes of `"The program crashed with:\n\n\t"`.
pub open spec fn user_crash_prefix() -> Seq<u8> {
    seq![
        84u8, 104u8, 101u8, 32u8, 112u8, 114u8, 111u8, 103u8, 114u8, 97u8, 109u8,
        32u8, 99u8, 114u8, 97u8, 115u8, 104u8, 101u8, 100u8, 32u8, 119u8, 105u8,
        116u8, 104u8, 58u8, 10u8, 10u8, 9u8,
    ]
}

pub open spec fn crash_prefix(class: CrashClass) -> Seq<u8> {
    match class {
        CrashClass::RuntimeFault => runtime_fault_prefix(),
        CrashClass::UserCrash => user_crash_prefix(),
    }
}

/// The full diagnostic for a crash: the class's banner, the guest's message,
/// and a blank line after it.
pub open spec fn crash_diagnostic(class: CrashClass, msg: Seq<u8>) -> Seq<u8> {
    crash_prefix(class) + msg + seq![10u8, 10u8]
}

fn crash_prefix_bytes(class: CrashClass) -> (r: Vec<u8>)
    ensures
        r@ == crash_prefix(class),
{
    let mut v: Vec<u8> = Vec::new();
    match class {
        CrashClass::RuntimeFault => {
            v.push(82u8);
            v.push(111u8);
            v.push(99u8);
            v.push(32u8);
            v.push(99u8);
            v.push(114u8);
            v.push(97u8);
            v.push(115u8);
            v.push(104u8);
            v.push(101u8);
            v.push(100u8);
            v.push(32u8);
            v.push(119u8);
            v.push(105u8);
            v.push(116u8);
            v.push(104u8);
            v.push(58u8);
            v.push(10u8);
            v.push(10u8);
            v.push(9u8);
            proof {
                assert(v@ =~= runtime_fault_prefix());
            }
        }
        CrashClass::UserCrash => {
            v.push(84u8);
            v.push(104u8);
            v.push(101u8);
            v.push(32u8);
            v.push(112u8);
            v.push(114u8);
            v.push(111u8);
            v.push(103u8);
            v.push(114u8);
            v.push(97u8);
            v.push(109u8);
            v.push(32u8);
            v.push(99u8);
            v.push(114u8);
            v.push(97u8);
            v.push(115u8);
            v.push(104u8);
            v.push(101u8);
            v.push(100u8);
            v.push(32u8);
            v.push(119u8);
            v.push(105u8);
            v.push(116u8);
            v.push(104u8);
            v.push(58u8);
            v.push(10u8);
            v.push(10u8);
            v.push(9u8);
            proof {
                assert(v@ =~= user_crash_prefix());
            }
        }
    }
    v
}

/// Renders the diagnostic text for one crash class and message.
pub fn crash_message(class: CrashClass, msg: &[u8]) -> (r: Vec<u8>)
    ensures
        r@ == crash_diagnostic(class, msg@),
{
    let mut out = crash_prefix_bytes(class);
    append_bytes(&mut out, msg);
    out.push(10u8);
    out.push(10u8);
    proof {
        assert(out@ =~= crash_diagnostic(class, msg@));
    }
    out
}

/// Everything the shell needs to carry out a crash report: the diagnostic to
/// write to the error stream and the process's exit status.
pub struct CrashReport {
    pub message: Vec<u8>,
    pub exit_code: i32,
}

/// Receives a guest-triggered abnormal-termination signal. For the two
/// defined classification tags it yields the diagnostic to emit and a
/// nonzero exit status; for any other tag it yields `None`, itself a fatal
/// host-side contract violation that the shell must not silently ignore.
pub fn report_crash(msg: &[u8], tag: u32) -> (r: Option<CrashReport>)
    ensures
        tag == 0 ==> (r matches Some(rep)
            && rep.message@ == crash_diagnostic(CrashClass::RuntimeFault, msg@)
            && rep.exit_code == 1),
        tag == 1 ==> (r matches Some(rep)
            && rep.message@ == crash_diagnostic(CrashClass::UserCrash, msg@)
            && rep.exit_code == 1),
        tag >= 2 ==> r is None,
        r matches Some(rep) ==> rep.exit_code != 0,
{
    match classify_crash(tag) {
        Some(class) => Some(CrashReport { message: crash_message(class, msg), exit_code: 1 }),
        None => None,
    }
}

/// The two crash classifications always produce distinct diagnostic text,
/// whatever the messages: a reader of the error stream can tell a fault of
/// the guest's execution machinery from a deliberate program crash.
pub proof fn lemma_crash_classes_distinguishable(m1: Seq<u8>, m2: Seq<u8>)
    ensures
        crash_diagnostic(CrashClass::RuntimeFault, m1)
            != crash_diagnostic(CrashClass::UserCrash, m2),
{
    let a = crash_diagnostic(CrashClass::RuntimeFault, m1);
    let b = crash_diagnostic(CrashClass::UserCrash, m2);
    assert(a[0] == 82u8);
    assert(b[0] == 84u8);
}

} // verus!
