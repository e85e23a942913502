use vstd::prelude::*;

use crate::error::JvmError;
use crate::local_vars::InterpLocalVars;
use crate::values::JvmValue;

verus! {

/// The system clock's time, as `std::time::SystemTime`.
#[verifier::external_type_specification]
#[verifier::external_body]
pub struct ExSystemTime(std::time::SystemTime);

/// The error of `SystemTime::duration_since`, as `std::time::SystemTimeError`.
#[verifier::external_type_specification]
#[verifier::external_body]
pub struct ExSystemTimeError(std::time::SystemTimeError);

/// Calls `SystemTime::now`: the current time of the system clock, of which
/// nothing is stated.
#[verifier::external_body]
fn system_time_now() -> (r: std::time::SystemTime) {
    std::time::SystemTime::now()
}

/// Calls `SystemTime::duration_since` with the UNIX epoch: how long after
/// the epoch `t` lies, or an error when it lies before. Which of the two
/// comes back depends on the clock, so nothing is stated of it.
#[verifier::external_body]
fn duration_since_epoch(t: &std::time::SystemTime) -> (r: Result<
    core::time::Duration,
    std::time::SystemTimeError,
>) {
    t.duration_since(std::time::UNIX_EPOCH)
}

/// Calls `Duration::as_millis`: the whole milliseconds in `d`. The library
/// holds no model of a duration, so nothing is stated of the number.
#[verifier::external_body]
fn duration_millis(d: &core::time::Duration) -> (r: u128) {
    d.as_millis()
}

/// `java/lang/Object.hashCode:()I`: every object hashes to 255.
pub fn java_lang_Object__hashcode(_args: &InterpLocalVars) -> (r: Option<JvmValue>)
    ensures
        r == Some(JvmValue::Int(255)),
{
    Some(JvmValue::Int(255))
}

/// `java/lang/Object.registerNatives:()V`: does nothing.
pub fn java_lang_Object__registerNatives(_args: &InterpLocalVars) -> (r: Option<JvmValue>)
    ensures
        r == None::<JvmValue>,
{
    None
}

/// `java/lang/Shutdown.exit`: answers 255 and does not stop the machine.
pub fn java_lang_Shutdown__exit(_args: &InterpLocalVars) -> (r: Option<JvmValue>)
    ensures
        r == Some(JvmValue::Int(255)),
{
    Some(JvmValue::Int(255))
}

/// What `currentTimeMillis` answers for `ms` milliseconds since the UNIX
/// epoch: a long holding the low 64 bits of the count.
pub fn millis_value(ms: u128) -> (r: JvmValue)
    ensures
        r == JvmValue::Long(ms as i64),
{
    JvmValue::Long(#[verifier::truncate] (ms as i64))
}

/// `java/lang/System.currentTimeMillis:()J`: the milliseconds since the
/// UNIX epoch, as a long (see `millis_value`), or an error when the clock
/// reads before the epoch.
pub fn java_lang_System__currentTimeMillis(_args: &InterpLocalVars) -> (r: Result<
    Option<JvmValue>,
    JvmError,
>)
    ensures
        r matches Ok(v) ==> v matches Some(JvmValue::Long(_)),
        r matches Err(e) ==> e == JvmError::ClockBeforeEpoch,
{
    let now = system_time_now();
    match duration_since_epoch(&now) {
        Ok(d) => {
            let ms = duration_millis(&d);
            Ok(Some(millis_value(ms)))
        },
        Err(_) => Err(JvmError::ClockBeforeEpoch),
    }
}

/// The native code that can be installed on a method.
#[derive(Clone, Copy, Debug, PartialEq, Eq, Structural)]
pub enum NativeMethod {
    ObjectHashCode,
    ObjectRegisterNatives,
    ShutdownExit,
    SystemCurrentTimeMillis,
}

/// What a native method answers, for those whose answer does not depend on the clock.
pub open spec fn spec_native_result(n: NativeMethod) -> Option<JvmValue> {
    match n {
        NativeMethod::ObjectHashCode => Some(JvmValue::Int(255)),
        NativeMethod::ObjectRegisterNatives => None,
        NativeMethod::ShutdownExit => Some(JvmValue::Int(255)),
        NativeMethod::SystemCurrentTimeMillis => None,
    }
}

impl NativeMethod {
    /// Runs the native code on the callee's local variables.
    pub fn invoke(&self, args: &InterpLocalVars) -> (r: Result<Option<JvmValue>, JvmError>)
        ensures
            *self != NativeMethod::SystemCurrentTimeMillis ==> r == Ok::<
                Option<JvmValue>,
                JvmError,
            >(spec_native_result(*self)),
            *self == NativeMethod::SystemCurrentTimeMillis ==> (r matches Ok(v) ==> v matches Some(
                JvmValue::Long(_),
            )) && (r matches Err(e) ==> e == JvmError::ClockBeforeEpoch),
    {
        match self {
            NativeMethod::ObjectHashCode => Ok(java_lang_Object__hashcode(args)),
            NativeMethod::ObjectRegisterNatives => Ok(java_lang_Object__registerNatives(args)),
            NativeMethod::ShutdownExit => Ok(java_lang_Shutdown__exit(args)),
            NativeMethod::SystemCurrentTimeMillis => java_lang_System__currentTimeMillis(args),
        }
    }
}

} // verus!
