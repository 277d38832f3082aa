//! Turning failed JNI calls into the library's own errors, with the message
//! of a pending Java exception when there is one.
use vstd::prelude::*;
use jni::errors::Error;
use jni::JNIEnv;
use crate::jvm::{
    call_method, classify_error, exception_clear, exception_occurred, get_string, is_null,
    JniFailure,
};

verus! {

/// Why a call into Java failed.
#[derive(Debug)]
pub enum BridgeError {
    /// A Java exception was thrown; its message.
    JavaException(String),
    /// A Java exception was thrown and its message could not be read.
    UnreadableException,
    /// The JNI call itself failed; its description.
    Jni(String),
    /// A method returned something other than the object expected.
    NotAnObject,
    /// The class image is longer than a Java array can hold.
    DexTooLarge,
    /// Loading classes from memory needs API level 26 or later.
    UnsupportedApiLevel(u32),
}

/// Whether an error is the failure of a JNI call, as opposed to one that the
/// library itself decides.
pub open spec fn is_call_failure(e: BridgeError) -> bool {
    e is JavaException || e is UnreadableException || e is Jni
}

/// Takes the pending Java exception, clears it, and returns its message:
/// `getMessage()` when that returns a non-null object, else `toString()`.
pub fn get_java_exception<'local>(env: &mut JNIEnv<'local>) -> (r: Result<String, BridgeError>)
    ensures
        r is Err ==> is_call_failure(r->Err_0) || r->Err_0 is NotAnObject,
{
    let exception = match exception_occurred(env) {
        Ok(e) => e,
        Err(e) => return Err(from_jni(e)),
    };
    match exception_clear(env) {
        Ok(()) => {},
        Err(e) => return Err(from_jni(e)),
    }
    proof {
        reveal_strlit("()Ljava/lang/String;");
    }
    let message = match call_method(env, &exception, "getMessage", "()Ljava/lang/String;", &[]) {
        Ok(m) => m,
        Err(e) => return Err(from_jni(e)),
    };
    if let Some(obj) = message {
        if !is_null(&obj) {
            return match get_string(env, &obj) {
                Ok(s) => Ok(s),
                Err(e) => Err(from_jni(e)),
            };
        }
    }
    let text = match call_method(env, &exception, "toString", "()Ljava/lang/String;", &[]) {
        Ok(Some(t)) => t,
        Ok(None) => return Err(BridgeError::NotAnObject),
        Err(e) => return Err(from_jni(e)),
    };
    match get_string(env, &text) {
        Ok(s) => Ok(s),
        Err(e) => Err(from_jni(e)),
    }
}

/// A JNI failure as a library error, without consulting the VM.
fn from_jni(e: Error) -> (r: BridgeError)
    ensures
        is_call_failure(r),
{
    match classify_error(e) {
        JniFailure::JavaException => BridgeError::UnreadableException,
        JniFailure::Other(text) => BridgeError::Jni(text),
    }
}

/// The outcome of a JNI call with failures turned into library errors: a
/// success is kept as it is, and a pending Java exception is reported with
/// its message.
pub fn check_result<'local, T>(res: Result<T, Error>, env: &mut JNIEnv<'local>) -> (r: Result<
    T,
    BridgeError,
>)
    ensures
        res is Ok <==> r is Ok,
        res is Ok ==> r == Ok::<T, BridgeError>(res->Ok_0),
        r is Err ==> is_call_failure(r->Err_0),
{
    match res {
        Ok(v) => Ok(v),
        Err(e) => match classify_error(e) {
            JniFailure::JavaException => match get_java_exception(env) {
                Ok(msg) => Err(BridgeError::JavaException(msg)),
                Err(_) => Err(BridgeError::UnreadableException),
            },
            JniFailure::Other(text) => Err(BridgeError::Jni(text)),
        },
    }
}

/// `check_exception` on the results of JNI calls.
pub trait JniResultExt<T>: Sized {
    /// This result with failures turned into library errors.
    fn check_exception<'local>(self, env: &mut JNIEnv<'local>) -> Result<T, BridgeError>;
}

impl<T> JniResultExt<T> for Result<T, Error> {
    fn check_exception<'local>(self, env: &mut JNIEnv<'local>) -> (r: Result<T, BridgeError>)
        ensures
            self is Ok ==> r == Ok::<T, BridgeError>(self->Ok_0),
            self is Err ==> r is Err,
    {
        check_result(self, env)
    }
}

} // verus!
