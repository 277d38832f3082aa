//! The JNI calls that the bridge makes, each behind one trusted wrapper.
//!
//! What a call returns depends on the state of the Java VM, so the wrappers
//! promise nothing of their results beyond their types; the verified code
//! around them decides what each outcome means.
use vstd::prelude::*;
use jni::errors::Error;
use jni::objects::{JByteArray, JClass, JIntArray, JObject, JString, JValue, JValueGen};
use jni::JNIEnv;

verus! {

#[verifier::external_type_specification]
#[verifier::external_body]
pub struct ExJNIEnv<'local>(JNIEnv<'local>);

#[verifier::external_type_specification]
#[verifier::external_body]
pub struct ExJObject<'local>(JObject<'local>);

#[verifier::external_type_specification]
#[verifier::external_body]
pub struct ExJClass<'local>(JClass<'local>);

/// The raw JNI object handle that `JObject` dereferences to.
#[verifier::external_type_specification]
#[verifier::external_body]
pub struct ExRawObject(jni::sys::_jobject);

#[verifier::external_type_specification]
#[verifier::external_body]
pub struct ExJniError(Error);

/// Whether a method signature has no method-typed argument: `'('` occurs
/// only as its first character. The jni crate's argument check panics on a
/// method-typed argument, so the calls below take no other signatures.
pub open spec fn no_method_typed_argument(sig: Seq<char>) -> bool {
    forall|i: int| 0 < i < sig.len() ==> sig[i] != '('
}

/// A reference that the VM confirmed to be an `int[]`, or null. Only
/// `as_int_array` makes one.
pub struct IntArray<'local>(JObject<'local>);

/// A `byte[]` that the VM created. Only `new_byte_array` makes one.
pub struct ByteArray<'local>(JObject<'local>);

impl<'local> ByteArray<'local> {
    /// The array as a plain object reference.
    pub(crate) fn as_object(&self) -> (r: &JObject<'local>) {
        &self.0
    }
}

/// How a JNI call failed.
pub enum JniFailure {
    /// A Java exception is pending.
    JavaException,
    /// Any other failure, with its description.
    Other(String),
}

/// Relies on `jni::errors::Error`: tells a pending Java exception from the
/// other failures, which are described by their `Display` text.
#[verifier::external_body]
pub(crate) fn classify_error(e: Error) -> (r: JniFailure) {
    match e {
        Error::JavaException => JniFailure::JavaException,
        other => JniFailure::Other(other.to_string()),
    }
}

/// Relies on `JObject::null`: the null reference.
#[verifier::external_body]
pub(crate) fn null_object<'local>() -> (r: JObject<'local>) {
    JObject::null()
}

/// Relies on `JClass::from(JObject)`: the same reference, typed as a class.
#[verifier::external_body]
pub(crate) fn class_from_object<'local>(o: JObject<'local>) -> (r: JClass<'local>) {
    JClass::from(o)
}

/// Relies on `JNIEnv::find_class`: looks a class up by its binary name.
#[verifier::external_body]
pub(crate) fn find_class<'local>(env: &mut JNIEnv<'local>, name: &str) -> (r: Result<
    JClass<'local>,
    Error,
>) {
    env.find_class(name)
}

/// Relies on `JNIEnv::new_string`: a Java string with the given text.
#[verifier::external_body]
pub(crate) fn new_string<'local>(env: &mut JNIEnv<'local>, text: &str) -> (r: Result<
    JObject<'local>,
    Error,
>) {
    env.new_string(text).map(JObject::from)
}

/// Relies on `JNIEnv::new_object_array`: an array of `length` references
/// of class `class`, each set to `init`.
#[verifier::external_body]
pub(crate) fn new_object_array<'local>(
    env: &mut JNIEnv<'local>,
    length: i32,
    class: &JClass<'local>,
    init: &JObject<'local>,
) -> (r: Result<JObject<'local>, Error>)
    requires
        length >= 0,
{
    env.new_object_array(length, class, init).map(JObject::from)
}

/// Relies on `JNIEnv::call_static_method` with object arguments; the result
/// is the returned reference (possibly null), or `None` when the method's
/// result is not a reference.
#[verifier::external_body]
pub(crate) fn call_static_method<'local>(
    env: &mut JNIEnv<'local>,
    class: &JClass<'local>,
    name: &str,
    sig: &str,
    args: &[&JObject<'local>],
) -> (r: Result<Option<JObject<'local>>, Error>)
    requires
        no_method_typed_argument(sig@),
{
    let args: Vec<JValue> = args.iter().map(|a| JValue::Object(a)).collect();
    env.call_static_method(class, name, sig, &args).map(|v| match v {
        JValueGen::Object(o) => Some(o),
        _ => None,
    })
}

/// Relies on `JNIEnv::call_method` with object arguments; the result is the
/// returned reference (possibly null), or `None` when the method's result is
/// not a reference.
#[verifier::external_body]
pub(crate) fn call_method<'local>(
    env: &mut JNIEnv<'local>,
    obj: &JObject<'local>,
    name: &str,
    sig: &str,
    args: &[&JObject<'local>],
) -> (r: Result<Option<JObject<'local>>, Error>)
    requires
        no_method_typed_argument(sig@),
{
    let args: Vec<JValue> = args.iter().map(|a| JValue::Object(a)).collect();
    env.call_method(obj, name, sig, &args).map(|v| match v {
        JValueGen::Object(o) => Some(o),
        _ => None,
    })
}

/// Relies on `JNIEnv::new_object`: constructs an object of `class` through
/// the constructor with signature `sig`.
#[verifier::external_body]
pub(crate) fn new_object<'local>(
    env: &mut JNIEnv<'local>,
    class: &JClass<'local>,
    sig: &str,
    args: &[&JObject<'local>],
) -> (r: Result<JObject<'local>, Error>)
    requires
        no_method_typed_argument(sig@),
{
    let args: Vec<JValue> = args.iter().map(|a| JValue::Object(a)).collect();
    env.new_object(class, sig, &args)
}

/// Relies on `JNIEnv::get_int_array_region`: copies `buf.len()` elements of
/// the `int[]` array from index `start` into `buf`, whose length it keeps.
#[verifier::external_body]
pub(crate) fn get_int_array_region<'local>(
    env: &mut JNIEnv<'local>,
    array: &IntArray<'local>,
    start: i32,
    buf: &mut Vec<i32>,
) -> (r: Result<(), Error>)
    ensures
        final(buf)@.len() == old(buf)@.len(),
{
    let array: &JIntArray = (&array.0).into();
    env.get_int_array_region(array, start, buf.as_mut_slice())
}

/// Relies on `JNIEnv::new_byte_array`: a `byte[]` of `length` zeros.
#[verifier::external_body]
pub(crate) fn new_byte_array<'local>(env: &mut JNIEnv<'local>, length: i32) -> (r: Result<
    ByteArray<'local>,
    Error,
>)
    requires
        length >= 0,
{
    match env.new_byte_array(length) {
        Ok(a) => Ok(ByteArray(JObject::from(a))),
        Err(e) => Err(e),
    }
}

/// Relies on `JNIEnv::set_byte_array_region`: copies `bytes`, each read as
/// a signed Java byte, into the `byte[]` array from index `start`.
#[verifier::external_body]
pub(crate) fn set_byte_array_region<'local>(
    env: &mut JNIEnv<'local>,
    array: &ByteArray<'local>,
    start: i32,
    bytes: &[u8],
) -> (r: Result<(), Error>) {
    let array: &JByteArray = (&array.0).into();
    let signed: Vec<i8> = bytes.iter().map(|b| *b as i8).collect();
    env.set_byte_array_region(array, start, &signed)
}

/// Relies on `JNIEnv::exception_occurred`: the pending throwable, if any.
#[verifier::external_body]
pub(crate) fn exception_occurred<'local>(env: &mut JNIEnv<'local>) -> (r: Result<
    JObject<'local>,
    Error,
>) {
    env.exception_occurred().map(JObject::from)
}

/// Relies on `JNIEnv::exception_clear`: clears the pending exception.
#[verifier::external_body]
pub(crate) fn exception_clear<'local>(env: &mut JNIEnv<'local>) -> (r: Result<(), Error>) {
    env.exception_clear()
}

/// Relies on `JNIEnv::get_string`: the text of a `java.lang.String`.
#[verifier::external_body]
pub(crate) fn get_string<'local>(env: &mut JNIEnv<'local>, s: &JObject<'local>) -> (r: Result<
    String,
    Error,
>) {
    let s: &JString = s.into();
    env.get_string(s).map(String::from)
}

/// Relies on `JNIEnv::is_instance_of`: whether `obj` is an instance of the
/// class with binary name `class_name` (a null reference is one of every
/// class).
#[verifier::external_body]
pub(crate) fn is_instance_of<'local>(
    env: &mut JNIEnv<'local>,
    obj: &JObject<'local>,
    class_name: &str,
) -> (r: Result<bool, Error>) {
    env.is_instance_of(obj, class_name)
}

/// Relies on the raw pointer's `is_null` that `JObject` dereferences to:
/// whether the reference is null.
#[verifier::external_body]
pub(crate) fn is_null<'local>(obj: &JObject<'local>) -> (r: bool) {
    obj.is_null()
}

/// `obj` as an `int[]` when the VM says it is one (or it is null).
pub(crate) fn as_int_array<'local>(env: &mut JNIEnv<'local>, obj: JObject<'local>) -> (r: Result<
    Option<IntArray<'local>>,
    Error,
>) {
    match is_instance_of(env, &obj, "[I") {
        Ok(true) => Ok(Some(IntArray(obj))),
        Ok(false) => Ok(None),
        Err(e) => Err(e),
    }
}

} // verus!
