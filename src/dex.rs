//! Loading classes from an in-memory class image through a class loader.
use vstd::prelude::*;
use jni::objects::{JClass, JObject};
use jni::JNIEnv;
use crate::jni_result_ext::{check_result, is_call_failure, BridgeError};
use crate::jvm::{
    call_method, call_static_method, class_from_object, find_class, new_byte_array, new_object,
    new_object_array, new_string, set_byte_array_region,
};

verus! {

/// The lowest API level whose VM loads classes from memory.
pub const MIN_IN_MEMORY_API_LEVEL: u32 = 26;

/// A `java.lang.ClassLoader` reference.
pub struct ClassLoader<'local>(pub JObject<'local>);

impl<'local> ClassLoader<'local> {
    /// The class named `class_name` as this loader finds it, as an object.
    pub fn find_class_as_object(&self, env: &mut JNIEnv<'local>, class_name: &str) -> (r: Result<
        JObject<'local>,
        BridgeError,
    >)
        ensures
            r is Err ==> is_call_failure(r->Err_0) || r->Err_0 is NotAnObject,
    {
        let name = check_result(new_string(env, class_name), env)?;
        proof {
            reveal_strlit("(Ljava/lang/String;)Ljava/lang/Class;");
        }
        let found = call_method(
            env,
            &self.0,
            "findClass",
            "(Ljava/lang/String;)Ljava/lang/Class;",
            &[&name],
        );
        match check_result(found, env)? {
            Some(cls) => Ok(cls),
            None => Err(BridgeError::NotAnObject),
        }
    }

    /// The class named `class_name` as this loader finds it.
    pub fn find_class(&self, env: &mut JNIEnv<'local>, class_name: &str) -> (r: Result<
        JClass<'local>,
        BridgeError,
    >)
        ensures
            r is Err ==> is_call_failure(r->Err_0) || r->Err_0 is NotAnObject,
    {
        let obj = self.find_class_as_object(env, class_name)?;
        Ok(class_from_object(obj))
    }
}

impl<'local> core::ops::Deref for ClassLoader<'local> {
    type Target = JObject<'local>;

    fn deref(&self) -> &JObject<'local> {
        &self.0
    }
}

impl<'local> core::ops::DerefMut for ClassLoader<'local> {
    fn deref_mut(&mut self) -> &mut JObject<'local> {
        &mut self.0
    }
}

/// A class loader over the class image `dex_bytes`, for a VM of API level
/// `api_level`. Levels below `MIN_IN_MEMORY_API_LEVEL` cannot load from
/// memory, and this library has no other loader: they are answered with
/// `UnsupportedApiLevel` rather than a panic, so that callers decide.
pub fn inject_dex<'local>(env: &mut JNIEnv<'local>, dex_bytes: &[u8], api_level: u32) -> (r: Result<
    ClassLoader<'local>,
    BridgeError,
>)
    ensures
        api_level < MIN_IN_MEMORY_API_LEVEL ==> (r matches Err(
            BridgeError::UnsupportedApiLevel(a),
        ) && a == api_level),
        r matches Err(BridgeError::UnsupportedApiLevel(a)) ==> a == api_level && api_level
            < MIN_IN_MEMORY_API_LEVEL,
        api_level >= MIN_IN_MEMORY_API_LEVEL ==> (dex_bytes@.len() > i32::MAX <==> (r matches Err(
            BridgeError::DexTooLarge,
        ))),
        r is Err ==> is_call_failure(r->Err_0) || r->Err_0 is NotAnObject
            || r->Err_0 is DexTooLarge || r->Err_0 is UnsupportedApiLevel,
{
    if api_level >= MIN_IN_MEMORY_API_LEVEL {
        load_dex_from_memory(env, dex_bytes)
    } else {
        Err(BridgeError::UnsupportedApiLevel(api_level))
    }
}

/// Wraps the image in a `ByteBuffer` and builds an `InMemoryDexClassLoader`
/// over it, whose parent is the system class loader.
fn load_dex_from_memory<'local>(env: &mut JNIEnv<'local>, dex_bytes: &[u8]) -> (r: Result<
    ClassLoader<'local>,
    BridgeError,
>)
    ensures
        dex_bytes@.len() > i32::MAX <==> (r matches Err(BridgeError::DexTooLarge)),
        r is Err ==> is_call_failure(r->Err_0) || r->Err_0 is NotAnObject
            || r->Err_0 is DexTooLarge,
{
    if dex_bytes.len() > i32::MAX as usize {
        return Err(BridgeError::DexTooLarge);
    }
    let array = check_result(new_byte_array(env, dex_bytes.len() as i32), env)?;
    check_result(set_byte_array_region(env, &array, 0, dex_bytes), env)?;
    proof {
        reveal_strlit("([B)Ljava/nio/ByteBuffer;");
        reveal_strlit("()Ljava/lang/ClassLoader;");
        reveal_strlit("([Ljava/nio/ByteBuffer;Ljava/lang/ClassLoader;)V");
    }
    let byte_buffer_class = check_result(find_class(env, "java/nio/ByteBuffer"), env)?;
    let wrapped = call_static_method(
        env,
        &byte_buffer_class,
        "wrap",
        "([B)Ljava/nio/ByteBuffer;",
        &[array.as_object()],
    );
    let buffer = match check_result(wrapped, env)? {
        Some(b) => b,
        None => return Err(BridgeError::NotAnObject),
    };
    let buffers = check_result(new_object_array(env, 1, &byte_buffer_class, &buffer), env)?;
    let loader_class = check_result(find_class(env, "dalvik/system/InMemoryDexClassLoader"), env)?;
    let class_loader_class = check_result(find_class(env, "java/lang/ClassLoader"), env)?;
    let system = call_static_method(
        env,
        &class_loader_class,
        "getSystemClassLoader",
        "()Ljava/lang/ClassLoader;",
        &[],
    );
    let system_loader = match check_result(system, env)? {
        Some(l) => l,
        None => return Err(BridgeError::NotAnObject),
    };
    let loader = new_object(
        env,
        &loader_class,
        "([Ljava/nio/ByteBuffer;Ljava/lang/ClassLoader;)V",
        &[&buffers, &system_loader],
    );
    Ok(ClassLoader(check_result(loader, env)?))
}

} // verus!
