//! The bridge to the Java side: its main class, its entry point, and the
//! display geometry that it reports.
use vstd::prelude::*;
use jni::objects::JClass;
use jni::JNIEnv;
use crate::dex::inject_dex;
use crate::jni_result_ext::{check_result, is_call_failure, BridgeError};
use crate::jvm::{
    as_int_array, call_static_method, find_class, get_int_array_region, new_object_array,
    null_object,
};

verus! {

/// The binary name of the Java class that the bridge drives.
pub const MAIN_CLASS: &'static str = "com.example.mylibrary.Main";

/// The Java side's main class, loaded from an in-memory class image.
pub struct JavaBridge<'a> {
    main_class: JClass<'a>,
}

/// Width and height of the window for the display size `(width, height)`
/// reported at rotation code `rotation`: the two are exchanged at rotations
/// 0 and 2.
pub open spec fn spec_window_size(width: i32, height: i32, rotation: i32) -> (i32, i32) {
    if rotation == 0 || rotation == 2 {
        (height, width)
    } else {
        (width, height)
    }
}

/// Width and height of the window for a reported display size and rotation.
pub fn window_size(width: i32, height: i32, rotation: i32) -> (r: (i32, i32))
    ensures
        r == spec_window_size(width, height, rotation),
{
    if rotation == 0 || rotation == 2 {
        (height, width)
    } else {
        (width, height)
    }
}

impl<'a> JavaBridge<'a> {
    /// Loads the class image `dex_bytes` into a VM of API level `api_level`
    /// and looks up `MAIN_CLASS` in it.
    pub fn new(env: &mut JNIEnv<'a>, dex_bytes: &[u8], api_level: u32) -> (r: Result<
        Self,
        BridgeError,
    >)
        ensures
            api_level < crate::dex::MIN_IN_MEMORY_API_LEVEL ==> (r matches Err(
                BridgeError::UnsupportedApiLevel(a),
            ) && a == api_level),
            r matches Err(BridgeError::UnsupportedApiLevel(a)) ==> a == api_level && api_level
                < crate::dex::MIN_IN_MEMORY_API_LEVEL,
            api_level >= crate::dex::MIN_IN_MEMORY_API_LEVEL ==> (dex_bytes@.len() > i32::MAX
                <==> (r matches Err(BridgeError::DexTooLarge))),
            r is Err ==> is_call_failure(r->Err_0) || r->Err_0 is NotAnObject
                || r->Err_0 is DexTooLarge || r->Err_0 is UnsupportedApiLevel,
    {
        let cl = inject_dex(env, dex_bytes, api_level)?;
        let main_class = cl.find_class(env, MAIN_CLASS)?;
        Ok(JavaBridge { main_class })
    }

    /// Calls the static `main(String[])` of the main class with no arguments.
    pub fn call_main(&self, env: &mut JNIEnv<'a>) -> (r: Result<(), BridgeError>)
        ensures
            r is Err ==> is_call_failure(r->Err_0),
    {
        let string_cls = check_result(find_class(env, "java/lang/String"), env)?;
        let null = null_object();
        let empty_array = check_result(new_object_array(env, 0, &string_cls, &null), env)?;
        proof {
            reveal_strlit("([Ljava/lang/String;)V");
        }
        let called = call_static_method(
            env,
            &self.main_class,
            "main",
            "([Ljava/lang/String;)V",
            &[&empty_array],
        );
        check_result(called, env)?;
        Ok(())
    }

    /// The display's `(width, height, rotation)`, the first three elements of
    /// the `int[]` that the main class's `getDisplayInfo()` returns. A result
    /// that is not an `int[]` is `NotAnObject`.
    pub fn get_display_size(&self, env: &mut JNIEnv<'a>) -> (r: Result<(i32, i32, i32), BridgeError>)
        ensures
            r is Err ==> is_call_failure(r->Err_0) || r->Err_0 is NotAnObject,
    {
        proof {
            reveal_strlit("()[I");
        }
        let called = call_static_method(env, &self.main_class, "getDisplayInfo", "()[I", &[]);
        let info = match check_result(called, env)? {
            Some(a) => a,
            None => return Err(BridgeError::NotAnObject),
        };
        let info = match check_result(as_int_array(env, info), env)? {
            Some(a) => a,
            None => return Err(BridgeError::NotAnObject),
        };
        let mut buf: Vec<i32> = vec![0i32; 3];
        check_result(get_int_array_region(env, &info, 0, &mut buf), env)?;
        Ok((buf[0], buf[1], buf[2]))
    }
}

} // verus!
