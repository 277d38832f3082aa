//! Touch-input decoding: raw kernel input records in, touch gestures in
//! surface coordinates out; and the JNI bridge that loads the Java side and
//! reports the display geometry.
pub mod mapper;
pub mod record;
pub mod touch;
pub mod devices;
pub mod jvm;
pub mod jni_result_ext;
pub mod dex;
pub mod bridge;
