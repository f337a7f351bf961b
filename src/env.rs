use vstd::prelude::*;
use jni::errors::Error as JniError;
use ejni::{Class, JavaString, Object};
use jni::objects::{JObject, JValue};
use jni::JNIEnv;
use crate::object::{Arg, ArgKind, ConstructorCall, StaticFieldCall};

verus! {

#[verifier::external_type_specification]
#[verifier::external_body]
pub struct ExJNIEnv<'a>(JNIEnv<'a>);

#[verifier::external_type_specification]
#[verifier::external_body]
pub struct ExJObject<'a>(JObject<'a>);

#[verifier::external_type_specification]
#[verifier::external_body]
pub struct ExRawObject(jni::sys::_jobject);

#[verifier::external_type_specification]
#[verifier::external_body]
pub struct ExJValue<'a>(JValue<'a>);

#[verifier::external_type_specification]
#[verifier::external_body]
pub struct ExClass<'a>(Class<'a>);

#[verifier::external_type_specification]
#[verifier::external_body]
pub struct ExObject<'a>(Object<'a>);

/// The environment of a thread attached to the foreign runtime, borrowed by
/// every operation.
pub type Env<'a> = &'a JNIEnv<'a>;

/// Relies on `JNIEnv::new_object`: runs the constructor that `call` names
/// (class name and descriptor) on `args`, each turned one for one into the
/// runtime's value (an object through ejni's `Into<JValue>`, a boolean as
/// `JValue::Bool`); what it returns is up to the runtime.
#[verifier::external_body]
pub(crate) fn jni_new_object<'a>(
    env: Env<'a>,
    call: &ConstructorCall,
    args: Vec<Arg<'a>>,
) -> (r: Result<JObject<'a>, JniError>) {
    let mut values: Vec<JValue<'a>> = Vec::new();
    for a in args {
        values.push(match a.kind {
            ArgKind::Object(_, o, _) => o.into(),
            ArgKind::Boolean(b) => JValue::Bool(u8::from(b)),
        });
    }
    env.new_object(call.class_name, call.descriptor.as_str(), &values)
}

/// Relies on `JNIEnv::get_static_field`: reads the static field `field` of
/// the class and declared type that `call` names; what it returns is up to
/// the runtime.
#[verifier::external_body]
pub(crate) fn jni_get_static_field<'a>(
    env: Env<'a>,
    call: &StaticFieldCall,
    field: &str,
) -> (r: Result<JValue<'a>, JniError>) {
    env.get_static_field(call.class_name, field, call.type_descriptor.as_str())
}

/// Relies on `JNIEnv::exception_clear`: clears any exception pending on
/// this thread; it has no other effect and always succeeds.
#[verifier::external_body]
pub(crate) fn jni_exception_clear<'a>(env: Env<'a>) {
    let _ = env.exception_clear();
}

/// Relies on `JNIEnv::is_same_object` against `JObject::null()`: whether
/// `obj` is a null reference.
#[verifier::external_body]
pub(crate) fn jni_is_null<'a>(env: Env<'a>, obj: JObject<'a>) -> (r: Result<bool, JniError>) {
    env.is_same_object(obj, JObject::null())
}

/// Relies on jni's `Error::NullDeref`, the error jni gives for a null
/// reference met where an object is needed, naming `what`.
#[verifier::external_body]
pub(crate) fn jni_null_deref(what: &'static str) -> (r: JniError) {
    JniError::NullDeref(what)
}

/// Relies on `JValue::l`: the reference a value holds, or an error where it
/// holds no object.
#[verifier::external_body]
pub(crate) fn jni_value_object<'a>(v: JValue<'a>) -> (r: Result<JObject<'a>, JniError>) {
    v.l()
}

/// Relies on ejni's `Class::for_name`: looks a class up by its name.
#[verifier::external_body]
pub(crate) fn ejni_class_for_name<'a>(
    env: Env<'a>,
    name: &str,
) -> (r: Result<Class<'a>, JniError>) {
    Class::for_name(env, name)
}

/// Relies on ejni's `Object::new`, which pairs a reference with its class.
#[verifier::external_body]
pub(crate) fn ejni_object_new<'a>(
    env: Env<'a>,
    obj: JObject<'a>,
    class: Class<'a>,
) -> (r: Object<'a>) {
    Object::new(env, obj, class)
}

/// Relies on ejni's `JavaString::from_rust`: a new `java.lang.String` holding
/// the characters of `s`, as an object.
#[verifier::external_body]
pub(crate) fn ejni_string_from_rust<'a>(
    env: Env<'a>,
    s: &str,
) -> (r: Result<Object<'a>, JniError>) {
    JavaString::from_rust(env, s).map(|js| js.inner)
}

} // verus!
