use vstd::prelude::*;
use jni::errors::Error as JniError;
use ejni::{Class, Object};
use jni::objects::JObject;
use crate::class_id::{ClassId, class_name};
use crate::descriptor::{
    JavaType, constructor_descriptor, object_descriptor, build_constructor_descriptor,
    object_type_descriptor,
};
use crate::env::{
    Env, jni_new_object, jni_get_static_field, jni_value_object, ejni_class_for_name,
    ejni_object_new, ejni_string_from_rust, jni_exception_clear, jni_is_null, jni_null_deref,
};
use crate::error::{Error, PdfResult, from_jni};

verus! {

/// How the runtime produced the object behind a handle, or the value of an
/// argument.
pub enum Origin {
    /// Run by the constructor of the named class with this descriptor, on
    /// arguments with these origins.
    Constructor(Seq<char>, Seq<char>, Seq<Origin>),
    /// Read from the static field of the named class, with the field's name
    /// and its type descriptor.
    StaticField(Seq<char>, Seq<char>, Seq<char>),
    /// A new string holding these characters.
    Text(Seq<char>),
    /// A boolean argument.
    Flag(bool),
    /// An object made outside this library and handed to it; its maker
    /// answers for its class.
    Outside,
}

/// An owned foreign object together with the class it was resolved against.
pub struct ObjectHandle<'a> {
    obj: Object<'a>,
    class: ClassId,
    origin: Ghost<Origin>,
}

impl<'a> ObjectHandle<'a> {
    /// The class this handle was resolved against.
    pub closed spec fn class_id(&self) -> ClassId {
        self.class
    }

    /// How the runtime produced the object.
    pub closed spec fn origin(&self) -> Origin {
        self.origin@
    }

    /// The foreign object this handle owns.
    pub closed spec fn obj(&self) -> Object<'a> {
        self.obj
    }

    /// The class this handle was resolved against.
    pub fn class(&self) -> (r: ClassId)
        ensures
            r == self.class_id(),
    {
        self.class
    }

    /// Gives up the handle for the foreign object it owns.
    pub fn into_object(self) -> (r: Object<'a>)
        ensures
            r == self.obj(),
    {
        self.obj
    }

    /// Gives up the handle to pass it as a constructor argument; the
    /// argument is the handle's object, typed by the handle's class.
    pub fn into_arg(self) -> (r: Arg<'a>)
        ensures
            arg_type(r) == JavaType::Object(self.class_id()),
            arg_origin(r) == self.origin(),
            arg_object(r) == Some(self.obj()),
    {
        Arg { kind: ArgKind::Object(self.class, self.obj, self.origin) }
    }
}

/// One argument handed to a foreign constructor. An object argument is
/// made only by giving up a handle (`into_arg`), so its class and origin
/// are the handle's own.
pub struct Arg<'a> {
    pub(crate) kind: ArgKind<'a>,
}

/// What an argument holds.
pub(crate) enum ArgKind<'a> {
    /// An object of the given class, whose handle was given up for it.
    Object(ClassId, Object<'a>, Ghost<Origin>),
    Boolean(bool),
}

impl<'a> Arg<'a> {
    /// A boolean argument.
    pub fn boolean(b: bool) -> (r: Arg<'a>)
        ensures
            arg_type(r) == JavaType::Boolean,
            arg_origin(r) == Origin::Flag(b),
            arg_object(r) == None::<Object<'a>>,
    {
        Arg { kind: ArgKind::Boolean(b) }
    }
}

/// The foreign type of an argument.
pub closed spec fn arg_type(a: Arg) -> JavaType {
    match a.kind {
        ArgKind::Object(c, _, _) => JavaType::Object(c),
        ArgKind::Boolean(_) => JavaType::Boolean,
    }
}

/// How an argument was produced.
pub closed spec fn arg_origin(a: Arg) -> Origin {
    match a.kind {
        ArgKind::Object(_, _, o) => o@,
        ArgKind::Boolean(b) => Origin::Flag(b),
    }
}

/// The object an argument hands over, if it is one.
pub closed spec fn arg_object<'a>(a: Arg<'a>) -> Option<Object<'a>> {
    match a.kind {
        ArgKind::Object(_, o, _) => Some(o),
        ArgKind::Boolean(_) => None,
    }
}

/// The foreign types of an argument list, in order.
pub open spec fn arg_types(args: Seq<Arg>) -> Seq<JavaType> {
    args.map_values(|a: Arg| arg_type(a))
}

/// The origins of an argument list, in order.
pub open spec fn arg_origins(args: Seq<Arg>) -> Seq<Origin> {
    args.map_values(|a: Arg| arg_origin(a))
}

/// The foreign type of an argument.
pub fn type_of_arg(a: &Arg) -> (r: JavaType)
    ensures
        r == arg_type(*a),
{
    match &a.kind {
        ArgKind::Object(c, _, _) => JavaType::Object(*c),
        ArgKind::Boolean(_) => JavaType::Boolean,
    }
}

/// The foreign types of an argument list, in order.
pub fn types_of_args(args: &Vec<Arg>) -> (r: Vec<JavaType>)
    ensures
        r@ == arg_types(args@),
{
    let mut r: Vec<JavaType> = Vec::new();
    let mut i: usize = 0;
    while i < args.len()
        invariant
            i <= args@.len(),
            r@ == arg_types(args@.subrange(0, i as int)),
        decreases args@.len() - i,
    {
        let t = type_of_arg(&args[i]);
        r.push(t);
        proof {
            assert(arg_types(args@.subrange(0, i + 1)) =~= arg_types(
                args@.subrange(0, i as int),
            ).push(t));
        }
        i = i + 1;
    }
    proof {
        assert(args@.subrange(0, args@.len() as int) =~= args@);
    }
    r
}

/// Turns a failed runtime call into this library's error, after clearing
/// any exception the call left pending, so that none crosses back.
pub fn fail<'a>(env: Env<'a>, e: JniError) -> (r: Error)
    ensures
        r == Error::Jni(e),
{
    jni_exception_clear(env);
    from_jni(e)
}

/// Resolves `class` by its name through the runtime's class loader; a
/// failed lookup is turned into this library's error.
pub fn resolve_class<'a>(env: Env<'a>, class: ClassId) -> (r: PdfResult<Class<'a>>)
{
    let looked_up = ejni_class_for_name(env, class.name());
    accept_class(env, looked_up)
}

/// The outcome of a class lookup: a failed lookup gives its error, a
/// found class is passed on.
pub(crate) fn accept_class<'a>(
    env: Env<'a>,
    looked_up: Result<Class<'a>, JniError>,
) -> (r: PdfResult<Class<'a>>)
    ensures
        looked_up is Err ==> r == Err::<Class<'a>, Error>(Error::Jni(looked_up->Err_0)),
        looked_up is Ok ==> r == Ok::<Class<'a>, Error>(looked_up->Ok_0),
{
    match looked_up {
        Ok(c) => Ok(c),
        Err(e) => Err(fail(env, e)),
    }
}

/// What is handed to the runtime to construct an object.
pub struct ConstructorCall {
    pub class_name: &'static str,
    pub descriptor: String,
}

/// The class name and the descriptor for constructing `class` from `args`:
/// the descriptor is derived from the arguments actually passed.
pub fn plan_constructor(class: ClassId, args: &Vec<Arg>) -> (r: ConstructorCall)
    ensures
        r.class_name@ == class_name(class),
        r.descriptor@ == constructor_descriptor(arg_types(args@)),
{
    let types = types_of_args(args);
    ConstructorCall { class_name: class.name(), descriptor: build_constructor_descriptor(&types) }
}

/// What is handed to the runtime to read a static field of a class's own type.
pub struct StaticFieldCall {
    pub class_name: &'static str,
    pub type_descriptor: String,
}

/// The class name and the field type descriptor for reading a static field of
/// `class` whose type is `class` itself.
pub fn plan_static_field(class: ClassId) -> (r: StaticFieldCall)
    ensures
        r.class_name@ == class_name(class),
        r.type_descriptor@ == object_descriptor(class),
{
    StaticFieldCall { class_name: class.name(), type_descriptor: object_type_descriptor(class) }
}

/// Pairs a created reference with the outcome of resolving its class: a
/// failed lookup is passed on unchanged, a resolved class gives a handle
/// tagged with `class` and `origin`.
pub(crate) fn pair<'a>(
    env: Env<'a>,
    class: ClassId,
    origin: Ghost<Origin>,
    obj: JObject<'a>,
    resolved: PdfResult<Class<'a>>,
) -> (r: PdfResult<ObjectHandle<'a>>)
    ensures
        resolved is Err ==> r == Err::<ObjectHandle<'a>, Error>(resolved->Err_0),
        resolved is Ok ==> r is Ok && r->Ok_0.class_id() == class && r->Ok_0.origin() == origin@,
{
    match resolved {
        Err(e) => Err(e),
        Ok(c) => Ok(ObjectHandle { obj: ejni_object_new(env, obj, c), class, origin }),
    }
}

/// Pairs what the runtime created with the resolved class `class`. A failed
/// creation is passed on unchanged and nothing is resolved then; otherwise
/// the class is looked up and `pair` decides.
pub(crate) fn complete<'a>(
    env: Env<'a>,
    class: ClassId,
    origin: Ghost<Origin>,
    created: Result<JObject<'a>, JniError>,
) -> (r: PdfResult<ObjectHandle<'a>>)
    ensures
        created is Err ==> r == Err::<ObjectHandle<'a>, Error>(Error::Jni(created->Err_0)),
        r is Ok ==> created is Ok && r->Ok_0.class_id() == class && r->Ok_0.origin() == origin@,
{
    match created {
        Err(e) => Err(fail(env, e)),
        Ok(obj) => {
            let resolved = resolve_class(env, class);
            pair(env, class, origin, obj, resolved)
        },
    }
}

/// Constructs an object of `class` from `args`, which are given up for it.
/// The runtime runs the constructor that `plan_constructor` names, and an
/// object it returns records that class name, that descriptor and the
/// arguments' origins.
pub fn construct<'a>(
    env: Env<'a>,
    class: ClassId,
    args: Vec<Arg<'a>>,
) -> (r: PdfResult<ObjectHandle<'a>>)
    ensures
        r is Ok ==> r->Ok_0.class_id() == class,
        r is Ok ==> r->Ok_0.origin() == Origin::Constructor(
            class_name(class),
            constructor_descriptor(arg_types(args@)),
            arg_origins(args@),
        ),
{
    let ghost origins = arg_origins(args@);
    let call = plan_constructor(class, &args);
    let ghost origin = Origin::Constructor(call.class_name@, call.descriptor@, origins);
    let created = jni_new_object(env, &call, args);
    complete(env, class, Ghost(origin), created)
}

/// Decides on a static field's object from the runtime's answer to whether
/// it is null: a failed answer gives its error, a null gives `null_error`,
/// and a present object is accepted.
pub(crate) fn accept_static_value<'a>(
    obj: JObject<'a>,
    is_null: Result<bool, JniError>,
    null_error: JniError,
) -> (r: Result<JObject<'a>, JniError>)
    ensures
        is_null is Err ==> r == Err::<JObject<'a>, JniError>(is_null->Err_0),
        is_null == Ok::<bool, JniError>(true) ==> r == Err::<JObject<'a>, JniError>(null_error),
        is_null == Ok::<bool, JniError>(false) ==> r == Ok::<JObject<'a>, JniError>(obj),
        r is Ok ==> r->Ok_0 == obj,
{
    match is_null {
        Err(e) => Err(e),
        Ok(true) => Err(null_error),
        Ok(false) => Ok(obj),
    }
}

/// Checks the object a static field held: an error taking it out is passed
/// on unchanged; otherwise `accept_static_value` decides on the runtime's
/// null test.
fn present_object<'a>(
    env: Env<'a>,
    value: Result<JObject<'a>, JniError>,
) -> (r: Result<JObject<'a>, JniError>)
    ensures
        value is Err ==> r == value,
        r is Ok ==> value is Ok && r->Ok_0 == value->Ok_0,
{
    match value {
        Err(e) => Err(e),
        Ok(obj) => {
            let is_null = jni_is_null(env, obj);
            accept_static_value(obj, is_null, jni_null_deref("static field"))
        },
    }
}

/// Reads the static field `field` of `class`, whose type is `class` itself.
/// A non-null object it returns records the class name, the field and the
/// field's type descriptor.
pub fn static_instance<'a>(
    env: Env<'a>,
    class: ClassId,
    field: &str,
) -> (r: PdfResult<ObjectHandle<'a>>)
    ensures
        r is Ok ==> r->Ok_0.class_id() == class,
        r is Ok ==> r->Ok_0.origin() == Origin::StaticField(
            class_name(class),
            field@,
            object_descriptor(class),
        ),
{
    let call = plan_static_field(class);
    let ghost origin = Origin::StaticField(call.class_name@, field@, call.type_descriptor@);
    let created = match jni_get_static_field(env, &call, field) {
        Ok(v) => present_object(env, jni_value_object(v)),
        Err(e) => Err(e),
    };
    complete(env, class, Ghost(origin), created)
}

/// A string handle from the outcome of converting `text`: a failed
/// conversion is passed on unchanged, a converted string is tagged with
/// its text.
pub(crate) fn string_handle<'a>(
    env: Env<'a>,
    text: Ghost<Seq<char>>,
    converted: Result<Object<'a>, JniError>,
) -> (r: PdfResult<ObjectHandle<'a>>)
    ensures
        converted is Err ==> r == Err::<ObjectHandle<'a>, Error>(Error::Jni(converted->Err_0)),
        converted is Ok ==> r is Ok && r->Ok_0.class_id() == ClassId::JavaString
            && r->Ok_0.origin() == Origin::Text(text@) && r->Ok_0.obj() == converted->Ok_0,
{
    match converted {
        Ok(obj) => Ok(ObjectHandle { obj, class: ClassId::JavaString, origin: Ghost(Origin::Text(text@)) }),
        Err(e) => Err(fail(env, e)),
    }
}

/// A new `java.lang.String` holding `s`, as a handle.
pub fn new_java_string<'a>(env: Env<'a>, s: &str) -> (r: PdfResult<ObjectHandle<'a>>)
    ensures
        r is Ok ==> r->Ok_0.class_id() == ClassId::JavaString,
        r is Ok ==> r->Ok_0.origin() == Origin::Text(s@),
{
    let converted = ejni_string_from_rust(env, s);
    string_handle(env, Ghost(s@), converted)
}

} // verus!
