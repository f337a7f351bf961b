use vstd::prelude::*;
use ejni::Object;
use crate::class_id::{ClassId, class_name};
use crate::descriptor::{JavaType, constructor_descriptor};
use crate::env::Env;
use crate::error::{Error, PdfResult};
use crate::object::{
    Arg, ObjectHandle, Origin, arg_type, arg_types, arg_origin, arg_origins, arg_object, construct,
    new_java_string,
};
use crate::traits::ClassName;

verus! {

/// A `java.io.File`.
pub struct File<'a> {
    env: Env<'a>,
    handle: ObjectHandle<'a>,
}

impl<'a> ClassName for File<'a> {
    open spec fn class_of() -> ClassId {
        ClassId::File
    }

    fn name() -> (r: &'static str) {
        ClassId::File.name()
    }
}

impl<'a> File<'a> {
    #[verifier::type_invariant]
    spec fn inv(&self) -> bool {
        self.handle.class_id() == ClassId::File
    }

    /// How the runtime produced this object.
    pub closed spec fn origin(&self) -> Origin {
        self.handle.origin()
    }

    /// The foreign object this value owns.
    pub closed spec fn obj(&self) -> Object<'a> {
        self.handle.obj()
    }

    /// The class this object was resolved against.
    pub fn class(&self) -> (r: ClassId)
        ensures
            r == ClassId::File,
    {
        proof {
            use_type_invariant(self);
        }
        self.handle.class()
    }

    /// Gives up this object for the foreign reference it owns.
    pub fn into_inner(self) -> (r: Object<'a>)
        ensures
            r == self.obj(),
    {
        self.handle.into_object()
    }

    /// Gives up this object for its handle.
    pub fn into_handle(self) -> (r: ObjectHandle<'a>)
        ensures
            r.class_id() == ClassId::File,
            r.origin() == self.origin(),
            r.obj() == self.obj(),
    {
        proof {
            use_type_invariant(&self);
        }
        self.handle
    }

    /// Gives up this object to pass it to a constructor.
    pub fn into_arg(self) -> (r: Arg<'a>)
        ensures
            arg_type(r) == JavaType::Object(ClassId::File),
            arg_origin(r) == self.origin(),
            arg_object(r) == Some(self.obj()),
    {
        proof {
            use_type_invariant(&self);
        }
        self.handle.into_arg()
    }

    /// Wraps a handle of this class; `None` where the handle is of another class.
    pub fn from_handle(env: Env<'a>, handle: ObjectHandle<'a>) -> (r: Option<Self>)
        ensures
            r is Some <==> handle.class_id() == ClassId::File,
            r is Some ==> r->Some_0.origin() == handle.origin() && r->Some_0.obj() == handle.obj(),
    {
        if handle.class() == ClassId::File {
            Some(File { env, handle })
        } else {
            None
        }
    }

    /// A file handle constructed from the string handle `path`, which is
    /// given up for it. A failed string is passed on unchanged, and then
    /// nothing is constructed.
    pub fn from_string(env: Env<'a>, path: PdfResult<ObjectHandle<'a>>) -> (r: PdfResult<Self>)
        ensures
            path is Err ==> r == Err::<File<'a>, Error>(path->Err_0),
            path is Ok ==> (r is Ok ==> r->Ok_0.origin() == Origin::Constructor(
                class_name(ClassId::File),
                constructor_descriptor(seq![JavaType::Object(path->Ok_0.class_id())]),
                seq![path->Ok_0.origin()],
            )),
    {
        let string = match path {
            Ok(string) => string,
            Err(e) => return Err(e),
        };
        let ghost string_class = string.class_id();
        let ghost string_origin = string.origin();
        let mut args: Vec<Arg<'a>> = Vec::new();
        args.push(string.into_arg());
        proof {
            assert(arg_types(args@) =~= seq![JavaType::Object(string_class)]);
            assert(arg_origins(args@) =~= seq![string_origin]);
        }
        match construct(env, ClassId::File, args) {
            Ok(handle) => Ok(File { env, handle }),
            Err(e) => Err(e),
        }
    }

    /// A file handle for `path`: the path is made into a foreign string,
    /// which is then given up to the constructor.
    pub fn new(env: Env<'a>, path: &str) -> (r: PdfResult<Self>)
        ensures
            r is Ok ==> r->Ok_0.origin() == Origin::Constructor(
                class_name(ClassId::File),
                constructor_descriptor(seq![JavaType::Object(ClassId::JavaString)]),
                seq![Origin::Text(path@)],
            ),
    {
        let string = new_java_string(env, path);
        Self::from_string(env, string)
    }
}

} // verus!
