use vstd::prelude::*;
use ejni::Object;
use crate::class_id::{ClassId, class_name};
use crate::descriptor::{JavaType, constructor_descriptor};
use crate::env::Env;
use crate::error::PdfResult;
use crate::object::{
    Arg, ObjectHandle, Origin, arg_type, arg_types, arg_origin, arg_origins, arg_object, construct,
};
use crate::traits::ClassName;

verus! {

/// A `com.itextpdf.kernel.pdf.DocumentProperties`.
pub struct DocumentProperties<'a> {
    env: Env<'a>,
    handle: ObjectHandle<'a>,
}

impl<'a> ClassName for DocumentProperties<'a> {
    open spec fn class_of() -> ClassId {
        ClassId::DocumentProperties
    }

    fn name() -> (r: &'static str) {
        ClassId::DocumentProperties.name()
    }
}

impl<'a> DocumentProperties<'a> {
    #[verifier::type_invariant]
    spec fn inv(&self) -> bool {
        self.handle.class_id() == ClassId::DocumentProperties
    }

    /// How the runtime produced this object.
    pub closed spec fn origin(&self) -> Origin {
        self.handle.origin()
    }

    /// The foreign object this value owns.
    pub closed spec fn obj(&self) -> Object<'a> {
        self.handle.obj()
    }

    /// The class this object was resolved against.
    pub fn class(&self) -> (r: ClassId)
        ensures
            r == ClassId::DocumentProperties,
    {
        proof {
            use_type_invariant(self);
        }
        self.handle.class()
    }

    /// Gives up this object for the foreign reference it owns.
    pub fn into_inner(self) -> (r: Object<'a>)
        ensures
            r == self.obj(),
    {
        self.handle.into_object()
    }

    /// Gives up this object for its handle.
    pub fn into_handle(self) -> (r: ObjectHandle<'a>)
        ensures
            r.class_id() == ClassId::DocumentProperties,
            r.origin() == self.origin(),
            r.obj() == self.obj(),
    {
        proof {
            use_type_invariant(&self);
        }
        self.handle
    }

    /// Gives up this object to pass it to a constructor.
    pub fn into_arg(self) -> (r: Arg<'a>)
        ensures
            arg_type(r) == JavaType::Object(ClassId::DocumentProperties),
            arg_origin(r) == self.origin(),
            arg_object(r) == Some(self.obj()),
    {
        proof {
            use_type_invariant(&self);
        }
        self.handle.into_arg()
    }

    /// Wraps a handle of this class; `None` where the handle is of another class.
    pub fn from_handle(env: Env<'a>, handle: ObjectHandle<'a>) -> (r: Option<Self>)
        ensures
            r is Some <==> handle.class_id() == ClassId::DocumentProperties,
            r is Some ==> r->Some_0.origin() == handle.origin() && r->Some_0.obj() == handle.obj(),
    {
        if handle.class() == ClassId::DocumentProperties {
            Some(DocumentProperties { env, handle })
        } else {
            None
        }
    }

    /// Default document properties.
    pub fn new(
        env: Env<'a>,
    ) -> (r: PdfResult<Self>)
        ensures
            r is Ok ==> r->Ok_0.origin() == Origin::Constructor(
                class_name(ClassId::DocumentProperties),
                constructor_descriptor(Seq::<JavaType>::empty()),
                Seq::<Origin>::empty(),
            ),
    {
        let mut args: Vec<Arg<'a>> = Vec::new();
        proof {
            assert(arg_types(args@) =~= Seq::<JavaType>::empty());
            assert(arg_origins(args@) =~= Seq::<Origin>::empty());
        }
        match construct(env, ClassId::DocumentProperties, args) {
            Ok(handle) => Ok(DocumentProperties { env, handle }),
            Err(e) => Err(e),
        }
    }
}

} // verus!
