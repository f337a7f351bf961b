use vstd::prelude::*;
use ejni::Object;
use crate::class_id::{ClassId, class_name};
use crate::descriptor::{JavaType, constructor_descriptor};
use crate::env::Env;
use crate::error::PdfResult;
use crate::object::{
    Arg, ObjectHandle, Origin, arg_type, arg_types, arg_origin, arg_origins, arg_object, construct,
};
use crate::traits::ClassName;
use crate::file::File;

verus! {

/// A `com.itextpdf.kernel.pdf.PdfWriter`.
pub struct PdfWriter<'a> {
    env: Env<'a>,
    handle: ObjectHandle<'a>,
}

impl<'a> ClassName for PdfWriter<'a> {
    open spec fn class_of() -> ClassId {
        ClassId::PdfWriter
    }

    fn name() -> (r: &'static str) {
        ClassId::PdfWriter.name()
    }
}

impl<'a> PdfWriter<'a> {
    #[verifier::type_invariant]
    spec fn inv(&self) -> bool {
        self.handle.class_id() == ClassId::PdfWriter
    }

    /// How the runtime produced this object.
    pub closed spec fn origin(&self) -> Origin {
        self.handle.origin()
    }

    /// The foreign object this value owns.
    pub closed spec fn obj(&self) -> Object<'a> {
        self.handle.obj()
    }

    /// The class this object was resolved against.
    pub fn class(&self) -> (r: ClassId)
        ensures
            r == ClassId::PdfWriter,
    {
        proof {
            use_type_invariant(self);
        }
        self.handle.class()
    }

    /// Gives up this object for the foreign reference it owns.
    pub fn into_inner(self) -> (r: Object<'a>)
        ensures
            r == self.obj(),
    {
        self.handle.into_object()
    }

    /// Gives up this object for its handle.
    pub fn into_handle(self) -> (r: ObjectHandle<'a>)
        ensures
            r.class_id() == ClassId::PdfWriter,
            r.origin() == self.origin(),
            r.obj() == self.obj(),
    {
        proof {
            use_type_invariant(&self);
        }
        self.handle
    }

    /// Gives up this object to pass it to a constructor.
    pub fn into_arg(self) -> (r: Arg<'a>)
        ensures
            arg_type(r) == JavaType::Object(ClassId::PdfWriter),
            arg_origin(r) == self.origin(),
            arg_object(r) == Some(self.obj()),
    {
        proof {
            use_type_invariant(&self);
        }
        self.handle.into_arg()
    }

    /// Wraps a handle of this class; `None` where the handle is of another class.
    pub fn from_handle(env: Env<'a>, handle: ObjectHandle<'a>) -> (r: Option<Self>)
        ensures
            r is Some <==> handle.class_id() == ClassId::PdfWriter,
            r is Some ==> r->Some_0.origin() == handle.origin() && r->Some_0.obj() == handle.obj(),
    {
        if handle.class() == ClassId::PdfWriter {
            Some(PdfWriter { env, handle })
        } else {
            None
        }
    }

    /// A writer to the file `file`, which is given up for it.
    pub fn new_with_file(
        env: Env<'a>,
        file: File<'a>,
    ) -> (r: PdfResult<Self>)
        ensures
            r is Ok ==> r->Ok_0.origin() == Origin::Constructor(
                class_name(ClassId::PdfWriter),
                constructor_descriptor(seq![
                        JavaType::Object(ClassId::File),
                    ]),
                seq![
                    file.origin(),
                ],
            ),
    {
        let ghost file_origin = file.origin();
        let mut args: Vec<Arg<'a>> = Vec::new();
        args.push(file.into_arg());
        proof {
            assert(arg_types(args@) =~= seq![
                JavaType::Object(ClassId::File),
            ]);
            assert(arg_origins(args@) =~= seq![
                file_origin,
            ]);
        }
        match construct(env, ClassId::PdfWriter, args) {
            Ok(handle) => Ok(PdfWriter { env, handle }),
            Err(e) => Err(e),
        }
    }
}

} // verus!
