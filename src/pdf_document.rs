use vstd::prelude::*;
use ejni::Object;
use crate::class_id::{ClassId, class_name};
use crate::descriptor::{JavaType, constructor_descriptor};
use crate::env::Env;
use crate::error::PdfResult;
use crate::object::{
    Arg, ObjectHandle, Origin, arg_type, arg_types, arg_origin, arg_origins, arg_object, construct,
};
use crate::traits::ClassName;
use crate::pdf_reader::PdfReader;
use crate::pdf_writer::PdfWriter;
use crate::document_properties::DocumentProperties;
use crate::stamping_properties::StampingProperties;

verus! {

/// A `com.itextpdf.kernel.pdf.PdfDocument`.
pub struct PdfDocument<'a> {
    env: Env<'a>,
    handle: ObjectHandle<'a>,
}

impl<'a> ClassName for PdfDocument<'a> {
    open spec fn class_of() -> ClassId {
        ClassId::PdfDocument
    }

    fn name() -> (r: &'static str) {
        ClassId::PdfDocument.name()
    }
}

impl<'a> PdfDocument<'a> {
    #[verifier::type_invariant]
    spec fn inv(&self) -> bool {
        self.handle.class_id() == ClassId::PdfDocument
    }

    /// How the runtime produced this object.
    pub closed spec fn origin(&self) -> Origin {
        self.handle.origin()
    }

    /// The foreign object this value owns.
    pub closed spec fn obj(&self) -> Object<'a> {
        self.handle.obj()
    }

    /// The class this object was resolved against.
    pub fn class(&self) -> (r: ClassId)
        ensures
            r == ClassId::PdfDocument,
    {
        proof {
            use_type_invariant(self);
        }
        self.handle.class()
    }

    /// Gives up this object for the foreign reference it owns.
    pub fn into_inner(self) -> (r: Object<'a>)
        ensures
            r == self.obj(),
    {
        self.handle.into_object()
    }

    /// Gives up this object for its handle.
    pub fn into_handle(self) -> (r: ObjectHandle<'a>)
        ensures
            r.class_id() == ClassId::PdfDocument,
            r.origin() == self.origin(),
            r.obj() == self.obj(),
    {
        proof {
            use_type_invariant(&self);
        }
        self.handle
    }

    /// Gives up this object to pass it to a constructor.
    pub fn into_arg(self) -> (r: Arg<'a>)
        ensures
            arg_type(r) == JavaType::Object(ClassId::PdfDocument),
            arg_origin(r) == self.origin(),
            arg_object(r) == Some(self.obj()),
    {
        proof {
            use_type_invariant(&self);
        }
        self.handle.into_arg()
    }

    /// Wraps a handle of this class; `None` where the handle is of another class.
    pub fn from_handle(env: Env<'a>, handle: ObjectHandle<'a>) -> (r: Option<Self>)
        ensures
            r is Some <==> handle.class_id() == ClassId::PdfDocument,
            r is Some ==> r->Some_0.origin() == handle.origin() && r->Some_0.obj() == handle.obj(),
    {
        if handle.class() == ClassId::PdfDocument {
            Some(PdfDocument { env, handle })
        } else {
            None
        }
    }

    /// A document read by `reader`.
    pub fn new_with_reader(
        env: Env<'a>,
        reader: PdfReader<'a>,
    ) -> (r: PdfResult<Self>)
        ensures
            r is Ok ==> r->Ok_0.origin() == Origin::Constructor(
                class_name(ClassId::PdfDocument),
                constructor_descriptor(seq![
                        JavaType::Object(ClassId::PdfReader),
                    ]),
                seq![
                    reader.origin(),
                ],
            ),
    {
        let ghost reader_origin = reader.origin();
        let mut args: Vec<Arg<'a>> = Vec::new();
        args.push(reader.into_arg());
        proof {
            assert(arg_types(args@) =~= seq![
                JavaType::Object(ClassId::PdfReader),
            ]);
            assert(arg_origins(args@) =~= seq![
                reader_origin,
            ]);
        }
        match construct(env, ClassId::PdfDocument, args) {
            Ok(handle) => Ok(PdfDocument { env, handle }),
            Err(e) => Err(e),
        }
    }

    /// A document read by `reader`, with `document_properties`.
    pub fn new_with_reader_and_document_properties(
        env: Env<'a>,
        reader: PdfReader<'a>,
        document_properties: DocumentProperties<'a>,
    ) -> (r: PdfResult<Self>)
        ensures
            r is Ok ==> r->Ok_0.origin() == Origin::Constructor(
                class_name(ClassId::PdfDocument),
                constructor_descriptor(seq![
                        JavaType::Object(ClassId::PdfReader),
                        JavaType::Object(ClassId::DocumentProperties),
                    ]),
                seq![
                    reader.origin(),
                    document_properties.origin(),
                ],
            ),
    {
        let ghost reader_origin = reader.origin();
        let ghost document_properties_origin = document_properties.origin();
        let mut args: Vec<Arg<'a>> = Vec::new();
        args.push(reader.into_arg());
        args.push(document_properties.into_arg());
        proof {
            assert(arg_types(args@) =~= seq![
                JavaType::Object(ClassId::PdfReader),
                JavaType::Object(ClassId::DocumentProperties),
            ]);
            assert(arg_origins(args@) =~= seq![
                reader_origin,
                document_properties_origin,
            ]);
        }
        match construct(env, ClassId::PdfDocument, args) {
            Ok(handle) => Ok(PdfDocument { env, handle }),
            Err(e) => Err(e),
        }
    }

    /// A document read by `reader` and written by `writer`.
    pub fn new_with_reader_and_writer(
        env: Env<'a>,
        reader: PdfReader<'a>,
        writer: PdfWriter<'a>,
    ) -> (r: PdfResult<Self>)
        ensures
            r is Ok ==> r->Ok_0.origin() == Origin::Constructor(
                class_name(ClassId::PdfDocument),
                constructor_descriptor(seq![
                        JavaType::Object(ClassId::PdfReader),
                        JavaType::Object(ClassId::PdfWriter),
                    ]),
                seq![
                    reader.origin(),
                    writer.origin(),
                ],
            ),
    {
        let ghost reader_origin = reader.origin();
        let ghost writer_origin = writer.origin();
        let mut args: Vec<Arg<'a>> = Vec::new();
        args.push(reader.into_arg());
        args.push(writer.into_arg());
        proof {
            assert(arg_types(args@) =~= seq![
                JavaType::Object(ClassId::PdfReader),
                JavaType::Object(ClassId::PdfWriter),
            ]);
            assert(arg_origins(args@) =~= seq![
                reader_origin,
                writer_origin,
            ]);
        }
        match construct(env, ClassId::PdfDocument, args) {
            Ok(handle) => Ok(PdfDocument { env, handle }),
            Err(e) => Err(e),
        }
    }

    /// A document read by `reader` and stamped through `writer` with `stamping_properties`.
    pub fn new_with_reader_and_writer_and_stamping_properties(
        env: Env<'a>,
        reader: PdfReader<'a>,
        writer: PdfWriter<'a>,
        stamping_properties: StampingProperties<'a>,
    ) -> (r: PdfResult<Self>)
        ensures
            r is Ok ==> r->Ok_0.origin() == Origin::Constructor(
                class_name(ClassId::PdfDocument),
                constructor_descriptor(seq![
                        JavaType::Object(ClassId::PdfReader),
                        JavaType::Object(ClassId::PdfWriter),
                        JavaType::Object(ClassId::StampingProperties),
                    ]),
                seq![
                    reader.origin(),
                    writer.origin(),
                    stamping_properties.origin(),
                ],
            ),
    {
        let ghost reader_origin = reader.origin();
        let ghost writer_origin = writer.origin();
        let ghost stamping_properties_origin = stamping_properties.origin();
        let mut args: Vec<Arg<'a>> = Vec::new();
        args.push(reader.into_arg());
        args.push(writer.into_arg());
        args.push(stamping_properties.into_arg());
        proof {
            assert(arg_types(args@) =~= seq![
                JavaType::Object(ClassId::PdfReader),
                JavaType::Object(ClassId::PdfWriter),
                JavaType::Object(ClassId::StampingProperties),
            ]);
            assert(arg_origins(args@) =~= seq![
                reader_origin,
                writer_origin,
                stamping_properties_origin,
            ]);
        }
        match construct(env, ClassId::PdfDocument, args) {
            Ok(handle) => Ok(PdfDocument { env, handle }),
            Err(e) => Err(e),
        }
    }

    /// A new document written by `writer`.
    pub fn new_with_writer(
        env: Env<'a>,
        writer: PdfWriter<'a>,
    ) -> (r: PdfResult<Self>)
        ensures
            r is Ok ==> r->Ok_0.origin() == Origin::Constructor(
                class_name(ClassId::PdfDocument),
                constructor_descriptor(seq![
                        JavaType::Object(ClassId::PdfWriter),
                    ]),
                seq![
                    writer.origin(),
                ],
            ),
    {
        let ghost writer_origin = writer.origin();
        let mut args: Vec<Arg<'a>> = Vec::new();
        args.push(writer.into_arg());
        proof {
            assert(arg_types(args@) =~= seq![
                JavaType::Object(ClassId::PdfWriter),
            ]);
            assert(arg_origins(args@) =~= seq![
                writer_origin,
            ]);
        }
        match construct(env, ClassId::PdfDocument, args) {
            Ok(handle) => Ok(PdfDocument { env, handle }),
            Err(e) => Err(e),
        }
    }

    /// A new document written by `writer`, with `document_properties`.
    pub fn new_with_writer_and_document_properties(
        env: Env<'a>,
        writer: PdfWriter<'a>,
        document_properties: DocumentProperties<'a>,
    ) -> (r: PdfResult<Self>)
        ensures
            r is Ok ==> r->Ok_0.origin() == Origin::Constructor(
                class_name(ClassId::PdfDocument),
                constructor_descriptor(seq![
                        JavaType::Object(ClassId::PdfWriter),
                        JavaType::Object(ClassId::DocumentProperties),
                    ]),
                seq![
                    writer.origin(),
                    document_properties.origin(),
                ],
            ),
    {
        let ghost writer_origin = writer.origin();
        let ghost document_properties_origin = document_properties.origin();
        let mut args: Vec<Arg<'a>> = Vec::new();
        args.push(writer.into_arg());
        args.push(document_properties.into_arg());
        proof {
            assert(arg_types(args@) =~= seq![
                JavaType::Object(ClassId::PdfWriter),
                JavaType::Object(ClassId::DocumentProperties),
            ]);
            assert(arg_origins(args@) =~= seq![
                writer_origin,
                document_properties_origin,
            ]);
        }
        match construct(env, ClassId::PdfDocument, args) {
            Ok(handle) => Ok(PdfDocument { env, handle }),
            Err(e) => Err(e),
        }
    }
}

} // verus!
