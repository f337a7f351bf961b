use vstd::prelude::*;
use ejni::Object;
use crate::class_id::{ClassId, class_name};
use crate::descriptor::{JavaType, constructor_descriptor};
use crate::env::Env;
use crate::error::PdfResult;
use crate::object::{
    Arg, ObjectHandle, Origin, arg_type, arg_types, arg_origin, arg_origins, arg_object, construct,
};
use crate::traits::ClassName;
use crate::pdf_document::PdfDocument;
use crate::page_size::PageSize;

verus! {

/// A `com.itextpdf.layout.Document`, the layout root over a PDF document.
pub struct Document<'a> {
    env: Env<'a>,
    handle: ObjectHandle<'a>,
}

impl<'a> ClassName for Document<'a> {
    open spec fn class_of() -> ClassId {
        ClassId::Document
    }

    fn name() -> (r: &'static str) {
        ClassId::Document.name()
    }
}

impl<'a> Document<'a> {
    #[verifier::type_invariant]
    spec fn inv(&self) -> bool {
        self.handle.class_id() == ClassId::Document
    }

    /// How the runtime produced this object.
    pub closed spec fn origin(&self) -> Origin {
        self.handle.origin()
    }

    /// The foreign object this value owns.
    pub closed spec fn obj(&self) -> Object<'a> {
        self.handle.obj()
    }

    /// The class this object was resolved against.
    pub fn class(&self) -> (r: ClassId)
        ensures
            r == ClassId::Document,
    {
        proof {
            use_type_invariant(self);
        }
        self.handle.class()
    }

    /// Gives up this object for the foreign reference it owns.
    pub fn into_inner(self) -> (r: Object<'a>)
        ensures
            r == self.obj(),
    {
        self.handle.into_object()
    }

    /// Gives up this object for its handle.
    pub fn into_handle(self) -> (r: ObjectHandle<'a>)
        ensures
            r.class_id() == ClassId::Document,
            r.origin() == self.origin(),
            r.obj() == self.obj(),
    {
        proof {
            use_type_invariant(&self);
        }
        self.handle
    }

    /// Gives up this object to pass it to a constructor.
    pub fn into_arg(self) -> (r: Arg<'a>)
        ensures
            arg_type(r) == JavaType::Object(ClassId::Document),
            arg_origin(r) == self.origin(),
            arg_object(r) == Some(self.obj()),
    {
        proof {
            use_type_invariant(&self);
        }
        self.handle.into_arg()
    }

    /// Wraps a handle of this class; `None` where the handle is of another class.
    pub fn from_handle(env: Env<'a>, handle: ObjectHandle<'a>) -> (r: Option<Self>)
        ensures
            r is Some <==> handle.class_id() == ClassId::Document,
            r is Some ==> r->Some_0.origin() == handle.origin() && r->Some_0.obj() == handle.obj(),
    {
        if handle.class() == ClassId::Document {
            Some(Document { env, handle })
        } else {
            None
        }
    }

    /// A layout document over `pdf_document`, with the default page size.
    pub fn new(
        env: Env<'a>,
        pdf_document: PdfDocument<'a>,
    ) -> (r: PdfResult<Self>)
        ensures
            r is Ok ==> r->Ok_0.origin() == Origin::Constructor(
                class_name(ClassId::Document),
                constructor_descriptor(seq![
                        JavaType::Object(ClassId::PdfDocument),
                    ]),
                seq![
                    pdf_document.origin(),
                ],
            ),
    {
        let ghost pdf_document_origin = pdf_document.origin();
        let mut args: Vec<Arg<'a>> = Vec::new();
        args.push(pdf_document.into_arg());
        proof {
            assert(arg_types(args@) =~= seq![
                JavaType::Object(ClassId::PdfDocument),
            ]);
            assert(arg_origins(args@) =~= seq![
                pdf_document_origin,
            ]);
        }
        match construct(env, ClassId::Document, args) {
            Ok(handle) => Ok(Document { env, handle }),
            Err(e) => Err(e),
        }
    }

    /// A layout document over `pdf_document` with pages of `page_size`.
    pub fn new_with_size(
        env: Env<'a>,
        pdf_document: PdfDocument<'a>,
        page_size: PageSize<'a>,
    ) -> (r: PdfResult<Self>)
        ensures
            r is Ok ==> r->Ok_0.origin() == Origin::Constructor(
                class_name(ClassId::Document),
                constructor_descriptor(seq![
                        JavaType::Object(ClassId::PdfDocument),
                        JavaType::Object(ClassId::PageSize),
                    ]),
                seq![
                    pdf_document.origin(),
                    page_size.origin(),
                ],
            ),
    {
        let ghost pdf_document_origin = pdf_document.origin();
        let ghost page_size_origin = page_size.origin();
        let mut args: Vec<Arg<'a>> = Vec::new();
        args.push(pdf_document.into_arg());
        args.push(page_size.into_arg());
        proof {
            assert(arg_types(args@) =~= seq![
                JavaType::Object(ClassId::PdfDocument),
                JavaType::Object(ClassId::PageSize),
            ]);
            assert(arg_origins(args@) =~= seq![
                pdf_document_origin,
                page_size_origin,
            ]);
        }
        match construct(env, ClassId::Document, args) {
            Ok(handle) => Ok(Document { env, handle }),
            Err(e) => Err(e),
        }
    }

    /// A layout document over `pdf_document` with pages of `page_size`, flushing
    /// each element at once where `immediate_flush` holds.
    pub fn new_with_size_and_flush(
        env: Env<'a>,
        pdf_document: PdfDocument<'a>,
        page_size: PageSize<'a>,
        immediate_flush: bool,
    ) -> (r: PdfResult<Self>)
        ensures
            r is Ok ==> r->Ok_0.origin() == Origin::Constructor(
                class_name(ClassId::Document),
                constructor_descriptor(seq![
                        JavaType::Object(ClassId::PdfDocument),
                        JavaType::Object(ClassId::PageSize),
                        JavaType::Boolean,
                    ]),
                seq![
                    pdf_document.origin(),
                    page_size.origin(),
                    Origin::Flag(immediate_flush),
                ],
            ),
    {
        let ghost pdf_document_origin = pdf_document.origin();
        let ghost page_size_origin = page_size.origin();
        let mut args: Vec<Arg<'a>> = Vec::new();
        args.push(pdf_document.into_arg());
        args.push(page_size.into_arg());
        args.push(Arg::boolean(immediate_flush));
        proof {
            assert(arg_types(args@) =~= seq![
                JavaType::Object(ClassId::PdfDocument),
                JavaType::Object(ClassId::PageSize),
                JavaType::Boolean,
            ]);
            assert(arg_origins(args@) =~= seq![
                pdf_document_origin,
                page_size_origin,
                Origin::Flag(immediate_flush),
            ]);
        }
        match construct(env, ClassId::Document, args) {
            Ok(handle) => Ok(Document { env, handle }),
            Err(e) => Err(e),
        }
    }
}

} // verus!
