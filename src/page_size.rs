use vstd::prelude::*;
use ejni::Object;
use crate::class_id::{ClassId, class_name};
use crate::descriptor::{JavaType, constructor_descriptor, object_descriptor};
use crate::env::Env;
use jni::errors::Error as JniError;
use jni::objects::JObject;
use crate::error::{Error, PdfResult};
use crate::object::{
    Arg, ObjectHandle, Origin, arg_type, arg_origin, arg_object, complete, static_instance,
};
use crate::traits::ClassName;

verus! {

/// A `com.itextpdf.kernel.geom.PageSize`.
pub struct PageSize<'a> {
    env: Env<'a>,
    handle: ObjectHandle<'a>,
}

impl<'a> ClassName for PageSize<'a> {
    open spec fn class_of() -> ClassId {
        ClassId::PageSize
    }

    fn name() -> (r: &'static str) {
        ClassId::PageSize.name()
    }
}

impl<'a> PageSize<'a> {
    #[verifier::type_invariant]
    spec fn inv(&self) -> bool {
        self.handle.class_id() == ClassId::PageSize
    }

    /// How the runtime produced this object.
    pub closed spec fn origin(&self) -> Origin {
        self.handle.origin()
    }

    /// The foreign object this value owns.
    pub closed spec fn obj(&self) -> Object<'a> {
        self.handle.obj()
    }

    /// The class this object was resolved against.
    pub fn class(&self) -> (r: ClassId)
        ensures
            r == ClassId::PageSize,
    {
        proof {
            use_type_invariant(self);
        }
        self.handle.class()
    }

    /// Gives up this object for the foreign reference it owns.
    pub fn into_inner(self) -> (r: Object<'a>)
        ensures
            r == self.obj(),
    {
        self.handle.into_object()
    }

    /// Gives up this object for its handle.
    pub fn into_handle(self) -> (r: ObjectHandle<'a>)
        ensures
            r.class_id() == ClassId::PageSize,
            r.origin() == self.origin(),
            r.obj() == self.obj(),
    {
        proof {
            use_type_invariant(&self);
        }
        self.handle
    }

    /// Gives up this object to pass it to a constructor.
    pub fn into_arg(self) -> (r: Arg<'a>)
        ensures
            arg_type(r) == JavaType::Object(ClassId::PageSize),
            arg_origin(r) == self.origin(),
            arg_object(r) == Some(self.obj()),
    {
        proof {
            use_type_invariant(&self);
        }
        self.handle.into_arg()
    }

    /// Wraps a handle of this class; `None` where the handle is of another class.
    pub fn from_handle(env: Env<'a>, handle: ObjectHandle<'a>) -> (r: Option<Self>)
        ensures
            r is Some <==> handle.class_id() == ClassId::PageSize,
            r is Some ==> r->Some_0.origin() == handle.origin() && r->Some_0.obj() == handle.obj(),
    {
        if handle.class() == ClassId::PageSize {
            Some(PageSize { env, handle })
        } else {
            None
        }
    }

    /// A page size from `created`, which the caller made outside this
    /// library by the class's constructor `(FF)V` from a width and a height;
    /// the caller answers for its class, and it is recorded as made outside.
    /// A failure is passed on unchanged; otherwise the class is looked up.
    pub fn from_created(
        env: Env<'a>,
        created: Result<JObject<'a>, JniError>,
    ) -> (r: PdfResult<Self>)
        ensures
            created is Err ==> r == Err::<PageSize<'a>, Error>(Error::Jni(created->Err_0)),
            r is Ok ==> r->Ok_0.origin() == Origin::Outside,
    {
        match complete(env, ClassId::PageSize, Ghost(Origin::Outside), created) {
            Ok(handle) => Ok(PageSize { env, handle }),
            Err(e) => Err(e),
        }
    }

    /// The standard page size held by the static field `field` of the class.
    fn constant(env: Env<'a>, field: &str) -> (r: PdfResult<Self>)
        ensures
            r is Ok ==> r->Ok_0.origin() == Origin::StaticField(
                class_name(ClassId::PageSize),
                field@,
                object_descriptor(ClassId::PageSize),
            ),
    {
        match static_instance(env, ClassId::PageSize, field) {
            Ok(handle) => Ok(PageSize { env, handle }),
            Err(e) => Err(e),
        }
    }

    /// The standard page size `A0`.
    pub fn a0(env: Env<'a>) -> (r: PdfResult<Self>)
        ensures
            r is Ok ==> r->Ok_0.origin() == Origin::StaticField(
                class_name(ClassId::PageSize),
                "A0"@,
                object_descriptor(ClassId::PageSize),
            ),
    {
        Self::constant(env, "A0")
    }

    /// The standard page size `A1`.
    pub fn a1(env: Env<'a>) -> (r: PdfResult<Self>)
        ensures
            r is Ok ==> r->Ok_0.origin() == Origin::StaticField(
                class_name(ClassId::PageSize),
                "A1"@,
                object_descriptor(ClassId::PageSize),
            ),
    {
        Self::constant(env, "A1")
    }

    /// The standard page size `A2`.
    pub fn a2(env: Env<'a>) -> (r: PdfResult<Self>)
        ensures
            r is Ok ==> r->Ok_0.origin() == Origin::StaticField(
                class_name(ClassId::PageSize),
                "A2"@,
                object_descriptor(ClassId::PageSize),
            ),
    {
        Self::constant(env, "A2")
    }

    /// The standard page size `A3`.
    pub fn a3(env: Env<'a>) -> (r: PdfResult<Self>)
        ensures
            r is Ok ==> r->Ok_0.origin() == Origin::StaticField(
                class_name(ClassId::PageSize),
                "A3"@,
                object_descriptor(ClassId::PageSize),
            ),
    {
        Self::constant(env, "A3")
    }

    /// The standard page size `A4`.
    pub fn a4(env: Env<'a>) -> (r: PdfResult<Self>)
        ensures
            r is Ok ==> r->Ok_0.origin() == Origin::StaticField(
                class_name(ClassId::PageSize),
                "A4"@,
                object_descriptor(ClassId::PageSize),
            ),
    {
        Self::constant(env, "A4")
    }

    /// The standard page size `A5`.
    pub fn a5(env: Env<'a>) -> (r: PdfResult<Self>)
        ensures
            r is Ok ==> r->Ok_0.origin() == Origin::StaticField(
                class_name(ClassId::PageSize),
                "A5"@,
                object_descriptor(ClassId::PageSize),
            ),
    {
        Self::constant(env, "A5")
    }

    /// The standard page size `A6`.
    pub fn a6(env: Env<'a>) -> (r: PdfResult<Self>)
        ensures
            r is Ok ==> r->Ok_0.origin() == Origin::StaticField(
                class_name(ClassId::PageSize),
                "A6"@,
                object_descriptor(ClassId::PageSize),
            ),
    {
        Self::constant(env, "A6")
    }

    /// The standard page size `A7`.
    pub fn a7(env: Env<'a>) -> (r: PdfResult<Self>)
        ensures
            r is Ok ==> r->Ok_0.origin() == Origin::StaticField(
                class_name(ClassId::PageSize),
                "A7"@,
                object_descriptor(ClassId::PageSize),
            ),
    {
        Self::constant(env, "A7")
    }

    /// The standard page size `A8`.
    pub fn a8(env: Env<'a>) -> (r: PdfResult<Self>)
        ensures
            r is Ok ==> r->Ok_0.origin() == Origin::StaticField(
                class_name(ClassId::PageSize),
                "A8"@,
                object_descriptor(ClassId::PageSize),
            ),
    {
        Self::constant(env, "A8")
    }

    /// The standard page size `A9`.
    pub fn a9(env: Env<'a>) -> (r: PdfResult<Self>)
        ensures
            r is Ok ==> r->Ok_0.origin() == Origin::StaticField(
                class_name(ClassId::PageSize),
                "A9"@,
                object_descriptor(ClassId::PageSize),
            ),
    {
        Self::constant(env, "A9")
    }

    /// The standard page size `A10`.
    pub fn a10(env: Env<'a>) -> (r: PdfResult<Self>)
        ensures
            r is Ok ==> r->Ok_0.origin() == Origin::StaticField(
                class_name(ClassId::PageSize),
                "A10"@,
                object_descriptor(ClassId::PageSize),
            ),
    {
        Self::constant(env, "A10")
    }

    /// The standard page size `B0`.
    pub fn b0(env: Env<'a>) -> (r: PdfResult<Self>)
        ensures
            r is Ok ==> r->Ok_0.origin() == Origin::StaticField(
                class_name(ClassId::PageSize),
                "B0"@,
                object_descriptor(ClassId::PageSize),
            ),
    {
        Self::constant(env, "B0")
    }

    /// The standard page size `B1`.
    pub fn b1(env: Env<'a>) -> (r: PdfResult<Self>)
        ensures
            r is Ok ==> r->Ok_0.origin() == Origin::StaticField(
                class_name(ClassId::PageSize),
                "B1"@,
                object_descriptor(ClassId::PageSize),
            ),
    {
        Self::constant(env, "B1")
    }

    /// The standard page size `B2`.
    pub fn b2(env: Env<'a>) -> (r: PdfResult<Self>)
        ensures
            r is Ok ==> r->Ok_0.origin() == Origin::StaticField(
                class_name(ClassId::PageSize),
                "B2"@,
                object_descriptor(ClassId::PageSize),
            ),
    {
        Self::constant(env, "B2")
    }

    /// The standard page size `B3`.
    pub fn b3(env: Env<'a>) -> (r: PdfResult<Self>)
        ensures
            r is Ok ==> r->Ok_0.origin() == Origin::StaticField(
                class_name(ClassId::PageSize),
                "B3"@,
                object_descriptor(ClassId::PageSize),
            ),
    {
        Self::constant(env, "B3")
    }

    /// The standard page size `B4`.
    pub fn b4(env: Env<'a>) -> (r: PdfResult<Self>)
        ensures
            r is Ok ==> r->Ok_0.origin() == Origin::StaticField(
                class_name(ClassId::PageSize),
                "B4"@,
                object_descriptor(ClassId::PageSize),
            ),
    {
        Self::constant(env, "B4")
    }

    /// The standard page size `B5`.
    pub fn b5(env: Env<'a>) -> (r: PdfResult<Self>)
        ensures
            r is Ok ==> r->Ok_0.origin() == Origin::StaticField(
                class_name(ClassId::PageSize),
                "B5"@,
                object_descriptor(ClassId::PageSize),
            ),
    {
        Self::constant(env, "B5")
    }

    /// The standard page size `B6`.
    pub fn b6(env: Env<'a>) -> (r: PdfResult<Self>)
        ensures
            r is Ok ==> r->Ok_0.origin() == Origin::StaticField(
                class_name(ClassId::PageSize),
                "B6"@,
                object_descriptor(ClassId::PageSize),
            ),
    {
        Self::constant(env, "B6")
    }

    /// The standard page size `B7`.
    pub fn b7(env: Env<'a>) -> (r: PdfResult<Self>)
        ensures
            r is Ok ==> r->Ok_0.origin() == Origin::StaticField(
                class_name(ClassId::PageSize),
                "B7"@,
                object_descriptor(ClassId::PageSize),
            ),
    {
        Self::constant(env, "B7")
    }

    /// The standard page size `B8`.
    pub fn b8(env: Env<'a>) -> (r: PdfResult<Self>)
        ensures
            r is Ok ==> r->Ok_0.origin() == Origin::StaticField(
                class_name(ClassId::PageSize),
                "B8"@,
                object_descriptor(ClassId::PageSize),
            ),
    {
        Self::constant(env, "B8")
    }

    /// The standard page size `B9`.
    pub fn b9(env: Env<'a>) -> (r: PdfResult<Self>)
        ensures
            r is Ok ==> r->Ok_0.origin() == Origin::StaticField(
                class_name(ClassId::PageSize),
                "B9"@,
                object_descriptor(ClassId::PageSize),
            ),
    {
        Self::constant(env, "B9")
    }

    /// The standard page size `B10`.
    pub fn b10(env: Env<'a>) -> (r: PdfResult<Self>)
        ensures
            r is Ok ==> r->Ok_0.origin() == Origin::StaticField(
                class_name(ClassId::PageSize),
                "B10"@,
                object_descriptor(ClassId::PageSize),
            ),
    {
        Self::constant(env, "B10")
    }

    /// The standard page size `DEFAULT`.
    pub fn default(env: Env<'a>) -> (r: PdfResult<Self>)
        ensures
            r is Ok ==> r->Ok_0.origin() == Origin::StaticField(
                class_name(ClassId::PageSize),
                "DEFAULT"@,
                object_descriptor(ClassId::PageSize),
            ),
    {
        Self::constant(env, "DEFAULT")
    }

    /// The standard page size `EXECUTIVE`.
    pub fn executive(env: Env<'a>) -> (r: PdfResult<Self>)
        ensures
            r is Ok ==> r->Ok_0.origin() == Origin::StaticField(
                class_name(ClassId::PageSize),
                "EXECUTIVE"@,
                object_descriptor(ClassId::PageSize),
            ),
    {
        Self::constant(env, "EXECUTIVE")
    }

    /// The standard page size `LEDGER`.
    pub fn ledger(env: Env<'a>) -> (r: PdfResult<Self>)
        ensures
            r is Ok ==> r->Ok_0.origin() == Origin::StaticField(
                class_name(ClassId::PageSize),
                "LEDGER"@,
                object_descriptor(ClassId::PageSize),
            ),
    {
        Self::constant(env, "LEDGER")
    }

    /// The standard page size `LEGAL`.
    pub fn legal(env: Env<'a>) -> (r: PdfResult<Self>)
        ensures
            r is Ok ==> r->Ok_0.origin() == Origin::StaticField(
                class_name(ClassId::PageSize),
                "LEGAL"@,
                object_descriptor(ClassId::PageSize),
            ),
    {
        Self::constant(env, "LEGAL")
    }

    /// The standard page size `LETTER`.
    pub fn letter(env: Env<'a>) -> (r: PdfResult<Self>)
        ensures
            r is Ok ==> r->Ok_0.origin() == Origin::StaticField(
                class_name(ClassId::PageSize),
                "LETTER"@,
                object_descriptor(ClassId::PageSize),
            ),
    {
        Self::constant(env, "LETTER")
    }

    /// The standard page size `TABLOID`.
    pub fn tabloid(env: Env<'a>) -> (r: PdfResult<Self>)
        ensures
            r is Ok ==> r->Ok_0.origin() == Origin::StaticField(
                class_name(ClassId::PageSize),
                "TABLOID"@,
                object_descriptor(ClassId::PageSize),
            ),
    {
        Self::constant(env, "TABLOID")
    }
}

} // verus!
