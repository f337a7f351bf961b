use vstd::prelude::*;

verus! {

/// The foreign classes this library knows by name.
#[derive(Clone, Copy, PartialEq, Eq, Debug, Structural)]
pub enum ClassId {
    JavaString,
    File,
    PdfReader,
    PdfWriter,
    PdfDocument,
    DocumentProperties,
    StampingProperties,
    PageSize,
    Document,
}

/// The fully qualified, slash separated name of each known class.
pub open spec fn class_name(c: ClassId) -> Seq<char> {
    match c {
        ClassId::JavaString => "java/lang/String"@,
        ClassId::File => "java/io/File"@,
        ClassId::PdfReader => "com/itextpdf/kernel/pdf/PdfReader"@,
        ClassId::PdfWriter => "com/itextpdf/kernel/pdf/PdfWriter"@,
        ClassId::PdfDocument => "com/itextpdf/kernel/pdf/PdfDocument"@,
        ClassId::DocumentProperties => "com/itextpdf/kernel/pdf/DocumentProperties"@,
        ClassId::StampingProperties => "com/itextpdf/kernel/pdf/StampingProperties"@,
        ClassId::PageSize => "com/itextpdf/kernel/geom/PageSize"@,
        ClassId::Document => "com/itextpdf/layout/Document"@,
    }
}

impl ClassId {
    /// The class's fully qualified name, the single place each name is written.
    pub fn name(self) -> (r: &'static str)
        ensures
            r@ == class_name(self),
    {
        match self {
            ClassId::JavaString => "java/lang/String",
            ClassId::File => "java/io/File",
            ClassId::PdfReader => "com/itextpdf/kernel/pdf/PdfReader",
            ClassId::PdfWriter => "com/itextpdf/kernel/pdf/PdfWriter",
            ClassId::PdfDocument => "com/itextpdf/kernel/pdf/PdfDocument",
            ClassId::DocumentProperties => "com/itextpdf/kernel/pdf/DocumentProperties",
            ClassId::StampingProperties => "com/itextpdf/kernel/pdf/StampingProperties",
            ClassId::PageSize => "com/itextpdf/kernel/geom/PageSize",
            ClassId::Document => "com/itextpdf/layout/Document",
        }
    }
}

} // verus!
