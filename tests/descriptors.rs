use itext_bridge::class_id::ClassId;
use itext_bridge::descriptor::{
    build_constructor_descriptor, build_method_descriptor, object_type_descriptor, push_type_code,
    JavaType,
};
use itext_bridge::document::Document;
use itext_bridge::document_properties::DocumentProperties;
use itext_bridge::file::File;
use itext_bridge::object::{plan_constructor, plan_static_field, types_of_args, Arg};
use itext_bridge::page_size::PageSize;
use itext_bridge::pdf_document::PdfDocument;
use itext_bridge::pdf_reader::PdfReader;
use itext_bridge::pdf_writer::PdfWriter;
use itext_bridge::stamping_properties::StampingProperties;
use itext_bridge::traits::ClassName;

#[test]
fn class_names() {
    assert_eq!(File::name(), "java/io/File");
    assert_eq!(PdfReader::name(), "com/itextpdf/kernel/pdf/PdfReader");
    assert_eq!(PdfWriter::name(), "com/itextpdf/kernel/pdf/PdfWriter");
    assert_eq!(PdfDocument::name(), "com/itextpdf/kernel/pdf/PdfDocument");
    assert_eq!(DocumentProperties::name(), "com/itextpdf/kernel/pdf/DocumentProperties");
    assert_eq!(StampingProperties::name(), "com/itextpdf/kernel/pdf/StampingProperties");
    assert_eq!(PageSize::name(), "com/itextpdf/kernel/geom/PageSize");
    assert_eq!(Document::name(), "com/itextpdf/layout/Document");
    assert_eq!(ClassId::JavaString.name(), "java/lang/String");
}

#[test]
fn class_names_are_distinct() {
    let all = [
        ClassId::JavaString,
        ClassId::File,
        ClassId::PdfReader,
        ClassId::PdfWriter,
        ClassId::PdfDocument,
        ClassId::DocumentProperties,
        ClassId::StampingProperties,
        ClassId::PageSize,
        ClassId::Document,
    ];
    for a in all.iter() {
        for b in all.iter() {
            assert_eq!(a == b, a.name() == b.name());
        }
    }
}

#[test]
fn object_descriptor_of_page_size() {
    assert_eq!(object_type_descriptor(ClassId::PageSize), "Lcom/itextpdf/kernel/geom/PageSize;");
    assert_eq!(object_type_descriptor(ClassId::File), "Ljava/io/File;");
}

#[test]
fn empty_constructor_descriptor() {
    assert_eq!(build_constructor_descriptor(&vec![]), "()V");
}

#[test]
fn float_constructor_descriptor() {
    assert_eq!(build_constructor_descriptor(&vec![JavaType::Float, JavaType::Float]), "(FF)V");
}

#[test]
fn file_constructor_descriptor() {
    let d = build_constructor_descriptor(&vec![JavaType::Object(ClassId::JavaString)]);
    assert_eq!(d, "(Ljava/lang/String;)V");
}

#[test]
fn layout_document_constructor_descriptor() {
    let d = build_constructor_descriptor(&vec![
        JavaType::Object(ClassId::PdfDocument),
        JavaType::Object(ClassId::PageSize),
        JavaType::Boolean,
    ]);
    assert_eq!(
        d,
        "(Lcom/itextpdf/kernel/pdf/PdfDocument;Lcom/itextpdf/kernel/geom/PageSize;Z)V"
    );
}

#[test]
fn stamping_document_constructor_descriptor() {
    let d = build_constructor_descriptor(&vec![
        JavaType::Object(ClassId::PdfReader),
        JavaType::Object(ClassId::PdfWriter),
        JavaType::Object(ClassId::StampingProperties),
    ]);
    assert_eq!(
        d,
        "(Lcom/itextpdf/kernel/pdf/PdfReader;Lcom/itextpdf/kernel/pdf/PdfWriter;Lcom/itextpdf/kernel/pdf/StampingProperties;)V"
    );
}

#[test]
fn method_descriptor_with_return_type() {
    let d = build_method_descriptor(&vec![JavaType::Int, JavaType::Boolean], JavaType::Object(ClassId::JavaString));
    assert_eq!(d, "(IZ)Ljava/lang/String;");
    assert_eq!(build_method_descriptor(&vec![], JavaType::Int), "()I");
}

#[test]
fn type_codes() {
    let mut s = String::from("x");
    push_type_code(&mut s, JavaType::Boolean);
    push_type_code(&mut s, JavaType::Int);
    push_type_code(&mut s, JavaType::Float);
    push_type_code(&mut s, JavaType::Void);
    push_type_code(&mut s, JavaType::Object(ClassId::Document));
    assert_eq!(s, "xZIFVLcom/itextpdf/layout/Document;");
}

#[test]
fn constructor_plan_follows_arguments() {
    let args = vec![Arg::boolean(true), Arg::boolean(false)];
    assert_eq!(types_of_args(&args), vec![JavaType::Boolean, JavaType::Boolean]);
    let call = plan_constructor(ClassId::Document, &args);
    assert_eq!(call.class_name, "com/itextpdf/layout/Document");
    assert_eq!(call.descriptor, "(ZZ)V");
    let none: Vec<Arg> = Vec::new();
    let call = plan_constructor(ClassId::StampingProperties, &none);
    assert_eq!(call.class_name, "com/itextpdf/kernel/pdf/StampingProperties");
    assert_eq!(call.descriptor, "()V");
}

#[test]
fn static_field_plan_uses_own_type() {
    let call = plan_static_field(ClassId::PageSize);
    assert_eq!(call.class_name, "com/itextpdf/kernel/geom/PageSize");
    assert_eq!(call.type_descriptor, "Lcom/itextpdf/kernel/geom/PageSize;");
}
