//! Typed bindings that construct objects of a PDF library living inside a
//! Java virtual machine, through the Java Native Interface.

pub mod class_id;
pub mod descriptor;
pub mod env;
pub mod error;
pub mod object;
pub mod traits;

pub mod file;
pub mod page_size;
pub mod document_properties;
pub mod stamping_properties;
pub mod pdf_reader;
pub mod pdf_writer;
pub mod pdf_document;
pub mod document;
pub mod laws;
