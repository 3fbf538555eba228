//! Conversion of submitted document images (photos, signatures, scans) into
//! the size and format an examination board asks for.
//!
//! A conversion decodes the image, transforms it by the kind of document
//! ([`pipeline::DocumentKind`]) under the requirements of an exam
//! ([`requirements::ExamFormat`]), and writes the result out as JPEG. The
//! entry point is [`convert_document`].

pub mod binarize;
pub mod descriptor;
pub mod error;
pub mod pipeline;
pub mod raster;
pub mod requirements;
pub mod text;

pub use error::{ConvertError, ErrorKind};
pub use pipeline::{convert_document, DocumentKind};
pub use requirements::{ExamFormat, ExamRequirements, PhotoRequirements, SignatureRequirements};
