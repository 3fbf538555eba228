//! What an examination board asks of the documents of an application.

use vstd::prelude::*;

verus! {

/// Required form of a passport photo.
#[derive(Clone, Debug)]
pub struct PhotoRequirements {
    /// Width in pixels.
    pub width: u32,
    /// Height in pixels.
    pub height: u32,
    /// Resolution in dots per inch. It is carried along and changes nothing.
    pub dpi: u32,
    /// Name of the file format asked for. It is carried along and changes nothing.
    pub format: String,
}

/// Required form of a signature.
#[derive(Clone, Debug)]
pub struct SignatureRequirements {
    /// Width in pixels.
    pub width: u32,
    /// Height in pixels.
    pub height: u32,
    /// Resolution in dots per inch. It is carried along and changes nothing.
    pub dpi: u32,
    /// Name of the file format asked for. It is carried along and changes nothing.
    pub format: String,
}

/// All requirements of one exam.
#[derive(Clone, Debug)]
pub struct ExamRequirements {
    pub photo_size: PhotoRequirements,
    pub signature_size: SignatureRequirements,
    pub document_formats: Vec<String>,
    pub max_file_size: u32,
    pub required_documents: Vec<String>,
}

/// An exam and its requirements.
#[derive(Clone, Debug)]
pub struct ExamFormat {
    pub id: String,
    pub name: String,
    pub requirements: ExamRequirements,
}

/// A required size, as a value of specifications.
pub struct SizeSpec {
    pub width: u32,
    pub height: u32,
    pub dpi: u32,
    pub format: Seq<char>,
}

/// The requirements of one exam, as a value of specifications.
pub struct ExamRequirementsSpec {
    pub photo_size: SizeSpec,
    pub signature_size: SizeSpec,
    pub document_formats: Seq<Seq<char>>,
    pub max_file_size: u32,
    pub required_documents: Seq<Seq<char>>,
}

/// An exam and its requirements, as a value of specifications.
pub struct ExamFormatSpec {
    pub id: Seq<char>,
    pub name: Seq<char>,
    pub requirements: ExamRequirementsSpec,
}

/// The characters of each string of a list.
pub open spec fn texts(list: Seq<String>) -> Seq<Seq<char>> {
    list.map_values(|s: String| s@)
}

impl View for PhotoRequirements {
    type V = SizeSpec;

    open spec fn view(&self) -> SizeSpec {
        SizeSpec { width: self.width, height: self.height, dpi: self.dpi, format: self.format@ }
    }
}

impl View for SignatureRequirements {
    type V = SizeSpec;

    open spec fn view(&self) -> SizeSpec {
        SizeSpec { width: self.width, height: self.height, dpi: self.dpi, format: self.format@ }
    }
}

impl View for ExamRequirements {
    type V = ExamRequirementsSpec;

    open spec fn view(&self) -> ExamRequirementsSpec {
        ExamRequirementsSpec {
            photo_size: self.photo_size@,
            signature_size: self.signature_size@,
            document_formats: texts(self.document_formats@),
            max_file_size: self.max_file_size,
            required_documents: texts(self.required_documents@),
        }
    }
}

impl View for ExamFormat {
    type V = ExamFormatSpec;

    open spec fn view(&self) -> ExamFormatSpec {
        ExamFormatSpec { id: self.id@, name: self.name@, requirements: self.requirements@ }
    }
}

} // verus!
