//! Reading an exam format from its JSON descriptor.
//!
//! The JSON text is parsed by `serde_json`. The schema is enforced here: an
//! exam format is an object with the members `id`, `name` and
//! `requirements`; the requirements hold `photoSize`, `signatureSize`,
//! `documentFormats`, `maxFileSize` and `requiredDocuments`; a size holds
//! `width`, `height`, `dpi` and `format`. Members beyond these are passed
//! over, and of a member that is written twice the last one counts.

use crate::error::{message_prefix, well_prefixed, ConvertError, ErrorKind};
use crate::requirements::{
    texts, ExamFormat, ExamFormatSpec, ExamRequirements, ExamRequirementsSpec, PhotoRequirements,
    SignatureRequirements, SizeSpec,
};
use vstd::prelude::*;
use vstd::string::*;

verus! {

#[verifier::external_type_specification]
#[verifier::external_body]
pub struct ExJsonValue(serde_json::Value);

#[verifier::external_type_specification]
#[verifier::external_body]
pub struct ExJsonError(serde_json::Error);

/// The JSON value that a text stands for, if it is JSON.
pub uninterp spec fn json_document(text: Seq<char>) -> Option<serde_json::Value>;

/// The member of a JSON object under a key, if the value is an object and
/// has that member.
pub uninterp spec fn json_member(value: serde_json::Value, key: Seq<char>) -> Option<
    serde_json::Value,
>;

/// A JSON value as an unsigned integer, if it is a number written as an
/// integer from 0 to 2^64 - 1.
pub uninterp spec fn json_unsigned(value: serde_json::Value) -> Option<u64>;

/// The characters of a JSON value, if it is a string.
pub uninterp spec fn json_text(value: serde_json::Value) -> Option<Seq<char>>;

/// The elements of a JSON value, if it is an array.
pub uninterp spec fn json_items(value: serde_json::Value) -> Option<Seq<serde_json::Value>>;

/// Whether `text` is what an error of `serde_json` says of itself.
pub uninterp spec fn json_error_says(error: serde_json::Error, text: Seq<char>) -> bool;

/// Whether the message of `error` is, after its prefix, what an error of
/// `serde_json` says of itself.
pub open spec fn names_json_error(error: ConvertError) -> bool {
    exists|cause: serde_json::Error, text: Seq<char>| #[trigger]
        json_error_says(cause, text) && error.message@ == message_prefix(error.kind) + text
}

/// Whether `error` is the parse error of a descriptor text: where the text
/// is no JSON, its message names the error of the parser; where it is JSON,
/// the first member that is missing or is not of its type.
pub open spec fn is_parse_error_of(error: ConvertError, text: Seq<char>) -> bool {
    &&& exam_format_in(text) is None
    &&& error.kind == ErrorKind::Parse
    &&& well_prefixed(error)
    &&& match json_document(text) {
        Some(document) => exam_format_fault(document) matches Some(member) && error.message@
            == message_prefix(ErrorKind::Parse) + schema_mismatch(member),
        None => names_json_error(error),
    }
}

/// What the message of a parse error says after its prefix where the text is
/// JSON and does not match the schema: it names the first member, in the
/// order of the schema, that is missing or is not of its type.
pub open spec fn schema_mismatch(member: Seq<char>) -> Seq<char> {
    "missing or invalid member "@ + member
}

/// The name of the member `inner` of the member `outer`.
pub open spec fn within(outer: Seq<char>, inner: Seq<char>) -> Seq<char> {
    outer + "."@ + inner
}

/// The member under `key` as a 32-bit unsigned integer.
pub open spec fn unsigned32_in(object: serde_json::Value, key: Seq<char>) -> Option<u32> {
    match json_member(object, key) {
        Some(member) => match json_unsigned(member) {
            Some(n) => if n <= u32::MAX {
                Some(n as u32)
            } else {
                None
            },
            None => None,
        },
        None => None,
    }
}

/// The member under `key` as a string.
pub open spec fn text_in(object: serde_json::Value, key: Seq<char>) -> Option<Seq<char>> {
    match json_member(object, key) {
        Some(member) => json_text(member),
        None => None,
    }
}

/// A JSON array of strings as a list of strings.
pub open spec fn text_list(value: serde_json::Value) -> Option<Seq<Seq<char>>> {
    match json_items(value) {
        Some(items) => if forall|i: int| 0 <= i < items.len() ==> json_text(#[trigger] items[i]) is Some {
            Some(Seq::new(items.len(), |i: int| json_text(items[i]).unwrap()))
        } else {
            None
        },
        None => None,
    }
}

/// The member under `key` as a list of strings.
pub open spec fn text_list_in(object: serde_json::Value, key: Seq<char>) -> Option<Seq<Seq<char>>> {
    match json_member(object, key) {
        Some(member) => text_list(member),
        None => None,
    }
}

/// A JSON object as a required size.
pub open spec fn size_of(value: serde_json::Value) -> Option<SizeSpec> {
    match (
        unsigned32_in(value, "width"@),
        unsigned32_in(value, "height"@),
        unsigned32_in(value, "dpi"@),
        text_in(value, "format"@),
    ) {
        (Some(width), Some(height), Some(dpi), Some(format)) => Some(
            SizeSpec { width, height, dpi, format },
        ),
        _ => None,
    }
}

/// The member under `key` as a required size.
pub open spec fn size_in(object: serde_json::Value, key: Seq<char>) -> Option<SizeSpec> {
    match json_member(object, key) {
        Some(member) => size_of(member),
        None => None,
    }
}

/// The first member of a required size that is missing or is not of its
/// type, if there is one.
pub open spec fn size_fault(value: serde_json::Value) -> Option<Seq<char>> {
    if unsigned32_in(value, "width"@) is None {
        Some("width"@)
    } else if unsigned32_in(value, "height"@) is None {
        Some("height"@)
    } else if unsigned32_in(value, "dpi"@) is None {
        Some("dpi"@)
    } else if text_in(value, "format"@) is None {
        Some("format"@)
    } else {
        None
    }
}

/// What is wrong with the required size under `key`, if anything is: the
/// member itself where it is missing, else its first faulty member.
pub open spec fn size_fault_in(object: serde_json::Value, key: Seq<char>) -> Option<Seq<char>> {
    match json_member(object, key) {
        Some(member) => match size_fault(member) {
            Some(inner) => Some(within(key, inner)),
            None => None,
        },
        None => Some(key),
    }
}

/// The first member of the requirements of an exam that is missing or is not
/// of its type, if there is one.
pub open spec fn requirements_fault(value: serde_json::Value) -> Option<Seq<char>> {
    if size_fault_in(value, "photoSize"@) is Some {
        size_fault_in(value, "photoSize"@)
    } else if size_fault_in(value, "signatureSize"@) is Some {
        size_fault_in(value, "signatureSize"@)
    } else if text_list_in(value, "documentFormats"@) is None {
        Some("documentFormats"@)
    } else if unsigned32_in(value, "maxFileSize"@) is None {
        Some("maxFileSize"@)
    } else if text_list_in(value, "requiredDocuments"@) is None {
        Some("requiredDocuments"@)
    } else {
        None
    }
}

/// The first member of an exam format that is missing or is not of its type,
/// if there is one.
pub open spec fn exam_format_fault(value: serde_json::Value) -> Option<Seq<char>> {
    if text_in(value, "id"@) is None {
        Some("id"@)
    } else if text_in(value, "name"@) is None {
        Some("name"@)
    } else {
        match json_member(value, "requirements"@) {
            Some(member) => match requirements_fault(member) {
                Some(inner) => Some(within("requirements"@, inner)),
                None => None,
            },
            None => Some("requirements"@),
        }
    }
}

/// A JSON value is an exam format exactly where none of its members is
/// faulty.
pub proof fn lemma_fault_or_format(value: serde_json::Value)
    ensures
        exam_format_of(value) is None <==> exam_format_fault(value) is Some,
{
}

/// A JSON object as the requirements of an exam.
pub open spec fn requirements_of(value: serde_json::Value) -> Option<ExamRequirementsSpec> {
    match (
        size_in(value, "photoSize"@),
        size_in(value, "signatureSize"@),
        text_list_in(value, "documentFormats"@),
        unsigned32_in(value, "maxFileSize"@),
        text_list_in(value, "requiredDocuments"@),
    ) {
        (
            Some(photo_size),
            Some(signature_size),
            Some(document_formats),
            Some(max_file_size),
            Some(required_documents),
        ) => Some(
            ExamRequirementsSpec {
                photo_size,
                signature_size,
                document_formats,
                max_file_size,
                required_documents,
            },
        ),
        _ => None,
    }
}

/// A JSON object as an exam format.
pub open spec fn exam_format_of(value: serde_json::Value) -> Option<ExamFormatSpec> {
    match (
        text_in(value, "id"@),
        text_in(value, "name"@),
        match json_member(value, "requirements"@) {
            Some(member) => requirements_of(member),
            None => None,
        },
    ) {
        (Some(id), Some(name), Some(requirements)) => Some(ExamFormatSpec { id, name, requirements }),
        _ => None,
    }
}

/// The exam format that a descriptor text stands for, if it is JSON and
/// matches the schema.
pub open spec fn exam_format_in(text: Seq<char>) -> Option<ExamFormatSpec> {
    match json_document(text) {
        Some(document) => exam_format_of(document),
        None => None,
    }
}

/// `serde_json::from_str` to a `serde_json::Value`: the value that the text
/// stands for, or the error where the text is no JSON.
#[verifier::external_body]
pub(crate) fn parse_json(text: &str) -> (res: Result<serde_json::Value, serde_json::Error>)
    ensures
        match res {
            Ok(value) => json_document(text@) == Some(value),
            Err(_) => json_document(text@) is None,
        },
{
    serde_json::from_str::<serde_json::Value>(text)
}

/// `serde_json::Value::get` with a string: the member of an object under a
/// key; nothing where the value is no object or has no such member.
#[verifier::external_body]
pub(crate) fn member<'a>(value: &'a serde_json::Value, key: &str) -> (res: Option<
    &'a serde_json::Value,
>)
    ensures
        match res {
            Some(found) => json_member(*value, key@) == Some(*found),
            None => json_member(*value, key@) is None,
        },
{
    value.get(key)
}

/// `serde_json::Value::as_u64`: the number, where the value is one that was
/// written as an integer from 0 to 2^64 - 1.
#[verifier::external_body]
pub(crate) fn as_unsigned(value: &serde_json::Value) -> (res: Option<u64>)
    ensures
        res == json_unsigned(*value),
{
    value.as_u64()
}

/// `serde_json::Value::as_str`: the string, where the value is one.
#[verifier::external_body]
pub(crate) fn as_text<'a>(value: &'a serde_json::Value) -> (res: Option<&'a str>)
    ensures
        match res {
            Some(text) => json_text(*value) == Some(text@),
            None => json_text(*value) is None,
        },
{
    value.as_str()
}

/// `serde_json::Value::as_array`: the elements, where the value is an array.
#[verifier::external_body]
pub(crate) fn as_items<'a>(value: &'a serde_json::Value) -> (res: Option<&'a Vec<serde_json::Value>>)
    ensures
        match res {
            Some(items) => json_items(*value) == Some(items@),
            None => json_items(*value) is None,
        },
{
    value.as_array()
}

/// `serde_json::Error` as text, through its `Display`.
#[verifier::external_body]
pub(crate) fn json_error_text(error: &serde_json::Error) -> (text: String)
    ensures
        json_error_says(*error, text@),
{
    error.to_string()
}

/// Reads the member under `key` as a 32-bit unsigned integer.
pub fn read_unsigned32(object: &serde_json::Value, key: &str) -> (res: Option<u32>)
    ensures
        res == unsigned32_in(*object, key@),
{
    match member(object, key) {
        Some(found) => match as_unsigned(found) {
            Some(n) => if n <= u32::MAX as u64 {
                Some(n as u32)
            } else {
                None
            },
            None => None,
        },
        None => None,
    }
}

/// Reads the member under `key` as a string.
pub fn read_text(object: &serde_json::Value, key: &str) -> (res: Option<String>)
    ensures
        match res {
            Some(text) => text_in(*object, key@) == Some(text@),
            None => text_in(*object, key@) is None,
        },
{
    match member(object, key) {
        Some(found) => match as_text(found) {
            Some(text) => Some(text.to_owned()),
            None => None,
        },
        None => None,
    }
}

/// Reads a JSON array of strings.
pub fn read_text_list(value: &serde_json::Value) -> (res: Option<Vec<String>>)
    ensures
        match res {
            Some(list) => text_list(*value) == Some(texts(list@)),
            None => text_list(*value) is None,
        },
{
    let items = match as_items(value) {
        Some(items) => items,
        None => {
            return None;
        },
    };
    let mut list: Vec<String> = Vec::new();
    let mut i: usize = 0;
    while i < items.len()
        invariant
            json_items(*value) == Some(items@),
            i <= items@.len(),
            list@.len() == i,
            forall|k: int| 0 <= k < i ==> json_text(#[trigger] items@[k]) == Some(list@[k]@),
        decreases items@.len() - i,
    {
        match as_text(&items[i]) {
            Some(text) => {
                list.push(text.to_owned());
            },
            None => {
                return None;
            },
        }
        i += 1;
    }
    assert(texts(list@) =~= Seq::new(items@.len(), |k: int| json_text(items@[k]).unwrap()));
    Some(list)
}

/// Reads the member under `key` as a list of strings.
pub fn read_text_list_in(object: &serde_json::Value, key: &str) -> (res: Option<Vec<String>>)
    ensures
        match res {
            Some(list) => text_list_in(*object, key@) == Some(texts(list@)),
            None => text_list_in(*object, key@) is None,
        },
{
    match member(object, key) {
        Some(found) => read_text_list(found),
        None => None,
    }
}

/// Reads a JSON object as the required form of a passport photo.
pub fn read_photo_requirements(value: &serde_json::Value) -> (res: Option<PhotoRequirements>)
    ensures
        match res {
            Some(size) => size_of(*value) == Some(size@),
            None => size_of(*value) is None,
        },
{
    let width = read_unsigned32(value, "width");
    let height = read_unsigned32(value, "height");
    let dpi = read_unsigned32(value, "dpi");
    let format = read_text(value, "format");
    match (width, height, dpi, format) {
        (Some(width), Some(height), Some(dpi), Some(format)) => Some(
            PhotoRequirements { width, height, dpi, format },
        ),
        _ => None,
    }
}

/// Reads a JSON object as the required form of a signature.
pub fn read_signature_requirements(value: &serde_json::Value) -> (res: Option<
    SignatureRequirements,
>)
    ensures
        match res {
            Some(size) => size_of(*value) == Some(size@),
            None => size_of(*value) is None,
        },
{
    let width = read_unsigned32(value, "width");
    let height = read_unsigned32(value, "height");
    let dpi = read_unsigned32(value, "dpi");
    let format = read_text(value, "format");
    match (width, height, dpi, format) {
        (Some(width), Some(height), Some(dpi), Some(format)) => Some(
            SignatureRequirements { width, height, dpi, format },
        ),
        _ => None,
    }
}

/// Reads a JSON object as the requirements of an exam.
pub fn read_exam_requirements(value: &serde_json::Value) -> (res: Option<ExamRequirements>)
    ensures
        match res {
            Some(requirements) => requirements_of(*value) == Some(requirements@),
            None => requirements_of(*value) is None,
        },
{
    let photo_size = match member(value, "photoSize") {
        Some(found) => read_photo_requirements(found),
        None => None,
    };
    let signature_size = match member(value, "signatureSize") {
        Some(found) => read_signature_requirements(found),
        None => None,
    };
    let document_formats = read_text_list_in(value, "documentFormats");
    let max_file_size = read_unsigned32(value, "maxFileSize");
    let required_documents = read_text_list_in(value, "requiredDocuments");
    match (photo_size, signature_size, document_formats, max_file_size, required_documents) {
        (
            Some(photo_size),
            Some(signature_size),
            Some(document_formats),
            Some(max_file_size),
            Some(required_documents),
        ) => Some(
            ExamRequirements {
                photo_size,
                signature_size,
                document_formats,
                max_file_size,
                required_documents,
            },
        ),
        _ => None,
    }
}

/// Reads a JSON object as an exam format.
pub fn read_exam_format(value: &serde_json::Value) -> (res: Option<ExamFormat>)
    ensures
        match res {
            Some(format) => exam_format_of(*value) == Some(format@),
            None => exam_format_of(*value) is None,
        },
{
    let id = read_text(value, "id");
    let name = read_text(value, "name");
    let requirements = match member(value, "requirements") {
        Some(found) => read_exam_requirements(found),
        None => None,
    };
    match (id, name, requirements) {
        (Some(id), Some(name), Some(requirements)) => Some(ExamFormat { id, name, requirements }),
        _ => None,
    }
}

/// The name of the member `inner` of the member `outer`.
pub fn member_within(outer: &str, inner: &str) -> (path: String)
    ensures
        path@ == within(outer@, inner@),
{
    String::from_str(outer).concat(".").concat(inner)
}

/// Finds the first member of a required size that is missing or is not of
/// its type.
pub fn find_size_fault(value: &serde_json::Value) -> (res: Option<String>)
    ensures
        match res {
            Some(member) => size_fault(*value) == Some(member@),
            None => size_fault(*value) is None,
        },
{
    if read_unsigned32(value, "width").is_none() {
        Some(String::from_str("width"))
    } else if read_unsigned32(value, "height").is_none() {
        Some(String::from_str("height"))
    } else if read_unsigned32(value, "dpi").is_none() {
        Some(String::from_str("dpi"))
    } else if read_text(value, "format").is_none() {
        Some(String::from_str("format"))
    } else {
        None
    }
}

/// Finds what is wrong with the required size under `key`.
pub fn find_size_fault_in(object: &serde_json::Value, key: &str) -> (res: Option<String>)
    ensures
        match res {
            Some(member) => size_fault_in(*object, key@) == Some(member@),
            None => size_fault_in(*object, key@) is None,
        },
{
    match member(object, key) {
        Some(found) => match find_size_fault(found) {
            Some(inner) => Some(member_within(key, inner.as_str())),
            None => None,
        },
        None => Some(String::from_str(key)),
    }
}

/// Finds the first member of the requirements of an exam that is missing or
/// is not of its type.
pub fn find_requirements_fault(value: &serde_json::Value) -> (res: Option<String>)
    ensures
        match res {
            Some(member) => requirements_fault(*value) == Some(member@),
            None => requirements_fault(*value) is None,
        },
{
    let photo = find_size_fault_in(value, "photoSize");
    if photo.is_some() {
        return photo;
    }
    let signature = find_size_fault_in(value, "signatureSize");
    if signature.is_some() {
        return signature;
    }
    if read_text_list_in(value, "documentFormats").is_none() {
        Some(String::from_str("documentFormats"))
    } else if read_unsigned32(value, "maxFileSize").is_none() {
        Some(String::from_str("maxFileSize"))
    } else if read_text_list_in(value, "requiredDocuments").is_none() {
        Some(String::from_str("requiredDocuments"))
    } else {
        None
    }
}

/// Finds the first member of an exam format that is missing or is not of its
/// type.
pub fn find_exam_format_fault(value: &serde_json::Value) -> (res: Option<String>)
    ensures
        match res {
            Some(member) => exam_format_fault(*value) == Some(member@),
            None => exam_format_fault(*value) is None,
        },
{
    if read_text(value, "id").is_none() {
        Some(String::from_str("id"))
    } else if read_text(value, "name").is_none() {
        Some(String::from_str("name"))
    } else {
        match member(value, "requirements") {
            Some(found) => match find_requirements_fault(found) {
                Some(inner) => Some(member_within("requirements", inner.as_str())),
                None => None,
            },
            None => Some(String::from_str("requirements")),
        }
    }
}

/// Reads an exam format from its JSON descriptor. A text that is no JSON, or
/// whose value does not match the schema, is a parse error; the message of
/// the second names the first member that is missing or is not of its type.
pub fn parse_exam_format(text: &str) -> (res: Result<ExamFormat, ConvertError>)
    ensures
        match res {
            Ok(format) => exam_format_in(text@) == Some(format@),
            Err(error) => is_parse_error_of(error, text@),
        },
{
    match parse_json(text) {
        Ok(document) => match read_exam_format(&document) {
            Some(format) => Ok(format),
            None => {
                proof {
                    lemma_fault_or_format(document);
                }
                match find_exam_format_fault(&document) {
                    Some(member) => {
                        let cause = String::from_str("missing or invalid member ").concat(
                            member.as_str(),
                        );
                        Err(ConvertError::new(ErrorKind::Parse, cause.as_str()))
                    },
                    None => unreached(),
                }
            },
        },
        Err(cause) => {
            let said = json_error_text(&cause);
            let error = ConvertError::new(ErrorKind::Parse, said.as_str());
            assert(json_error_says(cause, said@) && error.message@ == message_prefix(error.kind)
                + said@);
            Err(error)
        },
    }
}

} // verus!
