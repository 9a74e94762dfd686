use crate::errors::{DecodeError, DecodeErrorView};
use crate::json::{
    JsonSpec, JsonValue, push_field, push_str_field, req_str, res_view, sreq_str,
};
use vstd::prelude::*;
use vstd::string::StringExecFns;

verus! {

/// One kind of passport element error, tagged `file` on the wire.
#[derive(Debug, Clone, PartialEq)]
pub struct PassportElementErrorFile {
    pub element_type: String,
    pub file_hash: String,
    pub message: String,
}

/// Mathematical image of `PassportElementErrorFile`.
#[verifier::ext_equal]
pub struct PassportElementErrorFileView {
    pub element_type: Seq<char>,
    pub file_hash: Seq<char>,
    pub message: Seq<char>,
}

impl View for PassportElementErrorFile {
    type V = PassportElementErrorFileView;

    open spec fn view(&self) -> PassportElementErrorFileView {
        PassportElementErrorFileView {
            element_type: self.element_type@,
            file_hash: self.file_hash@,
            message: self.message@,
        }
    }
}

impl DeepView for PassportElementErrorFile {
    type V = PassportElementErrorFileView;

    open spec fn deep_view(&self) -> PassportElementErrorFileView {
        self.view()
    }
}

/// The object it serializes to, tag included.
pub open spec fn senc_passport_element_error_file(m: PassportElementErrorFileView) -> JsonSpec {
    JsonSpec::Obj(Map::empty().insert("type"@, JsonSpec::Str("file"@)).insert("element_type"@, JsonSpec::Str(m.element_type)).insert("file_hash"@, JsonSpec::Str(m.file_hash)).insert("message"@, JsonSpec::Str(m.message)))
}

/// The value a tree decodes to.
pub open spec fn sdec_passport_element_error_file(j: JsonSpec) -> Result<PassportElementErrorFileView, DecodeErrorView> {
    match sreq_str(j, "element_type"@) {
        Err(e) => Err(e),
        Ok(element_type) => {
            match sreq_str(j, "file_hash"@) {
                Err(e) => Err(e),
                Ok(file_hash) => {
                    match sreq_str(j, "message"@) {
                        Err(e) => Err(e),
                        Ok(message) => {
                            Ok(PassportElementErrorFileView { element_type, file_hash, message })
                        },
                    }
                },
            }
        },
    }
}

pub fn encode_passport_element_error_file(x: &PassportElementErrorFile) -> (r: JsonValue)
    ensures
        r@ == senc_passport_element_error_file(x@),
{
    let mut pairs: Vec<(String, JsonValue)> = Vec::new();
    push_field(&mut pairs, "type", JsonValue::Str(String::from_str("file")));
    push_str_field(&mut pairs, "element_type", &x.element_type);
    push_str_field(&mut pairs, "file_hash", &x.file_hash);
    push_str_field(&mut pairs, "message", &x.message);
    JsonValue::Obj(pairs)
}

pub fn decode_passport_element_error_file(j: &JsonValue) -> (r: Result<PassportElementErrorFile, DecodeError>)
    ensures
        res_view(r) == sdec_passport_element_error_file(j@),
{
    let element_type = match req_str(j, "element_type") {
        Ok(v) => v,
        Err(e) => {
            return Err(e);
        },
    };
    let file_hash = match req_str(j, "file_hash") {
        Ok(v) => v,
        Err(e) => {
            return Err(e);
        },
    };
    let message = match req_str(j, "message") {
        Ok(v) => v,
        Err(e) => {
            return Err(e);
        },
    };
    Ok(PassportElementErrorFile { element_type, file_hash, message })
}

/// Decoding undoes encoding, for every value.
pub proof fn lemma_passport_element_error_file_round_trip(m: PassportElementErrorFileView)
    ensures
        sdec_passport_element_error_file(senc_passport_element_error_file(m)) == Ok::<PassportElementErrorFileView, DecodeErrorView>(m),
{
    reveal_strlit("type");
    reveal_strlit("element_type");
    reveal_strlit("file_hash");
    reveal_strlit("message");
    assert("type"@.len() == 4 && "element_type"@.len() == 12 && "file_hash"@.len() == 9 && "message"@.len() == 7);
}

/// The tag key of the encoded member reads back as its own tag.
pub proof fn lemma_passport_element_error_file_tag(m: PassportElementErrorFileView)
    ensures
        sreq_str(senc_passport_element_error_file(m), "type"@) == Ok::<Seq<char>, DecodeErrorView>("file"@),
{
    reveal_strlit("type");
    reveal_strlit("element_type");
    reveal_strlit("file_hash");
    reveal_strlit("message");
    reveal_strlit("file");
    assert("type"@.len() == 4 && "element_type"@.len() == 12 && "file_hash"@.len() == 9 && "message"@.len() == 7);
}

} // verus!
