use crate::errors::{DecodeError, DecodeErrorView};
use crate::json::{
    JsonSpec, JsonValue, push_field, push_str_field, req_str, res_view, sreq_str,
};
use vstd::prelude::*;
use vstd::string::StringExecFns;

verus! {

/// One kind of passport element error, tagged `front_side` on the wire.
#[derive(Debug, Clone, PartialEq)]
pub struct PassportElementErrorFrontSide {
    pub element_type: String,
    pub file_hash: String,
    pub message: String,
}

/// Mathematical image of `PassportElementErrorFrontSide`.
#[verifier::ext_equal]
pub struct PassportElementErrorFrontSideView {
    pub element_type: Seq<char>,
    pub file_hash: Seq<char>,
    pub message: Seq<char>,
}

impl View for PassportElementErrorFrontSide {
    type V = PassportElementErrorFrontSideView;

    open spec fn view(&self) -> PassportElementErrorFrontSideView {
        PassportElementErrorFrontSideView {
            element_type: self.element_type@,
            file_hash: self.file_hash@,
            message: self.message@,
        }
    }
}

impl DeepView for PassportElementErrorFrontSide {
    type V = PassportElementErrorFrontSideView;

    open spec fn deep_view(&self) -> PassportElementErrorFrontSideView {
        self.view()
    }
}

/// The object it serializes to, tag included.
pub open spec fn senc_passport_element_error_front_side(m: PassportElementErrorFrontSideView) -> JsonSpec {
    JsonSpec::Obj(Map::empty().insert("type"@, JsonSpec::Str("front_side"@)).insert("element_type"@, JsonSpec::Str(m.element_type)).insert("file_hash"@, JsonSpec::Str(m.file_hash)).insert("message"@, JsonSpec::Str(m.message)))
}

/// The value a tree decodes to.
pub open spec fn sdec_passport_element_error_front_side(j: JsonSpec) -> Result<PassportElementErrorFrontSideView, DecodeErrorView> {
    match sreq_str(j, "element_type"@) {
        Err(e) => Err(e),
        Ok(element_type) => {
            match sreq_str(j, "file_hash"@) {
                Err(e) => Err(e),
                Ok(file_hash) => {
                    match sreq_str(j, "message"@) {
                        Err(e) => Err(e),
                        Ok(message) => {
                            Ok(PassportElementErrorFrontSideView { element_type, file_hash, message })
                        },
                    }
                },
            }
        },
    }
}

pub fn encode_passport_element_error_front_side(x: &PassportElementErrorFrontSide) -> (r: JsonValue)
    ensures
        r@ == senc_passport_element_error_front_side(x@),
{
    let mut pairs: Vec<(String, JsonValue)> = Vec::new();
    push_field(&mut pairs, "type", JsonValue::Str(String::from_str("front_side")));
    push_str_field(&mut pairs, "element_type", &x.element_type);
    push_str_field(&mut pairs, "file_hash", &x.file_hash);
    push_str_field(&mut pairs, "message", &x.message);
    JsonValue::Obj(pairs)
}

pub fn decode_passport_element_error_front_side(j: &JsonValue) -> (r: Result<PassportElementErrorFrontSide, DecodeError>)
    ensures
        res_view(r) == sdec_passport_element_error_front_side(j@),
{
    let element_type = match req_str(j, "element_type") {
        Ok(v) => v,
        Err(e) => {
            return Err(e);
        },
    };
    let file_hash = match req_str(j, "file_hash") {
        Ok(v) => v,
        Err(e) => {
            return Err(e);
        },
    };
    let message = match req_str(j, "message") {
        Ok(v) => v,
        Err(e) => {
            return Err(e);
        },
    };
    Ok(PassportElementErrorFrontSide { element_type, file_hash, message })
}

/// Decoding undoes encoding, for every value.
pub proof fn lemma_passport_element_error_front_side_round_trip(m: PassportElementErrorFrontSideView)
    ensures
        sdec_passport_element_error_front_side(senc_passport_element_error_front_side(m)) == Ok::<PassportElementErrorFrontSideView, DecodeErrorView>(m),
{
    reveal_strlit("type");
    reveal_strlit("element_type");
    reveal_strlit("file_hash");
    reveal_strlit("message");
    assert("type"@.len() == 4 && "element_type"@.len() == 12 && "file_hash"@.len() == 9 && "message"@.len() == 7);
}

/// The tag key of the encoded member reads back as its own tag.
pub proof fn lemma_passport_element_error_front_side_tag(m: PassportElementErrorFrontSideView)
    ensures
        sreq_str(senc_passport_element_error_front_side(m), "type"@) == Ok::<Seq<char>, DecodeErrorView>("front_side"@),
{
    reveal_strlit("type");
    reveal_strlit("element_type");
    reveal_strlit("file_hash");
    reveal_strlit("message");
    reveal_strlit("front_side");
    assert("type"@.len() == 4 && "element_type"@.len() == 12 && "file_hash"@.len() == 9 && "message"@.len() == 7);
}

} // verus!
