use crate::errors::{DecodeError, DecodeErrorView};
use crate::json::{
    JsonSpec, JsonValue, push_field, push_str_field, req_str, res_view, sreq_str,
};
use vstd::prelude::*;
use vstd::string::StringExecFns;

verus! {

/// One kind of passport element error, tagged `data` on the wire.
#[derive(Debug, Clone, PartialEq)]
pub struct PassportElementErrorDataField {
    pub element_type: String,
    pub field_name: String,
    pub data_hash: String,
    pub message: String,
}

/// Mathematical image of `PassportElementErrorDataField`.
#[verifier::ext_equal]
pub struct PassportElementErrorDataFieldView {
    pub element_type: Seq<char>,
    pub field_name: Seq<char>,
    pub data_hash: Seq<char>,
    pub message: Seq<char>,
}

impl View for PassportElementErrorDataField {
    type V = PassportElementErrorDataFieldView;

    open spec fn view(&self) -> PassportElementErrorDataFieldView {
        PassportElementErrorDataFieldView {
            element_type: self.element_type@,
            field_name: self.field_name@,
            data_hash: self.data_hash@,
            message: self.message@,
        }
    }
}

impl DeepView for PassportElementErrorDataField {
    type V = PassportElementErrorDataFieldView;

    open spec fn deep_view(&self) -> PassportElementErrorDataFieldView {
        self.view()
    }
}

/// The object it serializes to, tag included.
pub open spec fn senc_passport_element_error_data_field(m: PassportElementErrorDataFieldView) -> JsonSpec {
    JsonSpec::Obj(Map::empty().insert("type"@, JsonSpec::Str("data"@)).insert("element_type"@, JsonSpec::Str(m.element_type)).insert("field_name"@, JsonSpec::Str(m.field_name)).insert("data_hash"@, JsonSpec::Str(m.data_hash)).insert("message"@, JsonSpec::Str(m.message)))
}

/// The value a tree decodes to.
pub open spec fn sdec_passport_element_error_data_field(j: JsonSpec) -> Result<PassportElementErrorDataFieldView, DecodeErrorView> {
    match sreq_str(j, "element_type"@) {
        Err(e) => Err(e),
        Ok(element_type) => {
            match sreq_str(j, "field_name"@) {
                Err(e) => Err(e),
                Ok(field_name) => {
                    match sreq_str(j, "data_hash"@) {
                        Err(e) => Err(e),
                        Ok(data_hash) => {
                            match sreq_str(j, "message"@) {
                                Err(e) => Err(e),
                                Ok(message) => {
                                    Ok(PassportElementErrorDataFieldView { element_type, field_name, data_hash, message })
                                },
                            }
                        },
                    }
                },
            }
        },
    }
}

pub fn encode_passport_element_error_data_field(x: &PassportElementErrorDataField) -> (r: JsonValue)
    ensures
        r@ == senc_passport_element_error_data_field(x@),
{
    let mut pairs: Vec<(String, JsonValue)> = Vec::new();
    push_field(&mut pairs, "type", JsonValue::Str(String::from_str("data")));
    push_str_field(&mut pairs, "element_type", &x.element_type);
    push_str_field(&mut pairs, "field_name", &x.field_name);
    push_str_field(&mut pairs, "data_hash", &x.data_hash);
    push_str_field(&mut pairs, "message", &x.message);
    JsonValue::Obj(pairs)
}

pub fn decode_passport_element_error_data_field(j: &JsonValue) -> (r: Result<PassportElementErrorDataField, DecodeError>)
    ensures
        res_view(r) == sdec_passport_element_error_data_field(j@),
{
    let element_type = match req_str(j, "element_type") {
        Ok(v) => v,
        Err(e) => {
            return Err(e);
        },
    };
    let field_name = match req_str(j, "field_name") {
        Ok(v) => v,
        Err(e) => {
            return Err(e);
        },
    };
    let data_hash = match req_str(j, "data_hash") {
        Ok(v) => v,
        Err(e) => {
            return Err(e);
        },
    };
    let message = match req_str(j, "message") {
        Ok(v) => v,
        Err(e) => {
            return Err(e);
        },
    };
    Ok(PassportElementErrorDataField { element_type, field_name, data_hash, message })
}

/// Decoding undoes encoding, for every value.
pub proof fn lemma_passport_element_error_data_field_round_trip(m: PassportElementErrorDataFieldView)
    ensures
        sdec_passport_element_error_data_field(senc_passport_element_error_data_field(m)) == Ok::<PassportElementErrorDataFieldView, DecodeErrorView>(m),
{
    reveal_strlit("type");
    reveal_strlit("element_type");
    reveal_strlit("field_name");
    reveal_strlit("data_hash");
    reveal_strlit("message");
    assert("type"@.len() == 4 && "element_type"@.len() == 12 && "field_name"@.len() == 10 && "data_hash"@.len() == 9 && "message"@.len() == 7);
}

/// The tag key of the encoded member reads back as its own tag.
pub proof fn lemma_passport_element_error_data_field_tag(m: PassportElementErrorDataFieldView)
    ensures
        sreq_str(senc_passport_element_error_data_field(m), "type"@) == Ok::<Seq<char>, DecodeErrorView>("data"@),
{
    reveal_strlit("type");
    reveal_strlit("element_type");
    reveal_strlit("field_name");
    reveal_strlit("data_hash");
    reveal_strlit("message");
    reveal_strlit("data");
    assert("type"@.len() == 4 && "element_type"@.len() == 12 && "field_name"@.len() == 10 && "data_hash"@.len() == 9 && "message"@.len() == 7);
}

} // verus!
