use crate::errors::{DecodeError, DecodeErrorView};
use crate::json::{
    JsonSpec, JsonValue, push_field, push_str_field, req_str, res_view, sreq_str,
};
use vstd::prelude::*;
use vstd::string::StringExecFns;

verus! {

/// One kind of passport element error, tagged `unspecified` on the wire.
#[derive(Debug, Clone, PartialEq)]
pub struct PassportElementErrorUnspecified {
    pub element_type: String,
    pub element_hash: String,
    pub message: String,
}

/// Mathematical image of `PassportElementErrorUnspecified`.
#[verifier::ext_equal]
pub struct PassportElementErrorUnspecifiedView {
    pub element_type: Seq<char>,
    pub element_hash: Seq<char>,
    pub message: Seq<char>,
}

impl View for PassportElementErrorUnspecified {
    type V = PassportElementErrorUnspecifiedView;

    open spec fn view(&self) -> PassportElementErrorUnspecifiedView {
        PassportElementErrorUnspecifiedView {
            element_type: self.element_type@,
            element_hash: self.element_hash@,
            message: self.message@,
        }
    }
}

impl DeepView for PassportElementErrorUnspecified {
    type V = PassportElementErrorUnspecifiedView;

    open spec fn deep_view(&self) -> PassportElementErrorUnspecifiedView {
        self.view()
    }
}

/// The object it serializes to, tag included.
pub open spec fn senc_passport_element_error_unspecified(m: PassportElementErrorUnspecifiedView) -> JsonSpec {
    JsonSpec::Obj(Map::empty().insert("type"@, JsonSpec::Str("unspecified"@)).insert("element_type"@, JsonSpec::Str(m.element_type)).insert("element_hash"@, JsonSpec::Str(m.element_hash)).insert("message"@, JsonSpec::Str(m.message)))
}

/// The value a tree decodes to.
pub open spec fn sdec_passport_element_error_unspecified(j: JsonSpec) -> Result<PassportElementErrorUnspecifiedView, DecodeErrorView> {
    match sreq_str(j, "element_type"@) {
        Err(e) => Err(e),
        Ok(element_type) => {
            match sreq_str(j, "element_hash"@) {
                Err(e) => Err(e),
                Ok(element_hash) => {
                    match sreq_str(j, "message"@) {
                        Err(e) => Err(e),
                        Ok(message) => {
                            Ok(PassportElementErrorUnspecifiedView { element_type, element_hash, message })
                        },
                    }
                },
            }
        },
    }
}

pub fn encode_passport_element_error_unspecified(x: &PassportElementErrorUnspecified) -> (r: JsonValue)
    ensures
        r@ == senc_passport_element_error_unspecified(x@),
{
    let mut pairs: Vec<(String, JsonValue)> = Vec::new();
    push_field(&mut pairs, "type", JsonValue::Str(String::from_str("unspecified")));
    push_str_field(&mut pairs, "element_type", &x.element_type);
    push_str_field(&mut pairs, "element_hash", &x.element_hash);
    push_str_field(&mut pairs, "message", &x.message);
    JsonValue::Obj(pairs)
}

pub fn decode_passport_element_error_unspecified(j: &JsonValue) -> (r: Result<PassportElementErrorUnspecified, DecodeError>)
    ensures
        res_view(r) == sdec_passport_element_error_unspecified(j@),
{
    let element_type = match req_str(j, "element_type") {
        Ok(v) => v,
        Err(e) => {
            return Err(e);
        },
    };
    let element_hash = match req_str(j, "element_hash") {
        Ok(v) => v,
        Err(e) => {
            return Err(e);
        },
    };
    let message = match req_str(j, "message") {
        Ok(v) => v,
        Err(e) => {
            return Err(e);
        },
    };
    Ok(PassportElementErrorUnspecified { element_type, element_hash, message })
}

/// Decoding undoes encoding, for every value.
pub proof fn lemma_passport_element_error_unspecified_round_trip(m: PassportElementErrorUnspecifiedView)
    ensures
        sdec_passport_element_error_unspecified(senc_passport_element_error_unspecified(m)) == Ok::<PassportElementErrorUnspecifiedView, DecodeErrorView>(m),
{
    reveal_strlit("type");
    reveal_strlit("element_type");
    reveal_strlit("element_hash");
    reveal_strlit("message");
    assert("type"@.len() == 4 && "element_type"@.len() == 12 && "element_hash"@.len() == 12 && "message"@.len() == 7);
    assert("element_hash"@[8] == 'h' && "element_type"@[8] == 't');
}

/// The tag key of the encoded member reads back as its own tag.
pub proof fn lemma_passport_element_error_unspecified_tag(m: PassportElementErrorUnspecifiedView)
    ensures
        sreq_str(senc_passport_element_error_unspecified(m), "type"@) == Ok::<Seq<char>, DecodeErrorView>("unspecified"@),
{
    reveal_strlit("type");
    reveal_strlit("element_type");
    reveal_strlit("element_hash");
    reveal_strlit("message");
    reveal_strlit("unspecified");
    assert("type"@.len() == 4 && "element_type"@.len() == 12 && "element_hash"@.len() == 12 && "message"@.len() == 7);
    assert("element_hash"@[8] == 'h' && "element_type"@[8] == 't');
}

} // verus!
