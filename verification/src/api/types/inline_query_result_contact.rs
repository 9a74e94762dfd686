use crate::errors::{DecodeError, DecodeErrorView};
use crate::json::{
    JsonSpec, JsonValue, push_field, push_str_field, req_str, res_view, sreq_str,
};
use vstd::prelude::*;
use vstd::string::StringExecFns;

verus! {

/// One kind of inline-query result, tagged `contact` on the wire.
#[derive(Debug, Clone, PartialEq)]
pub struct InlineQueryResultContact {
    pub id: String,
    pub phone_number: String,
    pub first_name: String,
}

/// Mathematical image of `InlineQueryResultContact`.
#[verifier::ext_equal]
pub struct InlineQueryResultContactView {
    pub id: Seq<char>,
    pub phone_number: Seq<char>,
    pub first_name: Seq<char>,
}

impl View for InlineQueryResultContact {
    type V = InlineQueryResultContactView;

    open spec fn view(&self) -> InlineQueryResultContactView {
        InlineQueryResultContactView {
            id: self.id@,
            phone_number: self.phone_number@,
            first_name: self.first_name@,
        }
    }
}

impl DeepView for InlineQueryResultContact {
    type V = InlineQueryResultContactView;

    open spec fn deep_view(&self) -> InlineQueryResultContactView {
        self.view()
    }
}

/// The object it serializes to, tag included.
pub open spec fn senc_inline_query_result_contact(m: InlineQueryResultContactView) -> JsonSpec {
    JsonSpec::Obj(Map::empty().insert("type"@, JsonSpec::Str("contact"@)).insert("id"@, JsonSpec::Str(m.id)).insert("phone_number"@, JsonSpec::Str(m.phone_number)).insert("first_name"@, JsonSpec::Str(m.first_name)))
}

/// The value a tree decodes to.
pub open spec fn sdec_inline_query_result_contact(j: JsonSpec) -> Result<InlineQueryResultContactView, DecodeErrorView> {
    match sreq_str(j, "id"@) {
        Err(e) => Err(e),
        Ok(id) => {
            match sreq_str(j, "phone_number"@) {
                Err(e) => Err(e),
                Ok(phone_number) => {
                    match sreq_str(j, "first_name"@) {
                        Err(e) => Err(e),
                        Ok(first_name) => {
                            Ok(InlineQueryResultContactView { id, phone_number, first_name })
                        },
                    }
                },
            }
        },
    }
}

pub fn encode_inline_query_result_contact(x: &InlineQueryResultContact) -> (r: JsonValue)
    ensures
        r@ == senc_inline_query_result_contact(x@),
{
    let mut pairs: Vec<(String, JsonValue)> = Vec::new();
    push_field(&mut pairs, "type", JsonValue::Str(String::from_str("contact")));
    push_str_field(&mut pairs, "id", &x.id);
    push_str_field(&mut pairs, "phone_number", &x.phone_number);
    push_str_field(&mut pairs, "first_name", &x.first_name);
    JsonValue::Obj(pairs)
}

pub fn decode_inline_query_result_contact(j: &JsonValue) -> (r: Result<InlineQueryResultContact, DecodeError>)
    ensures
        res_view(r) == sdec_inline_query_result_contact(j@),
{
    let id = match req_str(j, "id") {
        Ok(v) => v,
        Err(e) => {
            return Err(e);
        },
    };
    let phone_number = match req_str(j, "phone_number") {
        Ok(v) => v,
        Err(e) => {
            return Err(e);
        },
    };
    let first_name = match req_str(j, "first_name") {
        Ok(v) => v,
        Err(e) => {
            return Err(e);
        },
    };
    Ok(InlineQueryResultContact { id, phone_number, first_name })
}

/// Decoding undoes encoding, for every value.
pub proof fn lemma_inline_query_result_contact_round_trip(m: InlineQueryResultContactView)
    ensures
        sdec_inline_query_result_contact(senc_inline_query_result_contact(m)) == Ok::<InlineQueryResultContactView, DecodeErrorView>(m),
{
    reveal_strlit("type");
    reveal_strlit("id");
    reveal_strlit("phone_number");
    reveal_strlit("first_name");
    assert("type"@.len() == 4 && "id"@.len() == 2 && "phone_number"@.len() == 12 && "first_name"@.len() == 10);
}

/// The tag key of the encoded member reads back as its own tag.
pub proof fn lemma_inline_query_result_contact_tag(m: InlineQueryResultContactView)
    ensures
        sreq_str(senc_inline_query_result_contact(m), "type"@) == Ok::<Seq<char>, DecodeErrorView>("contact"@),
{
    reveal_strlit("type");
    reveal_strlit("id");
    reveal_strlit("phone_number");
    reveal_strlit("first_name");
    reveal_strlit("contact");
    assert("type"@.len() == 4 && "id"@.len() == 2 && "phone_number"@.len() == 12 && "first_name"@.len() == 10);
}

} // verus!
