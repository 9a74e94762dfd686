use crate::errors::{DecodeError, DecodeErrorView};
use crate::json::{
    JsonSpec, JsonValue, push_field, push_str_field, req_str, res_view, sreq_str,
};
use vstd::prelude::*;
use vstd::string::StringExecFns;

verus! {

/// One kind of inline-query result, tagged `document` on the wire.
#[derive(Debug, Clone, PartialEq)]
pub struct InlineQueryResultDocument {
    pub id: String,
    pub title: String,
    pub document_url: String,
}

/// Mathematical image of `InlineQueryResultDocument`.
#[verifier::ext_equal]
pub struct InlineQueryResultDocumentView {
    pub id: Seq<char>,
    pub title: Seq<char>,
    pub document_url: Seq<char>,
}

impl View for InlineQueryResultDocument {
    type V = InlineQueryResultDocumentView;

    open spec fn view(&self) -> InlineQueryResultDocumentView {
        InlineQueryResultDocumentView {
            id: self.id@,
            title: self.title@,
            document_url: self.document_url@,
        }
    }
}

impl DeepView for InlineQueryResultDocument {
    type V = InlineQueryResultDocumentView;

    open spec fn deep_view(&self) -> InlineQueryResultDocumentView {
        self.view()
    }
}

/// The object it serializes to, tag included.
pub open spec fn senc_inline_query_result_document(m: InlineQueryResultDocumentView) -> JsonSpec {
    JsonSpec::Obj(Map::empty().insert("type"@, JsonSpec::Str("document"@)).insert("id"@, JsonSpec::Str(m.id)).insert("title"@, JsonSpec::Str(m.title)).insert("document_url"@, JsonSpec::Str(m.document_url)))
}

/// The value a tree decodes to.
pub open spec fn sdec_inline_query_result_document(j: JsonSpec) -> Result<InlineQueryResultDocumentView, DecodeErrorView> {
    match sreq_str(j, "id"@) {
        Err(e) => Err(e),
        Ok(id) => {
            match sreq_str(j, "title"@) {
                Err(e) => Err(e),
                Ok(title) => {
                    match sreq_str(j, "document_url"@) {
                        Err(e) => Err(e),
                        Ok(document_url) => {
                            Ok(InlineQueryResultDocumentView { id, title, document_url })
                        },
                    }
                },
            }
        },
    }
}

pub fn encode_inline_query_result_document(x: &InlineQueryResultDocument) -> (r: JsonValue)
    ensures
        r@ == senc_inline_query_result_document(x@),
{
    let mut pairs: Vec<(String, JsonValue)> = Vec::new();
    push_field(&mut pairs, "type", JsonValue::Str(String::from_str("document")));
    push_str_field(&mut pairs, "id", &x.id);
    push_str_field(&mut pairs, "title", &x.title);
    push_str_field(&mut pairs, "document_url", &x.document_url);
    JsonValue::Obj(pairs)
}

pub fn decode_inline_query_result_document(j: &JsonValue) -> (r: Result<InlineQueryResultDocument, DecodeError>)
    ensures
        res_view(r) == sdec_inline_query_result_document(j@),
{
    let id = match req_str(j, "id") {
        Ok(v) => v,
        Err(e) => {
            return Err(e);
        },
    };
    let title = match req_str(j, "title") {
        Ok(v) => v,
        Err(e) => {
            return Err(e);
        },
    };
    let document_url = match req_str(j, "document_url") {
        Ok(v) => v,
        Err(e) => {
            return Err(e);
        },
    };
    Ok(InlineQueryResultDocument { id, title, document_url })
}

/// Decoding undoes encoding, for every value.
pub proof fn lemma_inline_query_result_document_round_trip(m: InlineQueryResultDocumentView)
    ensures
        sdec_inline_query_result_document(senc_inline_query_result_document(m)) == Ok::<InlineQueryResultDocumentView, DecodeErrorView>(m),
{
    reveal_strlit("type");
    reveal_strlit("id");
    reveal_strlit("title");
    reveal_strlit("document_url");
    assert("type"@.len() == 4 && "id"@.len() == 2 && "title"@.len() == 5 && "document_url"@.len() == 12);
}

/// The tag key of the encoded member reads back as its own tag.
pub proof fn lemma_inline_query_result_document_tag(m: InlineQueryResultDocumentView)
    ensures
        sreq_str(senc_inline_query_result_document(m), "type"@) == Ok::<Seq<char>, DecodeErrorView>("document"@),
{
    reveal_strlit("type");
    reveal_strlit("id");
    reveal_strlit("title");
    reveal_strlit("document_url");
    reveal_strlit("document");
    assert("type"@.len() == 4 && "id"@.len() == 2 && "title"@.len() == 5 && "document_url"@.len() == 12);
}

} // verus!
