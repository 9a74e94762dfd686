use crate::errors::{DecodeError, DecodeErrorView};
use crate::json::{
    JsonSpec, JsonValue, push_field, push_str_field, req_str, res_view, sreq_str,
};
use vstd::prelude::*;
use vstd::string::StringExecFns;

verus! {

/// One kind of inline-query result, tagged `document` on the wire.
#[derive(Debug, Clone, PartialEq)]
pub struct InlineQueryResultCachedDocument {
    pub id: String,
    pub title: String,
    pub document_file_id: String,
}

/// Mathematical image of `InlineQueryResultCachedDocument`.
#[verifier::ext_equal]
pub struct InlineQueryResultCachedDocumentView {
    pub id: Seq<char>,
    pub title: Seq<char>,
    pub document_file_id: Seq<char>,
}

impl View for InlineQueryResultCachedDocument {
    type V = InlineQueryResultCachedDocumentView;

    open spec fn view(&self) -> InlineQueryResultCachedDocumentView {
        InlineQueryResultCachedDocumentView {
            id: self.id@,
            title: self.title@,
            document_file_id: self.document_file_id@,
        }
    }
}

impl DeepView for InlineQueryResultCachedDocument {
    type V = InlineQueryResultCachedDocumentView;

    open spec fn deep_view(&self) -> InlineQueryResultCachedDocumentView {
        self.view()
    }
}

/// The object it serializes to, tag included.
pub open spec fn senc_inline_query_result_cached_document(m: InlineQueryResultCachedDocumentView) -> JsonSpec {
    JsonSpec::Obj(Map::empty().insert("type"@, JsonSpec::Str("document"@)).insert("id"@, JsonSpec::Str(m.id)).insert("title"@, JsonSpec::Str(m.title)).insert("document_file_id"@, JsonSpec::Str(m.document_file_id)))
}

/// The value a tree decodes to.
pub open spec fn sdec_inline_query_result_cached_document(j: JsonSpec) -> Result<InlineQueryResultCachedDocumentView, DecodeErrorView> {
    match sreq_str(j, "id"@) {
        Err(e) => Err(e),
        Ok(id) => {
            match sreq_str(j, "title"@) {
                Err(e) => Err(e),
                Ok(title) => {
                    match sreq_str(j, "document_file_id"@) {
                        Err(e) => Err(e),
                        Ok(document_file_id) => {
                            Ok(InlineQueryResultCachedDocumentView { id, title, document_file_id })
                        },
                    }
                },
            }
        },
    }
}

pub fn encode_inline_query_result_cached_document(x: &InlineQueryResultCachedDocument) -> (r: JsonValue)
    ensures
        r@ == senc_inline_query_result_cached_document(x@),
{
    let mut pairs: Vec<(String, JsonValue)> = Vec::new();
    push_field(&mut pairs, "type", JsonValue::Str(String::from_str("document")));
    push_str_field(&mut pairs, "id", &x.id);
    push_str_field(&mut pairs, "title", &x.title);
    push_str_field(&mut pairs, "document_file_id", &x.document_file_id);
    JsonValue::Obj(pairs)
}

pub fn decode_inline_query_result_cached_document(j: &JsonValue) -> (r: Result<InlineQueryResultCachedDocument, DecodeError>)
    ensures
        res_view(r) == sdec_inline_query_result_cached_document(j@),
{
    let id = match req_str(j, "id") {
        Ok(v) => v,
        Err(e) => {
            return Err(e);
        },
    };
    let title = match req_str(j, "title") {
        Ok(v) => v,
        Err(e) => {
            return Err(e);
        },
    };
    let document_file_id = match req_str(j, "document_file_id") {
        Ok(v) => v,
        Err(e) => {
            return Err(e);
        },
    };
    Ok(InlineQueryResultCachedDocument { id, title, document_file_id })
}

/// Decoding undoes encoding, for every value.
pub proof fn lemma_inline_query_result_cached_document_round_trip(m: InlineQueryResultCachedDocumentView)
    ensures
        sdec_inline_query_result_cached_document(senc_inline_query_result_cached_document(m)) == Ok::<InlineQueryResultCachedDocumentView, DecodeErrorView>(m),
{
    reveal_strlit("type");
    reveal_strlit("id");
    reveal_strlit("title");
    reveal_strlit("document_file_id");
    assert("type"@.len() == 4 && "id"@.len() == 2 && "title"@.len() == 5 && "document_file_id"@.len() == 16);
}

/// The tag key of the encoded member reads back as its own tag.
pub proof fn lemma_inline_query_result_cached_document_tag(m: InlineQueryResultCachedDocumentView)
    ensures
        sreq_str(senc_inline_query_result_cached_document(m), "type"@) == Ok::<Seq<char>, DecodeErrorView>("document"@),
{
    reveal_strlit("type");
    reveal_strlit("id");
    reveal_strlit("title");
    reveal_strlit("document_file_id");
    reveal_strlit("document");
    assert("type"@.len() == 4 && "id"@.len() == 2 && "title"@.len() == 5 && "document_file_id"@.len() == 16);
}

} // verus!
