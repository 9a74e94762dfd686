use crate::api::enums::input_message_content::{
    decode_input_message_content, encode_input_message_content,
    lemma_input_message_content_round_trip, sdec_input_message_content,
    senc_input_message_content, InputMessageContent, InputMessageContentView,
};
use crate::errors::{DecodeError, DecodeErrorView};
use crate::json::{
    push_field, push_str_field, req_str, req_val, res_view, sreq_str, sreq_val, JsonSpec,
    JsonValue,
};
use vstd::prelude::*;
use vstd::string::StringExecFns;

verus! {

/// One kind of inline-query result, tagged `article` on the wire: a
/// link whose message content is spelled out explicitly.
#[derive(Debug, Clone, PartialEq)]
pub struct InlineQueryResultArticle {
    pub id: String,
    pub title: String,
    pub input_message_content: InputMessageContent,
}

/// Mathematical image of `InlineQueryResultArticle`.
#[verifier::ext_equal]
pub struct InlineQueryResultArticleView {
    pub id: Seq<char>,
    pub title: Seq<char>,
    pub input_message_content: InputMessageContentView,
}

impl View for InlineQueryResultArticle {
    type V = InlineQueryResultArticleView;

    open spec fn view(&self) -> InlineQueryResultArticleView {
        InlineQueryResultArticleView {
            id: self.id@,
            title: self.title@,
            input_message_content: self.input_message_content@,
        }
    }
}

impl DeepView for InlineQueryResultArticle {
    type V = InlineQueryResultArticleView;

    open spec fn deep_view(&self) -> InlineQueryResultArticleView {
        self.view()
    }
}

/// The object it serializes to, tag included.
pub open spec fn senc_inline_query_result_article(m: InlineQueryResultArticleView) -> JsonSpec {
    JsonSpec::Obj(
        Map::empty().insert("type"@, JsonSpec::Str("article"@)).insert(
            "id"@,
            JsonSpec::Str(m.id),
        ).insert("title"@, JsonSpec::Str(m.title)).insert(
            "input_message_content"@,
            senc_input_message_content(m.input_message_content),
        ),
    )
}

/// The value a tree decodes to.
pub open spec fn sdec_inline_query_result_article(j: JsonSpec) -> Result<
    InlineQueryResultArticleView,
    DecodeErrorView,
> {
    match sreq_str(j, "id"@) {
        Err(e) => Err(e),
        Ok(id) => match sreq_str(j, "title"@) {
            Err(e) => Err(e),
            Ok(title) => match sreq_val(j, "input_message_content"@) {
                Err(e) => Err(e),
                Ok(cj) => match sdec_input_message_content(cj) {
                    Err(e) => Err(e),
                    Ok(input_message_content) => Ok(
                        InlineQueryResultArticleView { id, title, input_message_content },
                    ),
                },
            },
        },
    }
}

pub fn encode_inline_query_result_article(x: &InlineQueryResultArticle) -> (r: JsonValue)
    ensures
        r@ == senc_inline_query_result_article(x@),
{
    let mut pairs: Vec<(String, JsonValue)> = Vec::new();
    push_field(&mut pairs, "type", JsonValue::Str(String::from_str("article")));
    push_str_field(&mut pairs, "id", &x.id);
    push_str_field(&mut pairs, "title", &x.title);
    push_field(
        &mut pairs,
        "input_message_content",
        encode_input_message_content(&x.input_message_content),
    );
    JsonValue::Obj(pairs)
}

pub fn decode_inline_query_result_article(j: &JsonValue) -> (r: Result<
    InlineQueryResultArticle,
    DecodeError,
>)
    ensures
        res_view(r) == sdec_inline_query_result_article(j@),
{
    let id = match req_str(j, "id") {
        Ok(v) => v,
        Err(e) => {
            return Err(e);
        },
    };
    let title = match req_str(j, "title") {
        Ok(v) => v,
        Err(e) => {
            return Err(e);
        },
    };
    let cj = match req_val(j, "input_message_content") {
        Ok(v) => v,
        Err(e) => {
            return Err(e);
        },
    };
    let input_message_content = match decode_input_message_content(cj) {
        Ok(v) => v,
        Err(e) => {
            return Err(e);
        },
    };
    Ok(InlineQueryResultArticle { id, title, input_message_content })
}

/// Decoding undoes encoding, for every article whose content is not the
/// venue member: a venue content resolves to the earlier-declared
/// location member instead.
pub proof fn lemma_inline_query_result_article_round_trip(m: InlineQueryResultArticleView)
    requires
        !(m.input_message_content is InputVenueMessageContent),
    ensures
        sdec_inline_query_result_article(senc_inline_query_result_article(m)) == Ok::<
            InlineQueryResultArticleView,
            DecodeErrorView,
        >(m),
{
    reveal_strlit("type");
    reveal_strlit("id");
    reveal_strlit("title");
    reveal_strlit("input_message_content");
    assert("type"@.len() == 4 && "id"@.len() == 2 && "title"@.len() == 5
        && "input_message_content"@.len() == 21);
    lemma_input_message_content_round_trip(m.input_message_content);
}

/// The tag key of the encoded member reads back as its own tag.
pub proof fn lemma_inline_query_result_article_tag(m: InlineQueryResultArticleView)
    ensures
        sreq_str(senc_inline_query_result_article(m), "type"@) == Ok::<Seq<char>, DecodeErrorView>(
            "article"@,
        ),
{
    reveal_strlit("type");
    reveal_strlit("id");
    reveal_strlit("title");
    reveal_strlit("input_message_content");
    reveal_strlit("article");
    assert("type"@.len() == 4 && "id"@.len() == 2 && "title"@.len() == 5
        && "input_message_content"@.len() == 21);
}

} // verus!
