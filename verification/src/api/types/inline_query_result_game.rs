use crate::errors::{DecodeError, DecodeErrorView};
use crate::json::{
    JsonSpec, JsonValue, push_field, push_str_field, req_str, res_view, sreq_str,
};
use vstd::prelude::*;
use vstd::string::StringExecFns;

verus! {

/// One kind of inline-query result, tagged `game` on the wire.
#[derive(Debug, Clone, PartialEq)]
pub struct InlineQueryResultGame {
    pub id: String,
    pub game_short_name: String,
}

/// Mathematical image of `InlineQueryResultGame`.
#[verifier::ext_equal]
pub struct InlineQueryResultGameView {
    pub id: Seq<char>,
    pub game_short_name: Seq<char>,
}

impl View for InlineQueryResultGame {
    type V = InlineQueryResultGameView;

    open spec fn view(&self) -> InlineQueryResultGameView {
        InlineQueryResultGameView {
            id: self.id@,
            game_short_name: self.game_short_name@,
        }
    }
}

impl DeepView for InlineQueryResultGame {
    type V = InlineQueryResultGameView;

    open spec fn deep_view(&self) -> InlineQueryResultGameView {
        self.view()
    }
}

/// The object it serializes to, tag included.
pub open spec fn senc_inline_query_result_game(m: InlineQueryResultGameView) -> JsonSpec {
    JsonSpec::Obj(Map::empty().insert("type"@, JsonSpec::Str("game"@)).insert("id"@, JsonSpec::Str(m.id)).insert("game_short_name"@, JsonSpec::Str(m.game_short_name)))
}

/// The value a tree decodes to.
pub open spec fn sdec_inline_query_result_game(j: JsonSpec) -> Result<InlineQueryResultGameView, DecodeErrorView> {
    match sreq_str(j, "id"@) {
        Err(e) => Err(e),
        Ok(id) => {
            match sreq_str(j, "game_short_name"@) {
                Err(e) => Err(e),
                Ok(game_short_name) => {
                    Ok(InlineQueryResultGameView { id, game_short_name })
                },
            }
        },
    }
}

pub fn encode_inline_query_result_game(x: &InlineQueryResultGame) -> (r: JsonValue)
    ensures
        r@ == senc_inline_query_result_game(x@),
{
    let mut pairs: Vec<(String, JsonValue)> = Vec::new();
    push_field(&mut pairs, "type", JsonValue::Str(String::from_str("game")));
    push_str_field(&mut pairs, "id", &x.id);
    push_str_field(&mut pairs, "game_short_name", &x.game_short_name);
    JsonValue::Obj(pairs)
}

pub fn decode_inline_query_result_game(j: &JsonValue) -> (r: Result<InlineQueryResultGame, DecodeError>)
    ensures
        res_view(r) == sdec_inline_query_result_game(j@),
{
    let id = match req_str(j, "id") {
        Ok(v) => v,
        Err(e) => {
            return Err(e);
        },
    };
    let game_short_name = match req_str(j, "game_short_name") {
        Ok(v) => v,
        Err(e) => {
            return Err(e);
        },
    };
    Ok(InlineQueryResultGame { id, game_short_name })
}

/// Decoding undoes encoding, for every value.
pub proof fn lemma_inline_query_result_game_round_trip(m: InlineQueryResultGameView)
    ensures
        sdec_inline_query_result_game(senc_inline_query_result_game(m)) == Ok::<InlineQueryResultGameView, DecodeErrorView>(m),
{
    reveal_strlit("type");
    reveal_strlit("id");
    reveal_strlit("game_short_name");
    assert("type"@.len() == 4 && "id"@.len() == 2 && "game_short_name"@.len() == 15);
}

/// The tag key of the encoded member reads back as its own tag.
pub proof fn lemma_inline_query_result_game_tag(m: InlineQueryResultGameView)
    ensures
        sreq_str(senc_inline_query_result_game(m), "type"@) == Ok::<Seq<char>, DecodeErrorView>("game"@),
{
    reveal_strlit("type");
    reveal_strlit("id");
    reveal_strlit("game_short_name");
    reveal_strlit("game");
    assert("type"@.len() == 4 && "id"@.len() == 2 && "game_short_name"@.len() == 15);
}

} // verus!
