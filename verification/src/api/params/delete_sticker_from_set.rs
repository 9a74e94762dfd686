use crate::json::{push_str_field, JsonSpec, JsonValue};
use vstd::prelude::*;

verus! {

/// Parameters for deleting a sticker from a set.
#[derive(Debug, Clone, PartialEq)]
pub struct DeleteStickerFromSet {
    pub sticker: String,
}

/// Mathematical image of `DeleteStickerFromSet`.
#[verifier::ext_equal]
pub struct DeleteStickerFromSetView {
    pub sticker: Seq<char>,
}

impl View for DeleteStickerFromSet {
    type V = DeleteStickerFromSetView;

    open spec fn view(&self) -> DeleteStickerFromSetView {
        DeleteStickerFromSetView { sticker: self.sticker@ }
    }
}

impl DeepView for DeleteStickerFromSet {
    type V = DeleteStickerFromSetView;

    open spec fn deep_view(&self) -> DeleteStickerFromSetView {
        self.view()
    }
}

/// The object the request serializes to.
pub open spec fn senc_delete_sticker_from_set(m: DeleteStickerFromSetView) -> JsonSpec {
    JsonSpec::Obj(Map::empty().insert("sticker"@, JsonSpec::Str(m.sticker)))
}

pub fn encode_delete_sticker_from_set(p: &DeleteStickerFromSet) -> (r: JsonValue)
    ensures
        r@ == senc_delete_sticker_from_set(p@),
{
    let mut pairs: Vec<(String, JsonValue)> = Vec::new();
    push_str_field(&mut pairs, "sticker", &p.sticker);
    JsonValue::Obj(pairs)
}

} // verus!
