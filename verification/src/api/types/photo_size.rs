use crate::errors::{DecodeError, DecodeErrorView};
use crate::json::{
    opt_i64, opt_i64_ins, push_i64_field, push_opt_i64_field, push_str_field, req_i64, req_str,
    res_view, sopt_i64, sreq_i64, sreq_str, JsonSpec, JsonValue,
};
use vstd::prelude::*;

verus! {

/// One size of a photo or thumbnail.
#[derive(Debug, Clone, PartialEq)]
pub struct PhotoSize {
    pub file_id: String,
    pub file_unique_id: String,
    pub width: i64,
    pub height: i64,
    pub file_size: Option<i64>,
}

/// Mathematical image of `PhotoSize`.
#[verifier::ext_equal]
pub struct PhotoSizeView {
    pub file_id: Seq<char>,
    pub file_unique_id: Seq<char>,
    pub width: i64,
    pub height: i64,
    pub file_size: Option<i64>,
}

impl View for PhotoSize {
    type V = PhotoSizeView;

    open spec fn view(&self) -> PhotoSizeView {
        PhotoSizeView {
            file_id: self.file_id@,
            file_unique_id: self.file_unique_id@,
            width: self.width,
            height: self.height,
            file_size: self.file_size,
        }
    }
}

impl DeepView for PhotoSize {
    type V = PhotoSizeView;

    open spec fn deep_view(&self) -> PhotoSizeView {
        self.view()
    }
}

/// The object a photo size serializes to; an absent size leaves no key.
pub open spec fn senc_photo_size(m: PhotoSizeView) -> JsonSpec {
    let o = Map::empty().insert("file_id"@, JsonSpec::Str(m.file_id)).insert(
        "file_unique_id"@,
        JsonSpec::Str(m.file_unique_id),
    ).insert("width"@, JsonSpec::Int(m.width as int)).insert(
        "height"@,
        JsonSpec::Int(m.height as int),
    );
    let o = opt_i64_ins(o, "file_size"@, m.file_size);
    JsonSpec::Obj(o)
}

/// The photo size a tree decodes to.
pub open spec fn sdec_photo_size(j: JsonSpec) -> Result<PhotoSizeView, DecodeErrorView> {
    match sreq_str(j, "file_id"@) {
        Err(e) => Err(e),
        Ok(file_id) => match sreq_str(j, "file_unique_id"@) {
            Err(e) => Err(e),
            Ok(file_unique_id) => match sreq_i64(j, "width"@) {
                Err(e) => Err(e),
                Ok(width) => match sreq_i64(j, "height"@) {
                    Err(e) => Err(e),
                    Ok(height) => match sopt_i64(j, "file_size"@) {
                        Err(e) => Err(e),
                        Ok(file_size) => Ok(
                            PhotoSizeView { file_id, file_unique_id, width, height, file_size },
                        ),
                    },
                },
            },
        },
    }
}

pub fn encode_photo_size(p: &PhotoSize) -> (r: JsonValue)
    ensures
        r@ == senc_photo_size(p@),
{
    let mut pairs: Vec<(String, JsonValue)> = Vec::new();
    push_str_field(&mut pairs, "file_id", &p.file_id);
    push_str_field(&mut pairs, "file_unique_id", &p.file_unique_id);
    push_i64_field(&mut pairs, "width", p.width);
    push_i64_field(&mut pairs, "height", p.height);
    push_opt_i64_field(&mut pairs, "file_size", &p.file_size);
    JsonValue::Obj(pairs)
}

pub fn decode_photo_size(j: &JsonValue) -> (r: Result<PhotoSize, DecodeError>)
    ensures
        res_view(r) == sdec_photo_size(j@),
{
    let file_id = match req_str(j, "file_id") {
        Ok(v) => v,
        Err(e) => {
            return Err(e);
        },
    };
    let file_unique_id = match req_str(j, "file_unique_id") {
        Ok(v) => v,
        Err(e) => {
            return Err(e);
        },
    };
    let width = match req_i64(j, "width") {
        Ok(v) => v,
        Err(e) => {
            return Err(e);
        },
    };
    let height = match req_i64(j, "height") {
        Ok(v) => v,
        Err(e) => {
            return Err(e);
        },
    };
    let file_size = match opt_i64(j, "file_size") {
        Ok(v) => v,
        Err(e) => {
            return Err(e);
        },
    };
    Ok(PhotoSize { file_id, file_unique_id, width, height, file_size })
}

/// Decoding undoes encoding, for every photo size.
pub proof fn lemma_photo_size_round_trip(m: PhotoSizeView)
    ensures
        sdec_photo_size(senc_photo_size(m)) == Ok::<PhotoSizeView, DecodeErrorView>(m),
{
    broadcast use crate::json::group_json_ins;

    reveal_strlit("file_id");
    reveal_strlit("file_unique_id");
    reveal_strlit("width");
    reveal_strlit("height");
    reveal_strlit("file_size");
    assert("file_id"@.len() == 7 && "file_unique_id"@.len() == 14 && "width"@.len() == 5
        && "height"@.len() == 6 && "file_size"@.len() == 9);
}

} // verus!
