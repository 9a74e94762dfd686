use crate::api::types::photo_size::{
    decode_photo_size, encode_photo_size, lemma_photo_size_round_trip, sdec_photo_size,
    senc_photo_size, PhotoSize, PhotoSizeView,
};
use crate::errors::{DecodeError, DecodeErrorView};
use crate::json::{
    opt_i64, opt_i64_ins, opt_str, opt_str_ins, opt_val, opt_val_ins, push_field,
    push_i64_field, push_opt_i64_field, push_opt_str_field, push_str_field, req_i64, req_str,
    res_view, sopt_i64, sopt_str, sopt_val, sreq_i64, sreq_str, JsonSpec, JsonValue,
};
use vstd::prelude::*;

verus! {

/// An audio file to be treated as music.
#[derive(Debug, Clone, PartialEq)]
pub struct Audio {
    pub file_id: String,
    pub file_unique_id: String,
    pub duration: i64,
    pub performer: Option<String>,
    pub title: Option<String>,
    pub file_name: Option<String>,
    pub mime_type: Option<String>,
    pub file_size: Option<i64>,
    pub thumbnail: Option<PhotoSize>,
}

/// Mathematical image of `Audio`.
#[verifier::ext_equal]
pub struct AudioView {
    pub file_id: Seq<char>,
    pub file_unique_id: Seq<char>,
    pub duration: i64,
    pub performer: Option<Seq<char>>,
    pub title: Option<Seq<char>>,
    pub file_name: Option<Seq<char>>,
    pub mime_type: Option<Seq<char>>,
    pub file_size: Option<i64>,
    pub thumbnail: Option<PhotoSizeView>,
}

impl View for Audio {
    type V = AudioView;

    open spec fn view(&self) -> AudioView {
        AudioView {
            file_id: self.file_id@,
            file_unique_id: self.file_unique_id@,
            duration: self.duration,
            performer: self.performer.deep_view(),
            title: self.title.deep_view(),
            file_name: self.file_name.deep_view(),
            mime_type: self.mime_type.deep_view(),
            file_size: self.file_size,
            thumbnail: self.thumbnail.deep_view(),
        }
    }
}

impl DeepView for Audio {
    type V = AudioView;

    open spec fn deep_view(&self) -> AudioView {
        self.view()
    }
}

/// The object an audio serializes to; absent optionals leave no key.
pub open spec fn senc_audio(m: AudioView) -> JsonSpec {
    let o = Map::empty().insert("file_id"@, JsonSpec::Str(m.file_id)).insert(
        "file_unique_id"@,
        JsonSpec::Str(m.file_unique_id),
    ).insert("duration"@, JsonSpec::Int(m.duration as int));
    let o = opt_str_ins(o, "performer"@, m.performer);
    let o = opt_str_ins(o, "title"@, m.title);
    let o = opt_str_ins(o, "file_name"@, m.file_name);
    let o = opt_str_ins(o, "mime_type"@, m.mime_type);
    let o = opt_i64_ins(o, "file_size"@, m.file_size);
    let o = opt_val_ins(
        o,
        "thumbnail"@,
        match m.thumbnail {
            Some(t) => Some(senc_photo_size(t)),
            None => None,
        },
    );
    JsonSpec::Obj(o)
}

/// The audio a tree decodes to.
pub open spec fn sdec_audio(j: JsonSpec) -> Result<AudioView, DecodeErrorView> {
    match sreq_str(j, "file_id"@) {
        Err(e) => Err(e),
        Ok(file_id) => match sreq_str(j, "file_unique_id"@) {
            Err(e) => Err(e),
            Ok(file_unique_id) => match sreq_i64(j, "duration"@) {
                Err(e) => Err(e),
                Ok(duration) => match sopt_str(j, "performer"@) {
                    Err(e) => Err(e),
                    Ok(performer) => match sopt_str(j, "title"@) {
                        Err(e) => Err(e),
                        Ok(title) => match sopt_str(j, "file_name"@) {
                            Err(e) => Err(e),
                            Ok(file_name) => match sopt_str(j, "mime_type"@) {
                                Err(e) => Err(e),
                                Ok(mime_type) => match sopt_i64(j, "file_size"@) {
                                    Err(e) => Err(e),
                                    Ok(file_size) => match sopt_val(j, "thumbnail"@) {
                                        Err(e) => Err(e),
                                        Ok(None) => Ok(
                                            AudioView {
                                                file_id,
                                                file_unique_id,
                                                duration,
                                                performer,
                                                title,
                                                file_name,
                                                mime_type,
                                                file_size,
                                                thumbnail: None,
                                            },
                                        ),
                                        Ok(Some(tj)) => match sdec_photo_size(tj) {
                                            Err(e) => Err(e),
                                            Ok(t) => Ok(
                                                AudioView {
                                                    file_id,
                                                    file_unique_id,
                                                    duration,
                                                    performer,
                                                    title,
                                                    file_name,
                                                    mime_type,
                                                    file_size,
                                                    thumbnail: Some(t),
                                                },
                                            ),
                                        },
                                    },
                                },
                            },
                        },
                    },
                },
            },
        },
    }
}

pub fn encode_audio(a: &Audio) -> (r: JsonValue)
    ensures
        r@ == senc_audio(a@),
{
    proof {
        reveal(crate::json::opt_val_ins);
    }
    let mut pairs: Vec<(String, JsonValue)> = Vec::new();
    push_str_field(&mut pairs, "file_id", &a.file_id);
    push_str_field(&mut pairs, "file_unique_id", &a.file_unique_id);
    push_i64_field(&mut pairs, "duration", a.duration);
    push_opt_str_field(&mut pairs, "performer", &a.performer);
    push_opt_str_field(&mut pairs, "title", &a.title);
    push_opt_str_field(&mut pairs, "file_name", &a.file_name);
    push_opt_str_field(&mut pairs, "mime_type", &a.mime_type);
    push_opt_i64_field(&mut pairs, "file_size", &a.file_size);
    match &a.thumbnail {
        Some(t) => push_field(&mut pairs, "thumbnail", encode_photo_size(t)),
        None => (),
    }
    JsonValue::Obj(pairs)
}

pub fn decode_audio(j: &JsonValue) -> (r: Result<Audio, DecodeError>)
    ensures
        res_view(r) == sdec_audio(j@),
{
    let file_id = match req_str(j, "file_id") {
        Ok(v) => v,
        Err(e) => {
            return Err(e);
        },
    };
    let file_unique_id = match req_str(j, "file_unique_id") {
        Ok(v) => v,
        Err(e) => {
            return Err(e);
        },
    };
    let duration = match req_i64(j, "duration") {
        Ok(v) => v,
        Err(e) => {
            return Err(e);
        },
    };
    let performer = match opt_str(j, "performer") {
        Ok(v) => v,
        Err(e) => {
            return Err(e);
        },
    };
    let title = match opt_str(j, "title") {
        Ok(v) => v,
        Err(e) => {
            return Err(e);
        },
    };
    let file_name = match opt_str(j, "file_name") {
        Ok(v) => v,
        Err(e) => {
            return Err(e);
        },
    };
    let mime_type = match opt_str(j, "mime_type") {
        Ok(v) => v,
        Err(e) => {
            return Err(e);
        },
    };
    let file_size = match opt_i64(j, "file_size") {
        Ok(v) => v,
        Err(e) => {
            return Err(e);
        },
    };
    let thumbnail = match opt_val(j, "thumbnail") {
        Ok(None) => None,
        Ok(Some(tj)) => match decode_photo_size(tj) {
            Ok(t) => Some(t),
            Err(e) => {
                return Err(e);
            },
        },
        Err(e) => {
            return Err(e);
        },
    };
    Ok(
        Audio {
            file_id,
            file_unique_id,
            duration,
            performer,
            title,
            file_name,
            mime_type,
            file_size,
            thumbnail,
        },
    )
}

/// Decoding undoes encoding, for every audio value.
pub proof fn lemma_audio_round_trip(m: AudioView)
    ensures
        sdec_audio(senc_audio(m)) == Ok::<AudioView, DecodeErrorView>(m),
{
    broadcast use crate::json::group_json_ins;

    reveal_strlit("file_id");
    reveal_strlit("file_unique_id");
    reveal_strlit("duration");
    reveal_strlit("performer");
    reveal_strlit("title");
    reveal_strlit("file_name");
    reveal_strlit("mime_type");
    reveal_strlit("file_size");
    reveal_strlit("thumbnail");
    assert("file_id"@.len() == 7 && "file_unique_id"@.len() == 14 && "duration"@.len() == 8
        && "title"@.len() == 5);
    assert("performer"@.len() == 9 && "file_name"@.len() == 9 && "mime_type"@.len() == 9
        && "file_size"@.len() == 9 && "thumbnail"@.len() == 9);
    assert("performer"@[0] == 'p' && "file_name"@[0] == 'f' && "mime_type"@[0] == 'm'
        && "file_size"@[0] == 'f' && "thumbnail"@[0] == 't');
    assert("file_name"@[5] == 'n' && "file_size"@[5] == 's');
    match m.thumbnail {
        Some(t) => lemma_photo_size_round_trip(t),
        None => (),
    }
}

} // verus!
