use crate::api::types::inline_query_result_cached_audio::{
    decode_inline_query_result_cached_audio,
    encode_inline_query_result_cached_audio,
    lemma_inline_query_result_cached_audio_round_trip,
    lemma_inline_query_result_cached_audio_tag,
    sdec_inline_query_result_cached_audio,
    senc_inline_query_result_cached_audio,
    InlineQueryResultCachedAudio,
    InlineQueryResultCachedAudioView,
};
use crate::api::types::inline_query_result_cached_document::{
    decode_inline_query_result_cached_document,
    encode_inline_query_result_cached_document,
    lemma_inline_query_result_cached_document_round_trip,
    lemma_inline_query_result_cached_document_tag,
    sdec_inline_query_result_cached_document,
    senc_inline_query_result_cached_document,
    InlineQueryResultCachedDocument,
    InlineQueryResultCachedDocumentView,
};
use crate::api::types::inline_query_result_cached_gif::{
    decode_inline_query_result_cached_gif,
    encode_inline_query_result_cached_gif,
    lemma_inline_query_result_cached_gif_round_trip,
    lemma_inline_query_result_cached_gif_tag,
    sdec_inline_query_result_cached_gif,
    senc_inline_query_result_cached_gif,
    InlineQueryResultCachedGif,
    InlineQueryResultCachedGifView,
};
use crate::api::types::inline_query_result_cached_mpeg4_gif::{
    decode_inline_query_result_cached_mpeg4_gif,
    encode_inline_query_result_cached_mpeg4_gif,
    lemma_inline_query_result_cached_mpeg4_gif_round_trip,
    lemma_inline_query_result_cached_mpeg4_gif_tag,
    sdec_inline_query_result_cached_mpeg4_gif,
    senc_inline_query_result_cached_mpeg4_gif,
    InlineQueryResultCachedMpeg4Gif,
    InlineQueryResultCachedMpeg4GifView,
};
use crate::api::types::inline_query_result_cached_photo::{
    decode_inline_query_result_cached_photo,
    encode_inline_query_result_cached_photo,
    lemma_inline_query_result_cached_photo_round_trip,
    lemma_inline_query_result_cached_photo_tag,
    sdec_inline_query_result_cached_photo,
    senc_inline_query_result_cached_photo,
    InlineQueryResultCachedPhoto,
    InlineQueryResultCachedPhotoView,
};
use crate::api::types::inline_query_result_cached_sticker::{
    decode_inline_query_result_cached_sticker,
    encode_inline_query_result_cached_sticker,
    lemma_inline_query_result_cached_sticker_round_trip,
    lemma_inline_query_result_cached_sticker_tag,
    sdec_inline_query_result_cached_sticker,
    senc_inline_query_result_cached_sticker,
    InlineQueryResultCachedSticker,
    InlineQueryResultCachedStickerView,
};
use crate::api::types::inline_query_result_cached_video::{
    decode_inline_query_result_cached_video,
    encode_inline_query_result_cached_video,
    lemma_inline_query_result_cached_video_round_trip,
    lemma_inline_query_result_cached_video_tag,
    sdec_inline_query_result_cached_video,
    senc_inline_query_result_cached_video,
    InlineQueryResultCachedVideo,
    InlineQueryResultCachedVideoView,
};
use crate::api::types::inline_query_result_cached_voice::{
    decode_inline_query_result_cached_voice,
    encode_inline_query_result_cached_voice,
    lemma_inline_query_result_cached_voice_round_trip,
    lemma_inline_query_result_cached_voice_tag,
    sdec_inline_query_result_cached_voice,
    senc_inline_query_result_cached_voice,
    InlineQueryResultCachedVoice,
    InlineQueryResultCachedVoiceView,
};
use crate::api::types::inline_query_result_article::{
    decode_inline_query_result_article,
    encode_inline_query_result_article,
    lemma_inline_query_result_article_round_trip,
    lemma_inline_query_result_article_tag,
    sdec_inline_query_result_article,
    senc_inline_query_result_article,
    InlineQueryResultArticle,
    InlineQueryResultArticleView,
};
use crate::api::types::inline_query_result_audio::{
    decode_inline_query_result_audio,
    encode_inline_query_result_audio,
    lemma_inline_query_result_audio_round_trip,
    lemma_inline_query_result_audio_tag,
    sdec_inline_query_result_audio,
    senc_inline_query_result_audio,
    InlineQueryResultAudio,
    InlineQueryResultAudioView,
};
use crate::api::types::inline_query_result_contact::{
    decode_inline_query_result_contact,
    encode_inline_query_result_contact,
    lemma_inline_query_result_contact_round_trip,
    lemma_inline_query_result_contact_tag,
    sdec_inline_query_result_contact,
    senc_inline_query_result_contact,
    InlineQueryResultContact,
    InlineQueryResultContactView,
};
use crate::api::types::inline_query_result_game::{
    decode_inline_query_result_game,
    encode_inline_query_result_game,
    lemma_inline_query_result_game_round_trip,
    lemma_inline_query_result_game_tag,
    sdec_inline_query_result_game,
    senc_inline_query_result_game,
    InlineQueryResultGame,
    InlineQueryResultGameView,
};
use crate::api::types::inline_query_result_document::{
    decode_inline_query_result_document,
    encode_inline_query_result_document,
    lemma_inline_query_result_document_round_trip,
    lemma_inline_query_result_document_tag,
    sdec_inline_query_result_document,
    senc_inline_query_result_document,
    InlineQueryResultDocument,
    InlineQueryResultDocumentView,
};
use crate::api::types::inline_query_result_gif::{
    decode_inline_query_result_gif,
    encode_inline_query_result_gif,
    lemma_inline_query_result_gif_round_trip,
    lemma_inline_query_result_gif_tag,
    sdec_inline_query_result_gif,
    senc_inline_query_result_gif,
    InlineQueryResultGif,
    InlineQueryResultGifView,
};
use crate::api::types::inline_query_result_location::{
    decode_inline_query_result_location,
    encode_inline_query_result_location,
    lemma_inline_query_result_location_round_trip,
    lemma_inline_query_result_location_tag,
    sdec_inline_query_result_location,
    senc_inline_query_result_location,
    InlineQueryResultLocation,
    InlineQueryResultLocationView,
};
use crate::api::types::inline_query_result_mpeg4_gif::{
    decode_inline_query_result_mpeg4_gif,
    encode_inline_query_result_mpeg4_gif,
    lemma_inline_query_result_mpeg4_gif_round_trip,
    lemma_inline_query_result_mpeg4_gif_tag,
    sdec_inline_query_result_mpeg4_gif,
    senc_inline_query_result_mpeg4_gif,
    InlineQueryResultMpeg4Gif,
    InlineQueryResultMpeg4GifView,
};
use crate::api::types::inline_query_result_photo::{
    decode_inline_query_result_photo,
    encode_inline_query_result_photo,
    lemma_inline_query_result_photo_round_trip,
    lemma_inline_query_result_photo_tag,
    sdec_inline_query_result_photo,
    senc_inline_query_result_photo,
    InlineQueryResultPhoto,
    InlineQueryResultPhotoView,
};
use crate::api::types::inline_query_result_venue::{
    decode_inline_query_result_venue,
    encode_inline_query_result_venue,
    lemma_inline_query_result_venue_round_trip,
    lemma_inline_query_result_venue_tag,
    sdec_inline_query_result_venue,
    senc_inline_query_result_venue,
    InlineQueryResultVenue,
    InlineQueryResultVenueView,
};
use crate::api::types::inline_query_result_video::{
    decode_inline_query_result_video,
    encode_inline_query_result_video,
    lemma_inline_query_result_video_round_trip,
    lemma_inline_query_result_video_tag,
    sdec_inline_query_result_video,
    senc_inline_query_result_video,
    InlineQueryResultVideo,
    InlineQueryResultVideoView,
};
use crate::api::types::inline_query_result_voice::{
    decode_inline_query_result_voice,
    encode_inline_query_result_voice,
    lemma_inline_query_result_voice_round_trip,
    lemma_inline_query_result_voice_tag,
    sdec_inline_query_result_voice,
    senc_inline_query_result_voice,
    InlineQueryResultVoice,
    InlineQueryResultVoiceView,
};
use crate::errors::{DecodeError, DecodeErrorView};
use crate::json::{req_str, res_view, sget, sreq_str, JsonSpec, JsonValue};
use vstd::prelude::*;
use vstd::string::StringExecFns;

verus! {

/// One result of an inline query: a closed family resolved by the
/// literal `type` tag. Seven tags name two members each, a cached one
/// and a fresh one; for those, the cached member is declared first and
/// is tried first, so it wins on a payload satisfying both.
#[derive(Debug, Clone, PartialEq)]
pub enum InlineQueryResult {
    InlineQueryResultCachedAudio(InlineQueryResultCachedAudio),
    InlineQueryResultCachedDocument(InlineQueryResultCachedDocument),
    InlineQueryResultCachedGif(InlineQueryResultCachedGif),
    InlineQueryResultCachedMpeg4Gif(InlineQueryResultCachedMpeg4Gif),
    InlineQueryResultCachedPhoto(InlineQueryResultCachedPhoto),
    InlineQueryResultCachedSticker(InlineQueryResultCachedSticker),
    InlineQueryResultCachedVideo(InlineQueryResultCachedVideo),
    InlineQueryResultCachedVoice(InlineQueryResultCachedVoice),
    InlineQueryResultArticle(InlineQueryResultArticle),
    InlineQueryResultAudio(InlineQueryResultAudio),
    InlineQueryResultContact(InlineQueryResultContact),
    InlineQueryResultGame(InlineQueryResultGame),
    InlineQueryResultDocument(InlineQueryResultDocument),
    InlineQueryResultGif(InlineQueryResultGif),
    InlineQueryResultLocation(InlineQueryResultLocation),
    InlineQueryResultMpeg4Gif(InlineQueryResultMpeg4Gif),
    InlineQueryResultPhoto(InlineQueryResultPhoto),
    InlineQueryResultVenue(InlineQueryResultVenue),
    InlineQueryResultVideo(InlineQueryResultVideo),
    InlineQueryResultVoice(InlineQueryResultVoice),
}

/// Mathematical image of `InlineQueryResult`.
#[verifier::ext_equal]
pub enum InlineQueryResultView {
    InlineQueryResultCachedAudio(InlineQueryResultCachedAudioView),
    InlineQueryResultCachedDocument(InlineQueryResultCachedDocumentView),
    InlineQueryResultCachedGif(InlineQueryResultCachedGifView),
    InlineQueryResultCachedMpeg4Gif(InlineQueryResultCachedMpeg4GifView),
    InlineQueryResultCachedPhoto(InlineQueryResultCachedPhotoView),
    InlineQueryResultCachedSticker(InlineQueryResultCachedStickerView),
    InlineQueryResultCachedVideo(InlineQueryResultCachedVideoView),
    InlineQueryResultCachedVoice(InlineQueryResultCachedVoiceView),
    InlineQueryResultArticle(InlineQueryResultArticleView),
    InlineQueryResultAudio(InlineQueryResultAudioView),
    InlineQueryResultContact(InlineQueryResultContactView),
    InlineQueryResultGame(InlineQueryResultGameView),
    InlineQueryResultDocument(InlineQueryResultDocumentView),
    InlineQueryResultGif(InlineQueryResultGifView),
    InlineQueryResultLocation(InlineQueryResultLocationView),
    InlineQueryResultMpeg4Gif(InlineQueryResultMpeg4GifView),
    InlineQueryResultPhoto(InlineQueryResultPhotoView),
    InlineQueryResultVenue(InlineQueryResultVenueView),
    InlineQueryResultVideo(InlineQueryResultVideoView),
    InlineQueryResultVoice(InlineQueryResultVoiceView),
}

impl View for InlineQueryResult {
    type V = InlineQueryResultView;

    open spec fn view(&self) -> InlineQueryResultView {
        match self {
            InlineQueryResult::InlineQueryResultCachedAudio(v) => {
                InlineQueryResultView::InlineQueryResultCachedAudio(v@)
            },
            InlineQueryResult::InlineQueryResultCachedDocument(v) => {
                InlineQueryResultView::InlineQueryResultCachedDocument(v@)
            },
            InlineQueryResult::InlineQueryResultCachedGif(v) => {
                InlineQueryResultView::InlineQueryResultCachedGif(v@)
            },
            InlineQueryResult::InlineQueryResultCachedMpeg4Gif(v) => {
                InlineQueryResultView::InlineQueryResultCachedMpeg4Gif(v@)
            },
            InlineQueryResult::InlineQueryResultCachedPhoto(v) => {
                InlineQueryResultView::InlineQueryResultCachedPhoto(v@)
            },
            InlineQueryResult::InlineQueryResultCachedSticker(v) => {
                InlineQueryResultView::InlineQueryResultCachedSticker(v@)
            },
            InlineQueryResult::InlineQueryResultCachedVideo(v) => {
                InlineQueryResultView::InlineQueryResultCachedVideo(v@)
            },
            InlineQueryResult::InlineQueryResultCachedVoice(v) => {
                InlineQueryResultView::InlineQueryResultCachedVoice(v@)
            },
            InlineQueryResult::InlineQueryResultArticle(v) => {
                InlineQueryResultView::InlineQueryResultArticle(v@)
            },
            InlineQueryResult::InlineQueryResultAudio(v) => {
                InlineQueryResultView::InlineQueryResultAudio(v@)
            },
            InlineQueryResult::InlineQueryResultContact(v) => {
                InlineQueryResultView::InlineQueryResultContact(v@)
            },
            InlineQueryResult::InlineQueryResultGame(v) => {
                InlineQueryResultView::InlineQueryResultGame(v@)
            },
            InlineQueryResult::InlineQueryResultDocument(v) => {
                InlineQueryResultView::InlineQueryResultDocument(v@)
            },
            InlineQueryResult::InlineQueryResultGif(v) => {
                InlineQueryResultView::InlineQueryResultGif(v@)
            },
            InlineQueryResult::InlineQueryResultLocation(v) => {
                InlineQueryResultView::InlineQueryResultLocation(v@)
            },
            InlineQueryResult::InlineQueryResultMpeg4Gif(v) => {
                InlineQueryResultView::InlineQueryResultMpeg4Gif(v@)
            },
            InlineQueryResult::InlineQueryResultPhoto(v) => {
                InlineQueryResultView::InlineQueryResultPhoto(v@)
            },
            InlineQueryResult::InlineQueryResultVenue(v) => {
                InlineQueryResultView::InlineQueryResultVenue(v@)
            },
            InlineQueryResult::InlineQueryResultVideo(v) => {
                InlineQueryResultView::InlineQueryResultVideo(v@)
            },
            InlineQueryResult::InlineQueryResultVoice(v) => {
                InlineQueryResultView::InlineQueryResultVoice(v@)
            },
        }
    }
}

impl DeepView for InlineQueryResult {
    type V = InlineQueryResultView;

    open spec fn deep_view(&self) -> InlineQueryResultView {
        self.view()
    }
}

/// The member a result serializes as.
pub open spec fn senc_inline_query_result(m: InlineQueryResultView) -> JsonSpec {
    match m {
        InlineQueryResultView::InlineQueryResultCachedAudio(v) => senc_inline_query_result_cached_audio(v),
        InlineQueryResultView::InlineQueryResultCachedDocument(v) => senc_inline_query_result_cached_document(v),
        InlineQueryResultView::InlineQueryResultCachedGif(v) => senc_inline_query_result_cached_gif(v),
        InlineQueryResultView::InlineQueryResultCachedMpeg4Gif(v) => senc_inline_query_result_cached_mpeg4_gif(v),
        InlineQueryResultView::InlineQueryResultCachedPhoto(v) => senc_inline_query_result_cached_photo(v),
        InlineQueryResultView::InlineQueryResultCachedSticker(v) => senc_inline_query_result_cached_sticker(v),
        InlineQueryResultView::InlineQueryResultCachedVideo(v) => senc_inline_query_result_cached_video(v),
        InlineQueryResultView::InlineQueryResultCachedVoice(v) => senc_inline_query_result_cached_voice(v),
        InlineQueryResultView::InlineQueryResultArticle(v) => senc_inline_query_result_article(v),
        InlineQueryResultView::InlineQueryResultAudio(v) => senc_inline_query_result_audio(v),
        InlineQueryResultView::InlineQueryResultContact(v) => senc_inline_query_result_contact(v),
        InlineQueryResultView::InlineQueryResultGame(v) => senc_inline_query_result_game(v),
        InlineQueryResultView::InlineQueryResultDocument(v) => senc_inline_query_result_document(v),
        InlineQueryResultView::InlineQueryResultGif(v) => senc_inline_query_result_gif(v),
        InlineQueryResultView::InlineQueryResultLocation(v) => senc_inline_query_result_location(v),
        InlineQueryResultView::InlineQueryResultMpeg4Gif(v) => senc_inline_query_result_mpeg4_gif(v),
        InlineQueryResultView::InlineQueryResultPhoto(v) => senc_inline_query_result_photo(v),
        InlineQueryResultView::InlineQueryResultVenue(v) => senc_inline_query_result_venue(v),
        InlineQueryResultView::InlineQueryResultVideo(v) => senc_inline_query_result_video(v),
        InlineQueryResultView::InlineQueryResultVoice(v) => senc_inline_query_result_voice(v),
    }
}

/// Resolves a result payload: the tag selects its candidates from the
/// closed table; candidates are tried in declared order and the first
/// that decodes wins. An unknown tag is an error naming the family and
/// the tag; a known tag whose candidates all fail is an error naming
/// the family.
pub open spec fn sdec_inline_query_result(j: JsonSpec) -> Result<
    InlineQueryResultView,
    DecodeErrorView,
> {
    match sreq_str(j, "type"@) {
        Err(e) => Err(e),
        Ok(tag) => if tag == "article"@ {
            match sdec_inline_query_result_article(j) {
                Err(e) => Err(e),
                Ok(v) => Ok(InlineQueryResultView::InlineQueryResultArticle(v)),
            }
        } else if tag == "audio"@ {
            match sdec_inline_query_result_cached_audio(j) {
                Ok(v) => Ok(InlineQueryResultView::InlineQueryResultCachedAudio(v)),
                Err(_) => match sdec_inline_query_result_audio(j) {
                    Ok(v) => Ok(InlineQueryResultView::InlineQueryResultAudio(v)),
                    Err(_) => Err(
                        DecodeErrorView::NoVariantMatch { family: "InlineQueryResult"@ },
                    ),
                },
            }
        } else if tag == "contact"@ {
            match sdec_inline_query_result_contact(j) {
                Err(e) => Err(e),
                Ok(v) => Ok(InlineQueryResultView::InlineQueryResultContact(v)),
            }
        } else if tag == "game"@ {
            match sdec_inline_query_result_game(j) {
                Err(e) => Err(e),
                Ok(v) => Ok(InlineQueryResultView::InlineQueryResultGame(v)),
            }
        } else if tag == "document"@ {
            match sdec_inline_query_result_cached_document(j) {
                Ok(v) => Ok(InlineQueryResultView::InlineQueryResultCachedDocument(v)),
                Err(_) => match sdec_inline_query_result_document(j) {
                    Ok(v) => Ok(InlineQueryResultView::InlineQueryResultDocument(v)),
                    Err(_) => Err(
                        DecodeErrorView::NoVariantMatch { family: "InlineQueryResult"@ },
                    ),
                },
            }
        } else if tag == "gif"@ {
            match sdec_inline_query_result_cached_gif(j) {
                Ok(v) => Ok(InlineQueryResultView::InlineQueryResultCachedGif(v)),
                Err(_) => match sdec_inline_query_result_gif(j) {
                    Ok(v) => Ok(InlineQueryResultView::InlineQueryResultGif(v)),
                    Err(_) => Err(
                        DecodeErrorView::NoVariantMatch { family: "InlineQueryResult"@ },
                    ),
                },
            }
        } else if tag == "location"@ {
            match sdec_inline_query_result_location(j) {
                Err(e) => Err(e),
                Ok(v) => Ok(InlineQueryResultView::InlineQueryResultLocation(v)),
            }
        } else if tag == "mpeg4_gif"@ {
            match sdec_inline_query_result_cached_mpeg4_gif(j) {
                Ok(v) => Ok(InlineQueryResultView::InlineQueryResultCachedMpeg4Gif(v)),
                Err(_) => match sdec_inline_query_result_mpeg4_gif(j) {
                    Ok(v) => Ok(InlineQueryResultView::InlineQueryResultMpeg4Gif(v)),
                    Err(_) => Err(
                        DecodeErrorView::NoVariantMatch { family: "InlineQueryResult"@ },
                    ),
                },
            }
        } else if tag == "photo"@ {
            match sdec_inline_query_result_cached_photo(j) {
                Ok(v) => Ok(InlineQueryResultView::InlineQueryResultCachedPhoto(v)),
                Err(_) => match sdec_inline_query_result_photo(j) {
                    Ok(v) => Ok(InlineQueryResultView::InlineQueryResultPhoto(v)),
                    Err(_) => Err(
                        DecodeErrorView::NoVariantMatch { family: "InlineQueryResult"@ },
                    ),
                },
            }
        } else if tag == "sticker"@ {
            match sdec_inline_query_result_cached_sticker(j) {
                Err(e) => Err(e),
                Ok(v) => Ok(InlineQueryResultView::InlineQueryResultCachedSticker(v)),
            }
        } else if tag == "venue"@ {
            match sdec_inline_query_result_venue(j) {
                Err(e) => Err(e),
                Ok(v) => Ok(InlineQueryResultView::InlineQueryResultVenue(v)),
            }
        } else if tag == "video"@ {
            match sdec_inline_query_result_cached_video(j) {
                Ok(v) => Ok(InlineQueryResultView::InlineQueryResultCachedVideo(v)),
                Err(_) => match sdec_inline_query_result_video(j) {
                    Ok(v) => Ok(InlineQueryResultView::InlineQueryResultVideo(v)),
                    Err(_) => Err(
                        DecodeErrorView::NoVariantMatch { family: "InlineQueryResult"@ },
                    ),
                },
            }
        } else if tag == "voice"@ {
            match sdec_inline_query_result_cached_voice(j) {
                Ok(v) => Ok(InlineQueryResultView::InlineQueryResultCachedVoice(v)),
                Err(_) => match sdec_inline_query_result_voice(j) {
                    Ok(v) => Ok(InlineQueryResultView::InlineQueryResultVoice(v)),
                    Err(_) => Err(
                        DecodeErrorView::NoVariantMatch { family: "InlineQueryResult"@ },
                    ),
                },
            }
        } else {
            Err(DecodeErrorView::UnknownTag { family: "InlineQueryResult"@, tag })
        },
    }
}

pub fn encode_inline_query_result(x: &InlineQueryResult) -> (r: JsonValue)
    ensures
        r@ == senc_inline_query_result(x@),
{
    match x {
        InlineQueryResult::InlineQueryResultCachedAudio(v) => encode_inline_query_result_cached_audio(v),
        InlineQueryResult::InlineQueryResultCachedDocument(v) => encode_inline_query_result_cached_document(v),
        InlineQueryResult::InlineQueryResultCachedGif(v) => encode_inline_query_result_cached_gif(v),
        InlineQueryResult::InlineQueryResultCachedMpeg4Gif(v) => encode_inline_query_result_cached_mpeg4_gif(v),
        InlineQueryResult::InlineQueryResultCachedPhoto(v) => encode_inline_query_result_cached_photo(v),
        InlineQueryResult::InlineQueryResultCachedSticker(v) => encode_inline_query_result_cached_sticker(v),
        InlineQueryResult::InlineQueryResultCachedVideo(v) => encode_inline_query_result_cached_video(v),
        InlineQueryResult::InlineQueryResultCachedVoice(v) => encode_inline_query_result_cached_voice(v),
        InlineQueryResult::InlineQueryResultArticle(v) => encode_inline_query_result_article(v),
        InlineQueryResult::InlineQueryResultAudio(v) => encode_inline_query_result_audio(v),
        InlineQueryResult::InlineQueryResultContact(v) => encode_inline_query_result_contact(v),
        InlineQueryResult::InlineQueryResultGame(v) => encode_inline_query_result_game(v),
        InlineQueryResult::InlineQueryResultDocument(v) => encode_inline_query_result_document(v),
        InlineQueryResult::InlineQueryResultGif(v) => encode_inline_query_result_gif(v),
        InlineQueryResult::InlineQueryResultLocation(v) => encode_inline_query_result_location(v),
        InlineQueryResult::InlineQueryResultMpeg4Gif(v) => encode_inline_query_result_mpeg4_gif(v),
        InlineQueryResult::InlineQueryResultPhoto(v) => encode_inline_query_result_photo(v),
        InlineQueryResult::InlineQueryResultVenue(v) => encode_inline_query_result_venue(v),
        InlineQueryResult::InlineQueryResultVideo(v) => encode_inline_query_result_video(v),
        InlineQueryResult::InlineQueryResultVoice(v) => encode_inline_query_result_voice(v),
    }
}

#[verifier::rlimit(100)]
#[verifier::spinoff_prover]
pub fn decode_inline_query_result(j: &JsonValue) -> (r: Result<InlineQueryResult, DecodeError>)
    ensures
        res_view(r) == sdec_inline_query_result(j@),
{
    let tag = match req_str(j, "type") {
        Ok(v) => v,
        Err(e) => {
            return Err(e);
        },
    };
    if crate::json::str_eq(tag.as_str(), "article") {
        match decode_inline_query_result_article(j) {
            Ok(v) => Ok(InlineQueryResult::InlineQueryResultArticle(v)),
            Err(e) => Err(e),
        }
    } else if crate::json::str_eq(tag.as_str(), "audio") {
        match decode_inline_query_result_cached_audio(j) {
            Ok(v) => Ok(InlineQueryResult::InlineQueryResultCachedAudio(v)),
            Err(_) => match decode_inline_query_result_audio(j) {
                Ok(v) => Ok(InlineQueryResult::InlineQueryResultAudio(v)),
                Err(_) => Err(
                    DecodeError::NoVariantMatch { family: String::from_str("InlineQueryResult") },
                ),
            },
        }
    } else if crate::json::str_eq(tag.as_str(), "contact") {
        match decode_inline_query_result_contact(j) {
            Ok(v) => Ok(InlineQueryResult::InlineQueryResultContact(v)),
            Err(e) => Err(e),
        }
    } else if crate::json::str_eq(tag.as_str(), "game") {
        match decode_inline_query_result_game(j) {
            Ok(v) => Ok(InlineQueryResult::InlineQueryResultGame(v)),
            Err(e) => Err(e),
        }
    } else if crate::json::str_eq(tag.as_str(), "document") {
        match decode_inline_query_result_cached_document(j) {
            Ok(v) => Ok(InlineQueryResult::InlineQueryResultCachedDocument(v)),
            Err(_) => match decode_inline_query_result_document(j) {
                Ok(v) => Ok(InlineQueryResult::InlineQueryResultDocument(v)),
                Err(_) => Err(
                    DecodeError::NoVariantMatch { family: String::from_str("InlineQueryResult") },
                ),
            },
        }
    } else if crate::json::str_eq(tag.as_str(), "gif") {
        match decode_inline_query_result_cached_gif(j) {
            Ok(v) => Ok(InlineQueryResult::InlineQueryResultCachedGif(v)),
            Err(_) => match decode_inline_query_result_gif(j) {
                Ok(v) => Ok(InlineQueryResult::InlineQueryResultGif(v)),
                Err(_) => Err(
                    DecodeError::NoVariantMatch { family: String::from_str("InlineQueryResult") },
                ),
            },
        }
    } else if crate::json::str_eq(tag.as_str(), "location") {
        match decode_inline_query_result_location(j) {
            Ok(v) => Ok(InlineQueryResult::InlineQueryResultLocation(v)),
            Err(e) => Err(e),
        }
    } else if crate::json::str_eq(tag.as_str(), "mpeg4_gif") {
        match decode_inline_query_result_cached_mpeg4_gif(j) {
            Ok(v) => Ok(InlineQueryResult::InlineQueryResultCachedMpeg4Gif(v)),
            Err(_) => match decode_inline_query_result_mpeg4_gif(j) {
                Ok(v) => Ok(InlineQueryResult::InlineQueryResultMpeg4Gif(v)),
                Err(_) => Err(
                    DecodeError::NoVariantMatch { family: String::from_str("InlineQueryResult") },
                ),
            },
        }
    } else if crate::json::str_eq(tag.as_str(), "photo") {
        match decode_inline_query_result_cached_photo(j) {
            Ok(v) => Ok(InlineQueryResult::InlineQueryResultCachedPhoto(v)),
            Err(_) => match decode_inline_query_result_photo(j) {
                Ok(v) => Ok(InlineQueryResult::InlineQueryResultPhoto(v)),
                Err(_) => Err(
                    DecodeError::NoVariantMatch { family: String::from_str("InlineQueryResult") },
                ),
            },
        }
    } else if crate::json::str_eq(tag.as_str(), "sticker") {
        match decode_inline_query_result_cached_sticker(j) {
            Ok(v) => Ok(InlineQueryResult::InlineQueryResultCachedSticker(v)),
            Err(e) => Err(e),
        }
    } else if crate::json::str_eq(tag.as_str(), "venue") {
        match decode_inline_query_result_venue(j) {
            Ok(v) => Ok(InlineQueryResult::InlineQueryResultVenue(v)),
            Err(e) => Err(e),
        }
    } else if crate::json::str_eq(tag.as_str(), "video") {
        match decode_inline_query_result_cached_video(j) {
            Ok(v) => Ok(InlineQueryResult::InlineQueryResultCachedVideo(v)),
            Err(_) => match decode_inline_query_result_video(j) {
                Ok(v) => Ok(InlineQueryResult::InlineQueryResultVideo(v)),
                Err(_) => Err(
                    DecodeError::NoVariantMatch { family: String::from_str("InlineQueryResult") },
                ),
            },
        }
    } else if crate::json::str_eq(tag.as_str(), "voice") {
        match decode_inline_query_result_cached_voice(j) {
            Ok(v) => Ok(InlineQueryResult::InlineQueryResultCachedVoice(v)),
            Err(_) => match decode_inline_query_result_voice(j) {
                Ok(v) => Ok(InlineQueryResult::InlineQueryResultVoice(v)),
                Err(_) => Err(
                    DecodeError::NoVariantMatch { family: String::from_str("InlineQueryResult") },
                ),
            },
        }
    } else {
        Err(DecodeError::UnknownTag { family: String::from_str("InlineQueryResult"), tag })
    }
}

/// Reveals every tag of the family, and the keys that tell a cached
/// member from its same-tag fresh sibling, and pins the characters
/// that tell same-length strings apart.
pub(crate) proof fn result_tags_facts()
    ensures
        "article"@.len() == 7,
        "audio"@.len() == 5,
        "contact"@.len() == 7,
        "game"@.len() == 4,
        "document"@.len() == 8,
        "gif"@.len() == 3,
        "location"@.len() == 8,
        "mpeg4_gif"@.len() == 9,
        "photo"@.len() == 5,
        "sticker"@.len() == 7,
        "venue"@.len() == 5,
        "video"@.len() == 5,
        "voice"@.len() == 5,
        "audio_file_id"@.len() == 13,
        "document_file_id"@.len() == 16,
        "gif_file_id"@.len() == 11,
        "mpeg4_file_id"@.len() == 13,
        "photo_file_id"@.len() == 13,
        "video_file_id"@.len() == 13,
        "voice_file_id"@.len() == 13,
        "thumbnail_url"@.len() == 13,
        "audio"@[0] == 'a' && "photo"@[0] == 'p' && "venue"@[0] == 'v',
        "video"@[0] == 'v' && "voice"@[0] == 'v',
        "venue"@[1] == 'e' && "video"@[1] == 'i' && "voice"@[1] == 'o',
        "article"@[0] == 'a' && "contact"@[0] == 'c' && "sticker"@[0] == 's',
        "document"@[0] == 'd' && "location"@[0] == 'l',
        "mpeg4_file_id"@[0] == 'm' && "photo_file_id"@[0] == 'p' && "thumbnail_url"@[0] == 't',
        "video_file_id"@[0] == 'v' && "voice_file_id"@[0] == 'v',
        "video_file_id"@[1] == 'i' && "voice_file_id"@[1] == 'o',
{
    reveal_strlit("type");
    reveal_strlit("article");
    reveal_strlit("audio");
    reveal_strlit("contact");
    reveal_strlit("game");
    reveal_strlit("document");
    reveal_strlit("gif");
    reveal_strlit("location");
    reveal_strlit("mpeg4_gif");
    reveal_strlit("photo");
    reveal_strlit("sticker");
    reveal_strlit("venue");
    reveal_strlit("video");
    reveal_strlit("voice");
    reveal_strlit("audio_file_id");
    reveal_strlit("document_file_id");
    reveal_strlit("gif_file_id");
    reveal_strlit("mpeg4_file_id");
    reveal_strlit("photo_file_id");
    reveal_strlit("video_file_id");
    reveal_strlit("voice_file_id");
    reveal_strlit("thumbnail_url");
}

/// The family resolves this member's own encoding back to it.
#[verifier::rlimit(100)]
#[verifier::spinoff_prover]
proof fn lemma_resolve_inline_query_result_cached_audio(v: InlineQueryResultCachedAudioView)
    ensures
        sdec_inline_query_result(senc_inline_query_result_cached_audio(v)) == Ok::<
            InlineQueryResultView,
            DecodeErrorView,
        >(InlineQueryResultView::InlineQueryResultCachedAudio(v)),
{
    broadcast use crate::json::group_json_ins;

    result_tags_facts();
    lemma_inline_query_result_cached_audio_tag(v);
    lemma_inline_query_result_cached_audio_round_trip(v);
}

/// The family resolves this member's own encoding back to it.
#[verifier::rlimit(100)]
#[verifier::spinoff_prover]
proof fn lemma_resolve_inline_query_result_cached_document(v: InlineQueryResultCachedDocumentView)
    ensures
        sdec_inline_query_result(senc_inline_query_result_cached_document(v)) == Ok::<
            InlineQueryResultView,
            DecodeErrorView,
        >(InlineQueryResultView::InlineQueryResultCachedDocument(v)),
{
    broadcast use crate::json::group_json_ins;

    result_tags_facts();
    lemma_inline_query_result_cached_document_tag(v);
    lemma_inline_query_result_cached_document_round_trip(v);
}

/// The family resolves this member's own encoding back to it.
#[verifier::rlimit(100)]
#[verifier::spinoff_prover]
proof fn lemma_resolve_inline_query_result_cached_gif(v: InlineQueryResultCachedGifView)
    ensures
        sdec_inline_query_result(senc_inline_query_result_cached_gif(v)) == Ok::<
            InlineQueryResultView,
            DecodeErrorView,
        >(InlineQueryResultView::InlineQueryResultCachedGif(v)),
{
    broadcast use crate::json::group_json_ins;

    result_tags_facts();
    lemma_inline_query_result_cached_gif_tag(v);
    lemma_inline_query_result_cached_gif_round_trip(v);
}

/// The family resolves this member's own encoding back to it.
#[verifier::rlimit(100)]
#[verifier::spinoff_prover]
proof fn lemma_resolve_inline_query_result_cached_mpeg4_gif(v: InlineQueryResultCachedMpeg4GifView)
    ensures
        sdec_inline_query_result(senc_inline_query_result_cached_mpeg4_gif(v)) == Ok::<
            InlineQueryResultView,
            DecodeErrorView,
        >(InlineQueryResultView::InlineQueryResultCachedMpeg4Gif(v)),
{
    broadcast use crate::json::group_json_ins;

    result_tags_facts();
    lemma_inline_query_result_cached_mpeg4_gif_tag(v);
    lemma_inline_query_result_cached_mpeg4_gif_round_trip(v);
}

/// The family resolves this member's own encoding back to it.
#[verifier::rlimit(100)]
#[verifier::spinoff_prover]
proof fn lemma_resolve_inline_query_result_cached_photo(v: InlineQueryResultCachedPhotoView)
    ensures
        sdec_inline_query_result(senc_inline_query_result_cached_photo(v)) == Ok::<
            InlineQueryResultView,
            DecodeErrorView,
        >(InlineQueryResultView::InlineQueryResultCachedPhoto(v)),
{
    broadcast use crate::json::group_json_ins;

    result_tags_facts();
    lemma_inline_query_result_cached_photo_tag(v);
    lemma_inline_query_result_cached_photo_round_trip(v);
}

/// The family resolves this member's own encoding back to it.
#[verifier::rlimit(100)]
#[verifier::spinoff_prover]
proof fn lemma_resolve_inline_query_result_cached_sticker(v: InlineQueryResultCachedStickerView)
    ensures
        sdec_inline_query_result(senc_inline_query_result_cached_sticker(v)) == Ok::<
            InlineQueryResultView,
            DecodeErrorView,
        >(InlineQueryResultView::InlineQueryResultCachedSticker(v)),
{
    broadcast use crate::json::group_json_ins;

    result_tags_facts();
    lemma_inline_query_result_cached_sticker_tag(v);
    lemma_inline_query_result_cached_sticker_round_trip(v);
}

/// The family resolves this member's own encoding back to it.
#[verifier::rlimit(100)]
#[verifier::spinoff_prover]
proof fn lemma_resolve_inline_query_result_cached_video(v: InlineQueryResultCachedVideoView)
    ensures
        sdec_inline_query_result(senc_inline_query_result_cached_video(v)) == Ok::<
            InlineQueryResultView,
            DecodeErrorView,
        >(InlineQueryResultView::InlineQueryResultCachedVideo(v)),
{
    broadcast use crate::json::group_json_ins;

    result_tags_facts();
    lemma_inline_query_result_cached_video_tag(v);
    lemma_inline_query_result_cached_video_round_trip(v);
}

/// The family resolves this member's own encoding back to it.
#[verifier::rlimit(100)]
#[verifier::spinoff_prover]
proof fn lemma_resolve_inline_query_result_cached_voice(v: InlineQueryResultCachedVoiceView)
    ensures
        sdec_inline_query_result(senc_inline_query_result_cached_voice(v)) == Ok::<
            InlineQueryResultView,
            DecodeErrorView,
        >(InlineQueryResultView::InlineQueryResultCachedVoice(v)),
{
    broadcast use crate::json::group_json_ins;

    result_tags_facts();
    lemma_inline_query_result_cached_voice_tag(v);
    lemma_inline_query_result_cached_voice_round_trip(v);
}

/// The family resolves this member's own encoding back to it.
#[verifier::rlimit(100)]
#[verifier::spinoff_prover]
proof fn lemma_resolve_inline_query_result_article(v: InlineQueryResultArticleView)
    requires
        !(v.input_message_content is InputVenueMessageContent),
    ensures
        sdec_inline_query_result(senc_inline_query_result_article(v)) == Ok::<
            InlineQueryResultView,
            DecodeErrorView,
        >(InlineQueryResultView::InlineQueryResultArticle(v)),
{
    broadcast use crate::json::group_json_ins;

    result_tags_facts();
    lemma_inline_query_result_article_tag(v);
    lemma_inline_query_result_article_round_trip(v);
}

/// The family resolves this member's own encoding back to it.
#[verifier::rlimit(100)]
#[verifier::spinoff_prover]
proof fn lemma_resolve_inline_query_result_audio(v: InlineQueryResultAudioView)
    ensures
        sdec_inline_query_result(senc_inline_query_result_audio(v)) == Ok::<
            InlineQueryResultView,
            DecodeErrorView,
        >(InlineQueryResultView::InlineQueryResultAudio(v)),
{
    broadcast use crate::json::group_json_ins;

    result_tags_facts();
    lemma_inline_query_result_audio_tag(v);
    lemma_inline_query_result_audio_round_trip(v);
    reveal_strlit("type");
    reveal_strlit("id");
    reveal_strlit("audio_url");
    reveal_strlit("title");
    assert("type"@.len() == 4 && "id"@.len() == 2 && "audio_url"@.len() == 9 && "title"@.len() == 5);
    assert(sget(senc_inline_query_result_audio(v), "audio_file_id"@) is None);
}

/// The family resolves this member's own encoding back to it.
#[verifier::rlimit(100)]
#[verifier::spinoff_prover]
proof fn lemma_resolve_inline_query_result_contact(v: InlineQueryResultContactView)
    ensures
        sdec_inline_query_result(senc_inline_query_result_contact(v)) == Ok::<
            InlineQueryResultView,
            DecodeErrorView,
        >(InlineQueryResultView::InlineQueryResultContact(v)),
{
    broadcast use crate::json::group_json_ins;

    result_tags_facts();
    lemma_inline_query_result_contact_tag(v);
    lemma_inline_query_result_contact_round_trip(v);
}

/// The family resolves this member's own encoding back to it.
#[verifier::rlimit(100)]
#[verifier::spinoff_prover]
proof fn lemma_resolve_inline_query_result_game(v: InlineQueryResultGameView)
    ensures
        sdec_inline_query_result(senc_inline_query_result_game(v)) == Ok::<
            InlineQueryResultView,
            DecodeErrorView,
        >(InlineQueryResultView::InlineQueryResultGame(v)),
{
    broadcast use crate::json::group_json_ins;

    result_tags_facts();
    lemma_inline_query_result_game_tag(v);
    lemma_inline_query_result_game_round_trip(v);
}

/// The family resolves this member's own encoding back to it.
#[verifier::rlimit(100)]
#[verifier::spinoff_prover]
proof fn lemma_resolve_inline_query_result_document(v: InlineQueryResultDocumentView)
    ensures
        sdec_inline_query_result(senc_inline_query_result_document(v)) == Ok::<
            InlineQueryResultView,
            DecodeErrorView,
        >(InlineQueryResultView::InlineQueryResultDocument(v)),
{
    broadcast use crate::json::group_json_ins;

    result_tags_facts();
    lemma_inline_query_result_document_tag(v);
    lemma_inline_query_result_document_round_trip(v);
    reveal_strlit("type");
    reveal_strlit("id");
    reveal_strlit("title");
    reveal_strlit("document_url");
    assert("type"@.len() == 4 && "id"@.len() == 2 && "title"@.len() == 5 && "document_url"@.len() == 12);
    assert(sget(senc_inline_query_result_document(v), "document_file_id"@) is None);
}

/// The family resolves this member's own encoding back to it.
#[verifier::rlimit(100)]
#[verifier::spinoff_prover]
proof fn lemma_resolve_inline_query_result_gif(v: InlineQueryResultGifView)
    ensures
        sdec_inline_query_result(senc_inline_query_result_gif(v)) == Ok::<
            InlineQueryResultView,
            DecodeErrorView,
        >(InlineQueryResultView::InlineQueryResultGif(v)),
{
    broadcast use crate::json::group_json_ins;

    result_tags_facts();
    lemma_inline_query_result_gif_tag(v);
    lemma_inline_query_result_gif_round_trip(v);
    reveal_strlit("type");
    reveal_strlit("id");
    reveal_strlit("gif_url");
    reveal_strlit("thumbnail_url");
    assert("type"@.len() == 4 && "id"@.len() == 2 && "gif_url"@.len() == 7 && "thumbnail_url"@.len() == 13);
    assert(sget(senc_inline_query_result_gif(v), "gif_file_id"@) is None);
}

/// The family resolves this member's own encoding back to it.
#[verifier::rlimit(100)]
#[verifier::spinoff_prover]
proof fn lemma_resolve_inline_query_result_location(v: InlineQueryResultLocationView)
    ensures
        sdec_inline_query_result(senc_inline_query_result_location(v)) == Ok::<
            InlineQueryResultView,
            DecodeErrorView,
        >(InlineQueryResultView::InlineQueryResultLocation(v)),
{
    broadcast use crate::json::group_json_ins;

    result_tags_facts();
    lemma_inline_query_result_location_tag(v);
    lemma_inline_query_result_location_round_trip(v);
}

/// The family resolves this member's own encoding back to it.
#[verifier::rlimit(100)]
#[verifier::spinoff_prover]
proof fn lemma_resolve_inline_query_result_mpeg4_gif(v: InlineQueryResultMpeg4GifView)
    ensures
        sdec_inline_query_result(senc_inline_query_result_mpeg4_gif(v)) == Ok::<
            InlineQueryResultView,
            DecodeErrorView,
        >(InlineQueryResultView::InlineQueryResultMpeg4Gif(v)),
{
    broadcast use crate::json::group_json_ins;

    result_tags_facts();
    lemma_inline_query_result_mpeg4_gif_tag(v);
    lemma_inline_query_result_mpeg4_gif_round_trip(v);
    reveal_strlit("type");
    reveal_strlit("id");
    reveal_strlit("mpeg4_url");
    reveal_strlit("thumbnail_url");
    assert("type"@.len() == 4 && "id"@.len() == 2 && "mpeg4_url"@.len() == 9 && "thumbnail_url"@.len() == 13);
    assert(sget(senc_inline_query_result_mpeg4_gif(v), "mpeg4_file_id"@) is None);
}

/// The family resolves this member's own encoding back to it.
#[verifier::rlimit(100)]
#[verifier::spinoff_prover]
proof fn lemma_resolve_inline_query_result_photo(v: InlineQueryResultPhotoView)
    ensures
        sdec_inline_query_result(senc_inline_query_result_photo(v)) == Ok::<
            InlineQueryResultView,
            DecodeErrorView,
        >(InlineQueryResultView::InlineQueryResultPhoto(v)),
{
    broadcast use crate::json::group_json_ins;

    result_tags_facts();
    lemma_inline_query_result_photo_tag(v);
    lemma_inline_query_result_photo_round_trip(v);
    reveal_strlit("type");
    reveal_strlit("id");
    reveal_strlit("photo_url");
    reveal_strlit("thumbnail_url");
    assert("type"@.len() == 4 && "id"@.len() == 2 && "photo_url"@.len() == 9 && "thumbnail_url"@.len() == 13);
    assert(sget(senc_inline_query_result_photo(v), "photo_file_id"@) is None);
}

/// The family resolves this member's own encoding back to it.
#[verifier::rlimit(100)]
#[verifier::spinoff_prover]
proof fn lemma_resolve_inline_query_result_venue(v: InlineQueryResultVenueView)
    ensures
        sdec_inline_query_result(senc_inline_query_result_venue(v)) == Ok::<
            InlineQueryResultView,
            DecodeErrorView,
        >(InlineQueryResultView::InlineQueryResultVenue(v)),
{
    broadcast use crate::json::group_json_ins;

    result_tags_facts();
    lemma_inline_query_result_venue_tag(v);
    lemma_inline_query_result_venue_round_trip(v);
}

/// The family resolves this member's own encoding back to it.
#[verifier::rlimit(100)]
#[verifier::spinoff_prover]
proof fn lemma_resolve_inline_query_result_video(v: InlineQueryResultVideoView)
    ensures
        sdec_inline_query_result(senc_inline_query_result_video(v)) == Ok::<
            InlineQueryResultView,
            DecodeErrorView,
        >(InlineQueryResultView::InlineQueryResultVideo(v)),
{
    broadcast use crate::json::group_json_ins;

    result_tags_facts();
    lemma_inline_query_result_video_tag(v);
    lemma_inline_query_result_video_round_trip(v);
    reveal_strlit("type");
    reveal_strlit("id");
    reveal_strlit("video_url");
    reveal_strlit("title");
    assert("type"@.len() == 4 && "id"@.len() == 2 && "video_url"@.len() == 9 && "title"@.len() == 5);
    assert(sget(senc_inline_query_result_video(v), "video_file_id"@) is None);
}

/// The family resolves this member's own encoding back to it.
#[verifier::rlimit(100)]
#[verifier::spinoff_prover]
proof fn lemma_resolve_inline_query_result_voice(v: InlineQueryResultVoiceView)
    ensures
        sdec_inline_query_result(senc_inline_query_result_voice(v)) == Ok::<
            InlineQueryResultView,
            DecodeErrorView,
        >(InlineQueryResultView::InlineQueryResultVoice(v)),
{
    broadcast use crate::json::group_json_ins;

    result_tags_facts();
    lemma_inline_query_result_voice_tag(v);
    lemma_inline_query_result_voice_round_trip(v);
    reveal_strlit("type");
    reveal_strlit("id");
    reveal_strlit("voice_url");
    reveal_strlit("title");
    assert("type"@.len() == 4 && "id"@.len() == 2 && "voice_url"@.len() == 9 && "title"@.len() == 5);
    assert(sget(senc_inline_query_result_voice(v), "voice_file_id"@) is None);
}

/// Decoding undoes encoding, for every member of the family whose
/// article content is not the venue member.
pub proof fn lemma_inline_query_result_round_trip(m: InlineQueryResultView)
    requires
        match m {
            InlineQueryResultView::InlineQueryResultArticle(v) => !(v.input_message_content
                is InputVenueMessageContent),
            _ => true,
        },
    ensures
        sdec_inline_query_result(senc_inline_query_result(m)) == Ok::<
            InlineQueryResultView,
            DecodeErrorView,
        >(m),
{
    match m {
        InlineQueryResultView::InlineQueryResultCachedAudio(v) => lemma_resolve_inline_query_result_cached_audio(v),
        InlineQueryResultView::InlineQueryResultCachedDocument(v) => lemma_resolve_inline_query_result_cached_document(v),
        InlineQueryResultView::InlineQueryResultCachedGif(v) => lemma_resolve_inline_query_result_cached_gif(v),
        InlineQueryResultView::InlineQueryResultCachedMpeg4Gif(v) => lemma_resolve_inline_query_result_cached_mpeg4_gif(v),
        InlineQueryResultView::InlineQueryResultCachedPhoto(v) => lemma_resolve_inline_query_result_cached_photo(v),
        InlineQueryResultView::InlineQueryResultCachedSticker(v) => lemma_resolve_inline_query_result_cached_sticker(v),
        InlineQueryResultView::InlineQueryResultCachedVideo(v) => lemma_resolve_inline_query_result_cached_video(v),
        InlineQueryResultView::InlineQueryResultCachedVoice(v) => lemma_resolve_inline_query_result_cached_voice(v),
        InlineQueryResultView::InlineQueryResultArticle(v) => lemma_resolve_inline_query_result_article(v),
        InlineQueryResultView::InlineQueryResultAudio(v) => lemma_resolve_inline_query_result_audio(v),
        InlineQueryResultView::InlineQueryResultContact(v) => lemma_resolve_inline_query_result_contact(v),
        InlineQueryResultView::InlineQueryResultGame(v) => lemma_resolve_inline_query_result_game(v),
        InlineQueryResultView::InlineQueryResultDocument(v) => lemma_resolve_inline_query_result_document(v),
        InlineQueryResultView::InlineQueryResultGif(v) => lemma_resolve_inline_query_result_gif(v),
        InlineQueryResultView::InlineQueryResultLocation(v) => lemma_resolve_inline_query_result_location(v),
        InlineQueryResultView::InlineQueryResultMpeg4Gif(v) => lemma_resolve_inline_query_result_mpeg4_gif(v),
        InlineQueryResultView::InlineQueryResultPhoto(v) => lemma_resolve_inline_query_result_photo(v),
        InlineQueryResultView::InlineQueryResultVenue(v) => lemma_resolve_inline_query_result_venue(v),
        InlineQueryResultView::InlineQueryResultVideo(v) => lemma_resolve_inline_query_result_video(v),
        InlineQueryResultView::InlineQueryResultVoice(v) => lemma_resolve_inline_query_result_voice(v),
    }
}

/// A tag outside the closed table is rejected by name, never resolved
/// to a fallback member.
pub proof fn lemma_inline_query_result_unknown_tag(j: JsonSpec, tag: Seq<char>)
    requires
        sreq_str(j, "type"@) == Ok::<Seq<char>, DecodeErrorView>(tag),
        tag != "article"@,
        tag != "audio"@,
        tag != "contact"@,
        tag != "game"@,
        tag != "document"@,
        tag != "gif"@,
        tag != "location"@,
        tag != "mpeg4_gif"@,
        tag != "photo"@,
        tag != "sticker"@,
        tag != "venue"@,
        tag != "video"@,
        tag != "voice"@,
    ensures
        sdec_inline_query_result(j) == Err::<InlineQueryResultView, DecodeErrorView>(
            DecodeErrorView::UnknownTag { family: "InlineQueryResult"@, tag },
        ),
{
}

} // verus!
