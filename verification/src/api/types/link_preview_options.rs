use crate::errors::{DecodeError, DecodeErrorView};
use crate::json::{
    opt_bool, opt_bool_ins, opt_str, opt_str_ins, push_opt_bool_field, push_opt_str_field,
    res_view, sopt_bool, sopt_str, JsonSpec, JsonValue,
};
use vstd::prelude::*;

verus! {

/// Options for link preview generation; every field is optional.
#[derive(Debug, Clone, PartialEq)]
pub struct LinkPreviewOptions {
    pub is_disabled: Option<bool>,
    pub url: Option<String>,
    pub prefer_small_media: Option<bool>,
    pub prefer_large_media: Option<bool>,
    pub show_above_text: Option<bool>,
}

/// Mathematical image of `LinkPreviewOptions`.
#[verifier::ext_equal]
pub struct LinkPreviewOptionsView {
    pub is_disabled: Option<bool>,
    pub url: Option<Seq<char>>,
    pub prefer_small_media: Option<bool>,
    pub prefer_large_media: Option<bool>,
    pub show_above_text: Option<bool>,
}

impl View for LinkPreviewOptions {
    type V = LinkPreviewOptionsView;

    open spec fn view(&self) -> LinkPreviewOptionsView {
        LinkPreviewOptionsView {
            is_disabled: self.is_disabled,
            url: self.url.deep_view(),
            prefer_small_media: self.prefer_small_media,
            prefer_large_media: self.prefer_large_media,
            show_above_text: self.show_above_text,
        }
    }
}

impl DeepView for LinkPreviewOptions {
    type V = LinkPreviewOptionsView;

    open spec fn deep_view(&self) -> LinkPreviewOptionsView {
        self.view()
    }
}

/// The object it serializes to; absent optionals leave no key.
pub open spec fn senc_link_preview_options(m: LinkPreviewOptionsView) -> JsonSpec {
    let o = Map::empty();
    let o = opt_bool_ins(o, "is_disabled"@, m.is_disabled);
    let o = opt_str_ins(o, "url"@, m.url);
    let o = opt_bool_ins(o, "prefer_small_media"@, m.prefer_small_media);
    let o = opt_bool_ins(o, "prefer_large_media"@, m.prefer_large_media);
    let o = opt_bool_ins(o, "show_above_text"@, m.show_above_text);
    JsonSpec::Obj(o)
}

/// The value a tree decodes to.
pub open spec fn sdec_link_preview_options(j: JsonSpec) -> Result<LinkPreviewOptionsView, DecodeErrorView> {
    match sopt_bool(j, "is_disabled"@) {
        Err(e) => Err(e),
        Ok(is_disabled) => {
            match sopt_str(j, "url"@) {
                Err(e) => Err(e),
                Ok(url) => {
                    match sopt_bool(j, "prefer_small_media"@) {
                        Err(e) => Err(e),
                        Ok(prefer_small_media) => {
                            match sopt_bool(j, "prefer_large_media"@) {
                                Err(e) => Err(e),
                                Ok(prefer_large_media) => {
                                    match sopt_bool(j, "show_above_text"@) {
                                        Err(e) => Err(e),
                                        Ok(show_above_text) => {
                                            Ok(LinkPreviewOptionsView { is_disabled, url, prefer_small_media, prefer_large_media, show_above_text })
                                        },
                                    }
                                },
                            }
                        },
                    }
                },
            }
        },
    }
}

pub fn encode_link_preview_options(x: &LinkPreviewOptions) -> (r: JsonValue)
    ensures
        r@ == senc_link_preview_options(x@),
{
    let mut pairs: Vec<(String, JsonValue)> = Vec::new();
    push_opt_bool_field(&mut pairs, "is_disabled", &x.is_disabled);
    push_opt_str_field(&mut pairs, "url", &x.url);
    push_opt_bool_field(&mut pairs, "prefer_small_media", &x.prefer_small_media);
    push_opt_bool_field(&mut pairs, "prefer_large_media", &x.prefer_large_media);
    push_opt_bool_field(&mut pairs, "show_above_text", &x.show_above_text);
    JsonValue::Obj(pairs)
}

pub fn decode_link_preview_options(j: &JsonValue) -> (r: Result<LinkPreviewOptions, DecodeError>)
    ensures
        res_view(r) == sdec_link_preview_options(j@),
{
    let is_disabled = match opt_bool(j, "is_disabled") {
        Ok(v) => v,
        Err(e) => {
            return Err(e);
        },
    };
    let url = match opt_str(j, "url") {
        Ok(v) => v,
        Err(e) => {
            return Err(e);
        },
    };
    let prefer_small_media = match opt_bool(j, "prefer_small_media") {
        Ok(v) => v,
        Err(e) => {
            return Err(e);
        },
    };
    let prefer_large_media = match opt_bool(j, "prefer_large_media") {
        Ok(v) => v,
        Err(e) => {
            return Err(e);
        },
    };
    let show_above_text = match opt_bool(j, "show_above_text") {
        Ok(v) => v,
        Err(e) => {
            return Err(e);
        },
    };
    Ok(LinkPreviewOptions { is_disabled, url, prefer_small_media, prefer_large_media, show_above_text })
}

/// Decoding undoes encoding, for every value.
pub proof fn lemma_link_preview_options_round_trip(m: LinkPreviewOptionsView)
    ensures
        sdec_link_preview_options(senc_link_preview_options(m)) == Ok::<LinkPreviewOptionsView, DecodeErrorView>(m),
{
    broadcast use crate::json::group_json_ins;

    reveal_strlit("is_disabled");
    reveal_strlit("url");
    reveal_strlit("prefer_small_media");
    reveal_strlit("prefer_large_media");
    reveal_strlit("show_above_text");
    assert("is_disabled"@.len() == 11 && "url"@.len() == 3 && "prefer_small_media"@.len() == 18 && "prefer_large_media"@.len() == 18 && "show_above_text"@.len() == 15);
    assert("prefer_large_media"@[7] == 'l' && "prefer_small_media"@[7] == 's');
}

} // verus!
