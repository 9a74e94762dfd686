use crate::errors::{DecodeError, DecodeErrorView};
use crate::json::{res_view, JsonSpec, JsonValue};
use vstd::prelude::*;

verus! {

/// A service message about a started video chat; carries no data.
#[derive(Debug, Clone, Copy, PartialEq)]
pub struct VideoChatStarted {}

impl View for VideoChatStarted {
    type V = VideoChatStarted;

    open spec fn view(&self) -> VideoChatStarted {
        *self
    }
}

impl DeepView for VideoChatStarted {
    type V = VideoChatStarted;

    open spec fn deep_view(&self) -> VideoChatStarted {
        *self
    }
}

/// The empty object the marker serializes to.
pub open spec fn senc_video_chat_started(m: VideoChatStarted) -> JsonSpec {
    JsonSpec::Obj(Map::empty())
}

/// Any object decodes to the marker; anything else is a wrong shape.
pub open spec fn sdec_video_chat_started(j: JsonSpec) -> Result<
    VideoChatStarted,
    DecodeErrorView,
> {
    if j is Obj {
        Ok(VideoChatStarted {  })
    } else {
        Err(DecodeErrorView::WrongType { path: "VideoChatStarted"@ })
    }
}

pub fn encode_video_chat_started(m: &VideoChatStarted) -> (r: JsonValue)
    ensures
        r@ == senc_video_chat_started(m@),
{
    let pairs: Vec<(String, JsonValue)> = Vec::new();
    JsonValue::Obj(pairs)
}

pub fn decode_video_chat_started(j: &JsonValue) -> (r: Result<VideoChatStarted, DecodeError>)
    ensures
        res_view(r) == sdec_video_chat_started(j@),
{
    match j {
        JsonValue::Obj(_) => Ok(VideoChatStarted {  }),
        _ => Err(DecodeError::WrongType { path: "VideoChatStarted".to_owned() }),
    }
}

/// Decoding undoes encoding for the marker.
pub proof fn lemma_video_chat_started_round_trip(m: VideoChatStarted)
    ensures
        sdec_video_chat_started(senc_video_chat_started(m)) == Ok::<
            VideoChatStarted,
            DecodeErrorView,
        >(m),
{
}

} // verus!
