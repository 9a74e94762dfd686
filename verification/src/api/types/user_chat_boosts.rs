use crate::api::types::chat_boost::{
    decode_chat_boost, encode_chat_boost, lemma_chat_boost_round_trip, sdec_chat_boost,
    senc_chat_boost, ChatBoost, ChatBoostView,
};
use crate::errors::{DecodeError, DecodeErrorView};
use crate::json::{
    arr_model, jv_model, lemma_arr_model_props, push_elem, push_field, req_val, res_view,
    sreq_val, JsonSpec, JsonValue,
};
use vstd::prelude::*;

verus! {

/// The boosts one user added to one chat.
#[derive(Debug, Clone, PartialEq)]
pub struct UserChatBoosts {
    pub boosts: Vec<ChatBoost>,
}

/// Mathematical image of `UserChatBoosts`.
#[verifier::ext_equal]
pub struct UserChatBoostsView {
    pub boosts: Seq<ChatBoostView>,
}

impl View for UserChatBoosts {
    type V = UserChatBoostsView;

    open spec fn view(&self) -> UserChatBoostsView {
        UserChatBoostsView { boosts: self.boosts.deep_view() }
    }
}

impl DeepView for UserChatBoosts {
    type V = UserChatBoostsView;

    open spec fn deep_view(&self) -> UserChatBoostsView {
        self.view()
    }
}

/// The array a boost list serializes to, element for element.
pub open spec fn senc_boost_seq(s: Seq<ChatBoostView>) -> Seq<JsonSpec> {
    s.map_values(|b: ChatBoostView| senc_chat_boost(b))
}

/// The boost list an array decodes to; the first failing element's
/// error is the whole list's.
pub open spec fn sdec_boost_seq(s: Seq<JsonSpec>) -> Result<Seq<ChatBoostView>, DecodeErrorView>
    decreases s.len(),
{
    if s.len() == 0 {
        Ok(Seq::empty())
    } else {
        match sdec_chat_boost(s[0]) {
            Err(e) => Err(e),
            Ok(b) => match sdec_boost_seq(s.drop_first()) {
                Err(e) => Err(e),
                Ok(rest) => Ok(seq![b] + rest),
            },
        }
    }
}

/// The object a boost record serializes to.
pub open spec fn senc_user_chat_boosts(m: UserChatBoostsView) -> JsonSpec {
    JsonSpec::Obj(Map::empty().insert("boosts"@, JsonSpec::Arr(senc_boost_seq(m.boosts))))
}

/// Joins already-decoded elements with the rest of a list decode.
pub open spec fn boost_seq_join(
    acc: Seq<ChatBoostView>,
    r: Result<Seq<ChatBoostView>, DecodeErrorView>,
) -> Result<Seq<ChatBoostView>, DecodeErrorView> {
    match r {
        Ok(s) => Ok(acc + s),
        Err(e) => Err(e),
    }
}

/// The boost record a tree decodes to.
pub open spec fn sdec_user_chat_boosts(j: JsonSpec) -> Result<
    UserChatBoostsView,
    DecodeErrorView,
> {
    match sreq_val(j, "boosts"@) {
        Err(e) => Err(e),
        Ok(bj) => match bj {
            JsonSpec::Arr(items) => match sdec_boost_seq(items) {
                Err(e) => Err(e),
                Ok(bs) => Ok(UserChatBoostsView { boosts: bs }),
            },
            _ => Err(DecodeErrorView::WrongType { path: "boosts"@ }),
        },
    }
}

pub fn encode_user_chat_boosts(u: &UserChatBoosts) -> (r: JsonValue)
    ensures
        r@ == senc_user_chat_boosts(u@),
{
    let ghost target: Seq<JsonSpec> = senc_boost_seq(u@.boosts);
    let mut items: Vec<JsonValue> = Vec::new();
    let n = u.boosts.len();
    proof {
        assert(target.take(0) =~= arr_model(items@));
    }
    let mut i: usize = 0;
    while i < n
        invariant
            i <= n,
            n == u.boosts.len(),
            target == senc_boost_seq(u@.boosts),
            target.len() == n,
            arr_model(items@) == target.take(i as int),
        decreases n - i,
    {
        push_elem(&mut items, encode_chat_boost(&u.boosts[i]));
        proof {
            assert(target.take(i as int + 1) =~= target.take(i as int).push(target[i as int]));
        }
        i = i + 1;
    }
    proof {
        assert(target.take(n as int) =~= target);
    }
    let mut pairs: Vec<(String, JsonValue)> = Vec::new();
    push_field(&mut pairs, "boosts", JsonValue::Arr(items));
    JsonValue::Obj(pairs)
}

pub fn decode_user_chat_boosts(j: &JsonValue) -> (r: Result<UserChatBoosts, DecodeError>)
    ensures
        res_view(r) == sdec_user_chat_boosts(j@),
{
    let bj = match req_val(j, "boosts") {
        Ok(v) => v,
        Err(e) => {
            return Err(e);
        },
    };
    match bj {
        JsonValue::Arr(items) => {
            let ghost ms: Seq<JsonSpec> = arr_model(items@);
            proof {
                lemma_arr_model_props(items@);
                assert(ms.skip(0) =~= ms);
            }
            let mut out: Vec<ChatBoost> = Vec::new();
            let n = items.len();
            let mut i: usize = 0;
            while i < n
                invariant
                    i <= n,
                    n == items.len(),
                    ms == arr_model(items@),
                    ms.len() == n,
                    sdec_user_chat_boosts(j@) == match sdec_boost_seq(ms) {
                        Err(e) => Err::<UserChatBoostsView, DecodeErrorView>(e),
                        Ok(bs) => Ok(UserChatBoostsView { boosts: bs }),
                    },
                    forall|k: int| 0 <= k < n ==> #[trigger] ms[k] == jv_model(items@[k]),
                    out.deep_view().len() == i,
                    sdec_boost_seq(ms) == boost_seq_join(
                        out.deep_view(),
                        sdec_boost_seq(ms.skip(i as int)),
                    ),
                decreases n - i,
            {
                proof {
                    assert(ms.skip(i as int).drop_first() =~= ms.skip(i as int + 1));
                    assert(ms.skip(i as int)[0] == ms[i as int]);
                }
                let ghost prev: Seq<ChatBoostView> = out.deep_view();
                match decode_chat_boost(&items[i]) {
                    Ok(b) => {
                        out.push(b);
                        proof {
                            assert(out.deep_view() =~= prev.push(b@));
                            assert(prev.push(b@) =~= prev + seq![b@]);
                            assert(forall|rest: Seq<ChatBoostView>|
                                (prev + seq![b@]) + rest =~= prev + (seq![b@] + rest));
                        }
                    },
                    Err(e) => {
                        return Err(e);
                    },
                }
                i = i + 1;
            }
            proof {
                assert(ms.skip(n as int) =~= Seq::<JsonSpec>::empty());
                assert(out.deep_view() + Seq::<ChatBoostView>::empty() =~= out.deep_view());
            }
            Ok(UserChatBoosts { boosts: out })
        },
        _ => Err(DecodeError::WrongType { path: "boosts".to_owned() }),
    }
}

/// Decoding undoes encoding for every boost list, element for element.
pub proof fn lemma_boost_seq_round_trip(s: Seq<ChatBoostView>)
    ensures
        sdec_boost_seq(senc_boost_seq(s)) == Ok::<Seq<ChatBoostView>, DecodeErrorView>(s),
    decreases s.len(),
{
    if s.len() == 0 {
        assert(senc_boost_seq(s) =~= Seq::<JsonSpec>::empty());
        assert(s =~= Seq::<ChatBoostView>::empty());
    } else {
        let enc = senc_boost_seq(s);
        lemma_chat_boost_round_trip(s[0]);
        lemma_boost_seq_round_trip(s.drop_first());
        assert(enc.len() == s.len());
        assert(enc.drop_first() =~= senc_boost_seq(s.drop_first()));
        assert(enc[0] == senc_chat_boost(s[0]));
        assert(sdec_chat_boost(enc[0]) == Ok::<ChatBoostView, DecodeErrorView>(s[0]));
        assert(sdec_boost_seq(enc.drop_first()) == Ok::<Seq<ChatBoostView>, DecodeErrorView>(
            s.drop_first(),
        ));
        assert(seq![s[0]] + s.drop_first() =~= s);
        assert(sdec_boost_seq(enc) == Ok::<Seq<ChatBoostView>, DecodeErrorView>(
            seq![s[0]] + s.drop_first(),
        ));
    }
}

/// Decoding undoes encoding, for every boost record.
pub proof fn lemma_user_chat_boosts_round_trip(m: UserChatBoostsView)
    ensures
        sdec_user_chat_boosts(senc_user_chat_boosts(m)) == Ok::<
            UserChatBoostsView,
            DecodeErrorView,
        >(m),
{
    reveal_strlit("boosts");
    assert("boosts"@.len() == 6);
    lemma_boost_seq_round_trip(m.boosts);
}

} // verus!
