use crate::errors::{DecodeError, DecodeErrorView};
use crate::json::{res_view, JsonSpec, JsonValue};
use vstd::prelude::*;
use vstd::string::StrSliceExecFns;

verus! {

/// A chat addressed either by its numeric identifier or by a string
/// handle. The wire carries whichever representation was chosen, bare,
/// with no wrapper tag.
#[derive(Debug, Clone, PartialEq)]
pub enum ChatUId {
    Numeric(i64),
    Handle(String),
}

/// Mathematical image of `ChatUId`.
#[verifier::ext_equal]
pub enum ChatUIdView {
    Numeric(i64),
    Handle(Seq<char>),
}

impl View for ChatUId {
    type V = ChatUIdView;

    open spec fn view(&self) -> ChatUIdView {
        match self {
            ChatUId::Numeric(n) => ChatUIdView::Numeric(*n),
            ChatUId::Handle(s) => ChatUIdView::Handle(s@),
        }
    }
}

impl DeepView for ChatUId {
    type V = ChatUIdView;

    open spec fn deep_view(&self) -> ChatUIdView {
        self.view()
    }
}

/// A decimal digit.
pub open spec fn is_dec_digit(c: char) -> bool {
    48 <= c as u32 && c as u32 <= 57
}

/// The value of one decimal digit.
pub open spec fn digit_val(c: char) -> int {
    c as u32 as int - 48
}

/// Every character is a decimal digit, and there is at least one.
pub open spec fn digits_ok(s: Seq<char>) -> bool {
    s.len() > 0 && forall|i: int| 0 <= i < s.len() ==> is_dec_digit(#[trigger] s[i])
}

/// The value of a string of decimal digits.
pub open spec fn digits_val(s: Seq<char>) -> int
    decreases s.len(),
{
    if s.len() == 0 {
        0
    } else {
        digits_val(s.drop_last()) * 10 + digit_val(s.last())
    }
}

/// The integer a string spells, exactly as the standard decimal parse
/// reads it: an optional sign, then one or more digits, within the
/// 64-bit signed range; anything else spells no integer.
pub open spec fn spec_parse_i64(s: Seq<char>) -> Option<i64> {
    if s.len() > 0 && (s[0] == '-' || s[0] == '+') {
        let body = s.subrange(1, s.len() as int);
        if digits_ok(body) {
            let v = if s[0] == '-' {
                -digits_val(body)
            } else {
                digits_val(body)
            };
            if i64::MIN <= v <= i64::MAX {
                Some(v as i64)
            } else {
                None
            }
        } else {
            None
        }
    } else if digits_ok(s) {
        let v = digits_val(s);
        if v <= i64::MAX {
            Some(v as i64)
        } else {
            None
        }
    } else {
        None
    }
}

/// A digit string's value is never negative.
proof fn lemma_digits_val_nonneg(s: Seq<char>)
    requires
        forall|i: int| 0 <= i < s.len() ==> is_dec_digit(#[trigger] s[i]),
    ensures
        digits_val(s) >= 0,
    decreases s.len(),
{
    if s.len() > 0 {
        lemma_digits_val_nonneg(s.drop_last());
    }
}

/// Reading further digits never shrinks the value.
proof fn lemma_digits_val_prefix_le(s: Seq<char>, i: int)
    requires
        forall|k: int| 0 <= k < s.len() ==> is_dec_digit(#[trigger] s[k]),
        0 <= i <= s.len(),
    ensures
        digits_val(s.take(i)) <= digits_val(s),
    decreases s.len() - i,
{
    if i < s.len() {
        lemma_digits_val_prefix_le(s, i + 1);
        assert(s.take(i + 1).drop_last() =~= s.take(i));
        lemma_digits_val_nonneg(s.take(i));
        assert(digits_val(s.take(i + 1)) == digits_val(s.take(i)) * 10 + digit_val(s[i]));
    } else {
        assert(s.take(i) =~= s);
    }
}

/// Parses a string as a signed 64-bit decimal integer, returning
/// nothing on any string that does not spell one.
pub fn parse_i64_str(s: &str) -> (r: Option<i64>)
    ensures
        r == spec_parse_i64(s@),
{
    let n = s.unicode_len();
    if n == 0 {
        return None;
    }
    let c0 = s.get_char(0);
    let neg = c0 == '-';
    let signed = neg || c0 == '+';
    let start: usize = if signed {
        1
    } else {
        0
    };
    if start == n {
        return None;
    }
    let ghost body: Seq<char> = if signed {
        s@.subrange(1, s@.len() as int)
    } else {
        s@
    };
    let limit: u128 = if neg {
        9223372036854775808u128
    } else {
        9223372036854775807u128
    };
    let mut acc: u128 = 0;
    let mut i: usize = start;
    proof {
        assert(body.take(0) =~= Seq::<char>::empty());
    }
    while i < n
        invariant
            start <= i <= n,
            n == s@.len(),
            n > 0,
            neg == (s@[0] == '-'),
            signed == (neg || s@[0] == '+'),
            start == if signed {
                1int
            } else {
                0int
            },
            body == if signed {
                s@.subrange(1, s@.len() as int)
            } else {
                s@
            },
            body.len() == n - start,
            limit == if neg {
                9223372036854775808u128
            } else {
                9223372036854775807u128
            },
            forall|k: int| 0 <= k < i - start ==> is_dec_digit(#[trigger] body[k]),
            acc <= limit,
            acc as int == digits_val(body.take(i - start)),
        decreases n - i,
    {
        let c = s.get_char(i);
        let d = c as u32;
        if d < 48 || d > 57 {
            proof {
                assert(body[i - start] == s@[i as int]);
                assert(!is_dec_digit(body[i - start]));
            }
            return None;
        }
        let step: u128 = acc * 10 + (d - 48) as u128;
        proof {
            assert(body.take(i - start + 1).drop_last() =~= body.take(i - start));
            assert(body.take(i - start + 1).last() == body[i - start]);
            assert(body[i - start] == s@[i as int]);
        }
        if step > limit {
            proof {
                let t = i - start + 1;
                if forall|k: int| 0 <= k < body.len() ==> is_dec_digit(#[trigger] body[k]) {
                    lemma_digits_val_prefix_le(body, t);
                    assert(digits_val(body) >= digits_val(body.take(t)));
                }
            }
            return None;
        }
        acc = step;
        i = i + 1;
    }
    proof {
        assert(body.take(n - start) =~= body);
    }
    if neg {
        if acc == 9223372036854775808u128 {
            Some(i64::MIN)
        } else {
            Some(-(acc as i64))
        }
    } else {
        Some(acc as i64)
    }
}

/// The bare value an identifier serializes to: a number or a string,
/// with no wrapper.
pub open spec fn senc_chat_uid(m: ChatUIdView) -> JsonSpec {
    match m {
        ChatUIdView::Numeric(n) => JsonSpec::Int(n as int),
        ChatUIdView::Handle(s) => JsonSpec::Str(s),
    }
}

/// Resolves a bare value: a number is a numeric identifier; a string is
/// first read as a number and only falls back to a handle when it
/// spells none. Anything else is no identifier at all.
pub open spec fn sdec_chat_uid(j: JsonSpec) -> Result<ChatUIdView, DecodeErrorView> {
    match j {
        JsonSpec::Int(i) => if i64::MIN <= i <= i64::MAX {
            Ok(ChatUIdView::Numeric(i as i64))
        } else {
            Err(DecodeErrorView::WrongType { path: "ChatUId"@ })
        },
        JsonSpec::Str(s) => match spec_parse_i64(s) {
            Some(n) => Ok(ChatUIdView::Numeric(n)),
            None => Ok(ChatUIdView::Handle(s)),
        },
        _ => Err(DecodeErrorView::WrongType { path: "ChatUId"@ }),
    }
}

pub fn encode_chat_uid(u: &ChatUId) -> (r: JsonValue)
    ensures
        r@ == senc_chat_uid(u@),
{
    match u {
        ChatUId::Numeric(n) => JsonValue::Int(*n),
        ChatUId::Handle(s) => JsonValue::Str(s.clone()),
    }
}

pub fn decode_chat_uid(j: &JsonValue) -> (r: Result<ChatUId, DecodeError>)
    ensures
        res_view(r) == sdec_chat_uid(j@),
{
    match j {
        JsonValue::Int(i) => Ok(ChatUId::Numeric(*i)),
        JsonValue::Str(s) => match parse_i64_str(s.as_str()) {
            Some(n) => Ok(ChatUId::Numeric(n)),
            None => Ok(ChatUId::Handle(s.clone())),
        },
        _ => Err(DecodeError::WrongType { path: "ChatUId".to_owned() }),
    }
}

/// A numeric identifier round-trips to the very same number.
pub proof fn lemma_chat_uid_numeric_round_trip(n: i64)
    ensures
        sdec_chat_uid(senc_chat_uid(ChatUIdView::Numeric(n))) == Ok::<ChatUIdView, DecodeErrorView>(
            ChatUIdView::Numeric(n),
        ),
{
}

/// A handle that does not spell a number round-trips to the very same
/// string and never collapses into a numeric identifier. A handle that
/// does spell one is indistinguishable on the wire from the number
/// itself, so it is left out here.
pub proof fn lemma_chat_uid_handle_round_trip(s: Seq<char>)
    requires
        spec_parse_i64(s) is None,
    ensures
        sdec_chat_uid(senc_chat_uid(ChatUIdView::Handle(s))) == Ok::<ChatUIdView, DecodeErrorView>(
            ChatUIdView::Handle(s),
        ),
{
}

} // verus!
