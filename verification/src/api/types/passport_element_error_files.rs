use crate::errors::{DecodeError, DecodeErrorView};
use crate::json::{
    decode_str_list, encode_str_list, lemma_str_seq_round_trip, push_field, push_str_field,
    req_str, req_val, res_view, sdec_str_seq, senc_str_seq, sreq_str, sreq_val, JsonSpec,
    JsonValue,
};
use vstd::prelude::*;
use vstd::string::StringExecFns;

verus! {

/// One kind of passport element error, tagged `files` on the wire: a
/// whole list of scans is in question.
#[derive(Debug, Clone, PartialEq)]
pub struct PassportElementErrorFiles {
    pub element_type: String,
    pub file_hashes: Vec<String>,
    pub message: String,
}

/// Mathematical image of `PassportElementErrorFiles`.
#[verifier::ext_equal]
pub struct PassportElementErrorFilesView {
    pub element_type: Seq<char>,
    pub file_hashes: Seq<Seq<char>>,
    pub message: Seq<char>,
}

impl View for PassportElementErrorFiles {
    type V = PassportElementErrorFilesView;

    open spec fn view(&self) -> PassportElementErrorFilesView {
        PassportElementErrorFilesView {
            element_type: self.element_type@,
            file_hashes: self.file_hashes.deep_view(),
            message: self.message@,
        }
    }
}

impl DeepView for PassportElementErrorFiles {
    type V = PassportElementErrorFilesView;

    open spec fn deep_view(&self) -> PassportElementErrorFilesView {
        self.view()
    }
}

/// The object it serializes to, tag included.
pub open spec fn senc_passport_element_error_files(m: PassportElementErrorFilesView) -> JsonSpec {
    JsonSpec::Obj(
        Map::empty().insert("type"@, JsonSpec::Str("files"@)).insert(
            "element_type"@,
            JsonSpec::Str(m.element_type),
        ).insert("file_hashes"@, JsonSpec::Arr(senc_str_seq(m.file_hashes))).insert(
            "message"@,
            JsonSpec::Str(m.message),
        ),
    )
}

/// The value a tree decodes to.
pub open spec fn sdec_passport_element_error_files(j: JsonSpec) -> Result<
    PassportElementErrorFilesView,
    DecodeErrorView,
> {
    match sreq_str(j, "element_type"@) {
        Err(e) => Err(e),
        Ok(element_type) => match sreq_val(j, "file_hashes"@) {
            Err(e) => Err(e),
            Ok(hj) => match hj {
                JsonSpec::Arr(items) => match sdec_str_seq(items, "file_hashes"@) {
                    Err(e) => Err(e),
                    Ok(file_hashes) => match sreq_str(j, "message"@) {
                        Err(e) => Err(e),
                        Ok(message) => Ok(
                            PassportElementErrorFilesView { element_type, file_hashes, message },
                        ),
                    },
                },
                _ => Err(DecodeErrorView::WrongType { path: "file_hashes"@ }),
            },
        },
    }
}

pub fn encode_passport_element_error_files(x: &PassportElementErrorFiles) -> (r: JsonValue)
    ensures
        r@ == senc_passport_element_error_files(x@),
{
    let mut pairs: Vec<(String, JsonValue)> = Vec::new();
    push_field(&mut pairs, "type", JsonValue::Str(String::from_str("files")));
    push_str_field(&mut pairs, "element_type", &x.element_type);
    push_field(&mut pairs, "file_hashes", encode_str_list(&x.file_hashes));
    push_str_field(&mut pairs, "message", &x.message);
    JsonValue::Obj(pairs)
}

pub fn decode_passport_element_error_files(j: &JsonValue) -> (r: Result<
    PassportElementErrorFiles,
    DecodeError,
>)
    ensures
        res_view(r) == sdec_passport_element_error_files(j@),
{
    let element_type = match req_str(j, "element_type") {
        Ok(v) => v,
        Err(e) => {
            return Err(e);
        },
    };
    let hj = match req_val(j, "file_hashes") {
        Ok(v) => v,
        Err(e) => {
            return Err(e);
        },
    };
    let file_hashes = match decode_str_list(hj, "file_hashes") {
        Ok(v) => v,
        Err(e) => {
            return Err(e);
        },
    };
    let message = match req_str(j, "message") {
        Ok(v) => v,
        Err(e) => {
            return Err(e);
        },
    };
    Ok(PassportElementErrorFiles { element_type, file_hashes, message })
}

/// Decoding undoes encoding, for every value.
pub proof fn lemma_passport_element_error_files_round_trip(m: PassportElementErrorFilesView)
    ensures
        sdec_passport_element_error_files(senc_passport_element_error_files(m)) == Ok::<
            PassportElementErrorFilesView,
            DecodeErrorView,
        >(m),
{
    reveal_strlit("type");
    reveal_strlit("element_type");
    reveal_strlit("file_hashes");
    reveal_strlit("message");
    assert("type"@.len() == 4 && "element_type"@.len() == 12 && "file_hashes"@.len() == 11
        && "message"@.len() == 7);
    lemma_str_seq_round_trip(m.file_hashes, "file_hashes"@);
}

/// The tag key of the encoded member reads back as its own tag.
pub proof fn lemma_passport_element_error_files_tag(m: PassportElementErrorFilesView)
    ensures
        sreq_str(senc_passport_element_error_files(m), "type"@) == Ok::<Seq<char>, DecodeErrorView>(
            "files"@,
        ),
{
    reveal_strlit("type");
    reveal_strlit("element_type");
    reveal_strlit("file_hashes");
    reveal_strlit("message");
    reveal_strlit("files");
    assert("type"@.len() == 4 && "element_type"@.len() == 12 && "file_hashes"@.len() == 11
        && "message"@.len() == 7);
}

} // verus!
