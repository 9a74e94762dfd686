use crate::api::types::passport_element_error_data_field::{
    decode_passport_element_error_data_field, encode_passport_element_error_data_field, lemma_passport_element_error_data_field_round_trip,
    lemma_passport_element_error_data_field_tag, sdec_passport_element_error_data_field, senc_passport_element_error_data_field, PassportElementErrorDataField,
    PassportElementErrorDataFieldView,
};
use crate::api::types::passport_element_error_front_side::{
    decode_passport_element_error_front_side, encode_passport_element_error_front_side, lemma_passport_element_error_front_side_round_trip,
    lemma_passport_element_error_front_side_tag, sdec_passport_element_error_front_side, senc_passport_element_error_front_side, PassportElementErrorFrontSide,
    PassportElementErrorFrontSideView,
};
use crate::api::types::passport_element_error_reverse_side::{
    decode_passport_element_error_reverse_side, encode_passport_element_error_reverse_side, lemma_passport_element_error_reverse_side_round_trip,
    lemma_passport_element_error_reverse_side_tag, sdec_passport_element_error_reverse_side, senc_passport_element_error_reverse_side, PassportElementErrorReverseSide,
    PassportElementErrorReverseSideView,
};
use crate::api::types::passport_element_error_selfie::{
    decode_passport_element_error_selfie, encode_passport_element_error_selfie, lemma_passport_element_error_selfie_round_trip,
    lemma_passport_element_error_selfie_tag, sdec_passport_element_error_selfie, senc_passport_element_error_selfie, PassportElementErrorSelfie,
    PassportElementErrorSelfieView,
};
use crate::api::types::passport_element_error_file::{
    decode_passport_element_error_file, encode_passport_element_error_file, lemma_passport_element_error_file_round_trip,
    lemma_passport_element_error_file_tag, sdec_passport_element_error_file, senc_passport_element_error_file, PassportElementErrorFile,
    PassportElementErrorFileView,
};
use crate::api::types::passport_element_error_files::{
    decode_passport_element_error_files, encode_passport_element_error_files, lemma_passport_element_error_files_round_trip,
    lemma_passport_element_error_files_tag, sdec_passport_element_error_files, senc_passport_element_error_files, PassportElementErrorFiles,
    PassportElementErrorFilesView,
};
use crate::api::types::passport_element_error_translation_file::{
    decode_passport_element_error_translation_file, encode_passport_element_error_translation_file, lemma_passport_element_error_translation_file_round_trip,
    lemma_passport_element_error_translation_file_tag, sdec_passport_element_error_translation_file, senc_passport_element_error_translation_file, PassportElementErrorTranslationFile,
    PassportElementErrorTranslationFileView,
};
use crate::api::types::passport_element_error_translation_files::{
    decode_passport_element_error_translation_files, encode_passport_element_error_translation_files, lemma_passport_element_error_translation_files_round_trip,
    lemma_passport_element_error_translation_files_tag, sdec_passport_element_error_translation_files, senc_passport_element_error_translation_files, PassportElementErrorTranslationFiles,
    PassportElementErrorTranslationFilesView,
};
use crate::api::types::passport_element_error_unspecified::{
    decode_passport_element_error_unspecified, encode_passport_element_error_unspecified, lemma_passport_element_error_unspecified_round_trip,
    lemma_passport_element_error_unspecified_tag, sdec_passport_element_error_unspecified, senc_passport_element_error_unspecified, PassportElementErrorUnspecified,
    PassportElementErrorUnspecifiedView,
};
use crate::errors::{DecodeError, DecodeErrorView};
use crate::json::{req_str, res_view, sreq_str, JsonSpec, JsonValue};
use vstd::prelude::*;
use vstd::string::StringExecFns;

verus! {

/// An error in a submitted passport element: a closed family resolved
/// by the literal `type` tag.
#[derive(Debug, Clone, PartialEq)]
pub enum PassportElementError {
    PassportElementErrorDataField(PassportElementErrorDataField),
    PassportElementErrorFrontSide(PassportElementErrorFrontSide),
    PassportElementErrorReverseSide(PassportElementErrorReverseSide),
    PassportElementErrorSelfie(PassportElementErrorSelfie),
    PassportElementErrorFile(PassportElementErrorFile),
    PassportElementErrorFiles(PassportElementErrorFiles),
    PassportElementErrorTranslationFile(PassportElementErrorTranslationFile),
    PassportElementErrorTranslationFiles(PassportElementErrorTranslationFiles),
    PassportElementErrorUnspecified(PassportElementErrorUnspecified),
}

/// Mathematical image of `PassportElementError`.
#[verifier::ext_equal]
pub enum PassportElementErrorView {
    PassportElementErrorDataField(PassportElementErrorDataFieldView),
    PassportElementErrorFrontSide(PassportElementErrorFrontSideView),
    PassportElementErrorReverseSide(PassportElementErrorReverseSideView),
    PassportElementErrorSelfie(PassportElementErrorSelfieView),
    PassportElementErrorFile(PassportElementErrorFileView),
    PassportElementErrorFiles(PassportElementErrorFilesView),
    PassportElementErrorTranslationFile(PassportElementErrorTranslationFileView),
    PassportElementErrorTranslationFiles(PassportElementErrorTranslationFilesView),
    PassportElementErrorUnspecified(PassportElementErrorUnspecifiedView),
}

impl View for PassportElementError {
    type V = PassportElementErrorView;

    open spec fn view(&self) -> PassportElementErrorView {
        match self {
            PassportElementError::PassportElementErrorDataField(v) => {
                PassportElementErrorView::PassportElementErrorDataField(v@)
            },
            PassportElementError::PassportElementErrorFrontSide(v) => {
                PassportElementErrorView::PassportElementErrorFrontSide(v@)
            },
            PassportElementError::PassportElementErrorReverseSide(v) => {
                PassportElementErrorView::PassportElementErrorReverseSide(v@)
            },
            PassportElementError::PassportElementErrorSelfie(v) => {
                PassportElementErrorView::PassportElementErrorSelfie(v@)
            },
            PassportElementError::PassportElementErrorFile(v) => {
                PassportElementErrorView::PassportElementErrorFile(v@)
            },
            PassportElementError::PassportElementErrorFiles(v) => {
                PassportElementErrorView::PassportElementErrorFiles(v@)
            },
            PassportElementError::PassportElementErrorTranslationFile(v) => {
                PassportElementErrorView::PassportElementErrorTranslationFile(v@)
            },
            PassportElementError::PassportElementErrorTranslationFiles(v) => {
                PassportElementErrorView::PassportElementErrorTranslationFiles(v@)
            },
            PassportElementError::PassportElementErrorUnspecified(v) => {
                PassportElementErrorView::PassportElementErrorUnspecified(v@)
            },
        }
    }
}

impl DeepView for PassportElementError {
    type V = PassportElementErrorView;

    open spec fn deep_view(&self) -> PassportElementErrorView {
        self.view()
    }
}

/// The member a passport element error serializes as.
pub open spec fn senc_passport_element_error(m: PassportElementErrorView) -> JsonSpec {
    match m {
        PassportElementErrorView::PassportElementErrorDataField(v) => senc_passport_element_error_data_field(v),
        PassportElementErrorView::PassportElementErrorFrontSide(v) => senc_passport_element_error_front_side(v),
        PassportElementErrorView::PassportElementErrorReverseSide(v) => senc_passport_element_error_reverse_side(v),
        PassportElementErrorView::PassportElementErrorSelfie(v) => senc_passport_element_error_selfie(v),
        PassportElementErrorView::PassportElementErrorFile(v) => senc_passport_element_error_file(v),
        PassportElementErrorView::PassportElementErrorFiles(v) => senc_passport_element_error_files(v),
        PassportElementErrorView::PassportElementErrorTranslationFile(v) => senc_passport_element_error_translation_file(v),
        PassportElementErrorView::PassportElementErrorTranslationFiles(v) => senc_passport_element_error_translation_files(v),
        PassportElementErrorView::PassportElementErrorUnspecified(v) => senc_passport_element_error_unspecified(v),
    }
}

/// Resolves a passport-error payload against the closed tag table; a
/// tag outside the table is an error naming the family and the tag,
/// never a fallback member.
pub open spec fn sdec_passport_element_error(j: JsonSpec) -> Result<
    PassportElementErrorView,
    DecodeErrorView,
> {
    match sreq_str(j, "type"@) {
        Err(e) => Err(e),
        Ok(tag) => if tag == "data"@ {
            match sdec_passport_element_error_data_field(j) {
                Err(e) => Err(e),
                Ok(v) => Ok(PassportElementErrorView::PassportElementErrorDataField(v)),
            }
        } else if tag == "front_side"@ {
            match sdec_passport_element_error_front_side(j) {
                Err(e) => Err(e),
                Ok(v) => Ok(PassportElementErrorView::PassportElementErrorFrontSide(v)),
            }
        } else if tag == "reverse_side"@ {
            match sdec_passport_element_error_reverse_side(j) {
                Err(e) => Err(e),
                Ok(v) => Ok(PassportElementErrorView::PassportElementErrorReverseSide(v)),
            }
        } else if tag == "selfie"@ {
            match sdec_passport_element_error_selfie(j) {
                Err(e) => Err(e),
                Ok(v) => Ok(PassportElementErrorView::PassportElementErrorSelfie(v)),
            }
        } else if tag == "file"@ {
            match sdec_passport_element_error_file(j) {
                Err(e) => Err(e),
                Ok(v) => Ok(PassportElementErrorView::PassportElementErrorFile(v)),
            }
        } else if tag == "files"@ {
            match sdec_passport_element_error_files(j) {
                Err(e) => Err(e),
                Ok(v) => Ok(PassportElementErrorView::PassportElementErrorFiles(v)),
            }
        } else if tag == "translation_file"@ {
            match sdec_passport_element_error_translation_file(j) {
                Err(e) => Err(e),
                Ok(v) => Ok(PassportElementErrorView::PassportElementErrorTranslationFile(v)),
            }
        } else if tag == "translation_files"@ {
            match sdec_passport_element_error_translation_files(j) {
                Err(e) => Err(e),
                Ok(v) => Ok(PassportElementErrorView::PassportElementErrorTranslationFiles(v)),
            }
        } else if tag == "unspecified"@ {
            match sdec_passport_element_error_unspecified(j) {
                Err(e) => Err(e),
                Ok(v) => Ok(PassportElementErrorView::PassportElementErrorUnspecified(v)),
            }
        } else {
            Err(DecodeErrorView::UnknownTag { family: "PassportElementError"@, tag })
        },
    }
}

pub fn encode_passport_element_error(e: &PassportElementError) -> (r: JsonValue)
    ensures
        r@ == senc_passport_element_error(e@),
{
    match e {
        PassportElementError::PassportElementErrorDataField(v) => encode_passport_element_error_data_field(v),
        PassportElementError::PassportElementErrorFrontSide(v) => encode_passport_element_error_front_side(v),
        PassportElementError::PassportElementErrorReverseSide(v) => encode_passport_element_error_reverse_side(v),
        PassportElementError::PassportElementErrorSelfie(v) => encode_passport_element_error_selfie(v),
        PassportElementError::PassportElementErrorFile(v) => encode_passport_element_error_file(v),
        PassportElementError::PassportElementErrorFiles(v) => encode_passport_element_error_files(v),
        PassportElementError::PassportElementErrorTranslationFile(v) => encode_passport_element_error_translation_file(v),
        PassportElementError::PassportElementErrorTranslationFiles(v) => encode_passport_element_error_translation_files(v),
        PassportElementError::PassportElementErrorUnspecified(v) => encode_passport_element_error_unspecified(v),
    }
}

pub fn decode_passport_element_error(j: &JsonValue) -> (r: Result<
    PassportElementError,
    DecodeError,
>)
    ensures
        res_view(r) == sdec_passport_element_error(j@),
{
    let tag = match req_str(j, "type") {
        Ok(v) => v,
        Err(e) => {
            return Err(e);
        },
    };
    if crate::json::str_eq(tag.as_str(), "data") {
        match decode_passport_element_error_data_field(j) {
            Ok(v) => Ok(PassportElementError::PassportElementErrorDataField(v)),
            Err(e) => Err(e),
        }
    } else if crate::json::str_eq(tag.as_str(), "front_side") {
        match decode_passport_element_error_front_side(j) {
            Ok(v) => Ok(PassportElementError::PassportElementErrorFrontSide(v)),
            Err(e) => Err(e),
        }
    } else if crate::json::str_eq(tag.as_str(), "reverse_side") {
        match decode_passport_element_error_reverse_side(j) {
            Ok(v) => Ok(PassportElementError::PassportElementErrorReverseSide(v)),
            Err(e) => Err(e),
        }
    } else if crate::json::str_eq(tag.as_str(), "selfie") {
        match decode_passport_element_error_selfie(j) {
            Ok(v) => Ok(PassportElementError::PassportElementErrorSelfie(v)),
            Err(e) => Err(e),
        }
    } else if crate::json::str_eq(tag.as_str(), "file") {
        match decode_passport_element_error_file(j) {
            Ok(v) => Ok(PassportElementError::PassportElementErrorFile(v)),
            Err(e) => Err(e),
        }
    } else if crate::json::str_eq(tag.as_str(), "files") {
        match decode_passport_element_error_files(j) {
            Ok(v) => Ok(PassportElementError::PassportElementErrorFiles(v)),
            Err(e) => Err(e),
        }
    } else if crate::json::str_eq(tag.as_str(), "translation_file") {
        match decode_passport_element_error_translation_file(j) {
            Ok(v) => Ok(PassportElementError::PassportElementErrorTranslationFile(v)),
            Err(e) => Err(e),
        }
    } else if crate::json::str_eq(tag.as_str(), "translation_files") {
        match decode_passport_element_error_translation_files(j) {
            Ok(v) => Ok(PassportElementError::PassportElementErrorTranslationFiles(v)),
            Err(e) => Err(e),
        }
    } else if crate::json::str_eq(tag.as_str(), "unspecified") {
        match decode_passport_element_error_unspecified(j) {
            Ok(v) => Ok(PassportElementError::PassportElementErrorUnspecified(v)),
            Err(e) => Err(e),
        }
    } else {
        Err(DecodeError::UnknownTag { family: String::from_str("PassportElementError"), tag })
    }
}

/// Reveals every tag of the family and pins the characters that tell
/// same-length tags apart.
proof fn passport_tags_facts()
    ensures
        "data"@.len() == 4,
        "front_side"@.len() == 10,
        "reverse_side"@.len() == 12,
        "selfie"@.len() == 6,
        "file"@.len() == 4,
        "files"@.len() == 5,
        "translation_file"@.len() == 16,
        "translation_files"@.len() == 17,
        "unspecified"@.len() == 11,
        "data"@[0] == 'd' && "file"@[0] == 'f',
{
    reveal_strlit("type");
    reveal_strlit("data");
    reveal_strlit("front_side");
    reveal_strlit("reverse_side");
    reveal_strlit("selfie");
    reveal_strlit("file");
    reveal_strlit("files");
    reveal_strlit("translation_file");
    reveal_strlit("translation_files");
    reveal_strlit("unspecified");
}

/// Decoding undoes encoding, for every member of the family.
#[verifier::rlimit(100)]
#[verifier::spinoff_prover]
pub proof fn lemma_passport_element_error_round_trip(m: PassportElementErrorView)
    ensures
        sdec_passport_element_error(senc_passport_element_error(m)) == Ok::<
            PassportElementErrorView,
            DecodeErrorView,
        >(m),
{
    passport_tags_facts();
    match m {
        PassportElementErrorView::PassportElementErrorDataField(v) => {
            lemma_passport_element_error_data_field_tag(v);
            lemma_passport_element_error_data_field_round_trip(v);
        },
        PassportElementErrorView::PassportElementErrorFrontSide(v) => {
            lemma_passport_element_error_front_side_tag(v);
            lemma_passport_element_error_front_side_round_trip(v);
        },
        PassportElementErrorView::PassportElementErrorReverseSide(v) => {
            lemma_passport_element_error_reverse_side_tag(v);
            lemma_passport_element_error_reverse_side_round_trip(v);
        },
        PassportElementErrorView::PassportElementErrorSelfie(v) => {
            lemma_passport_element_error_selfie_tag(v);
            lemma_passport_element_error_selfie_round_trip(v);
        },
        PassportElementErrorView::PassportElementErrorFile(v) => {
            lemma_passport_element_error_file_tag(v);
            lemma_passport_element_error_file_round_trip(v);
        },
        PassportElementErrorView::PassportElementErrorFiles(v) => {
            lemma_passport_element_error_files_tag(v);
            lemma_passport_element_error_files_round_trip(v);
        },
        PassportElementErrorView::PassportElementErrorTranslationFile(v) => {
            lemma_passport_element_error_translation_file_tag(v);
            lemma_passport_element_error_translation_file_round_trip(v);
        },
        PassportElementErrorView::PassportElementErrorTranslationFiles(v) => {
            lemma_passport_element_error_translation_files_tag(v);
            lemma_passport_element_error_translation_files_round_trip(v);
        },
        PassportElementErrorView::PassportElementErrorUnspecified(v) => {
            lemma_passport_element_error_unspecified_tag(v);
            lemma_passport_element_error_unspecified_round_trip(v);
        },
    }
}

/// A tag outside the closed table is rejected by name, never resolved
/// to a fallback member.
pub proof fn lemma_passport_element_error_unknown_tag(j: JsonSpec, tag: Seq<char>)
    requires
        sreq_str(j, "type"@) == Ok::<Seq<char>, DecodeErrorView>(tag),
        tag != "data"@,
        tag != "front_side"@,
        tag != "reverse_side"@,
        tag != "selfie"@,
        tag != "file"@,
        tag != "files"@,
        tag != "translation_file"@,
        tag != "translation_files"@,
        tag != "unspecified"@,
    ensures
        sdec_passport_element_error(j) == Err::<PassportElementErrorView, DecodeErrorView>(
            DecodeErrorView::UnknownTag { family: "PassportElementError"@, tag },
        ),
{
}

} // verus!
