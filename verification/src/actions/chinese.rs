//! Conversion between the two scripts of Chinese.

use vstd::prelude::*;
use vstd::string::*;

use crate::settings::AppSettings;
use crate::text::{optional_text, same};

verus! {

/// A conversion that OpenCC has built in.
#[derive(Clone, Copy, Debug, PartialEq, Eq, Structural)]
pub enum Conversion {
    /// Traditional Chinese of Taiwan to Simplified Chinese, with vocabulary.
    Tw2sp,
    /// Simplified Chinese to Traditional Chinese of Taiwan, with vocabulary.
    S2twp,
}

#[verifier::external_type_specification]
#[verifier::external_body]
pub struct ExOpenCC(ferrous_opencc::OpenCC);

#[verifier::external_type_specification]
#[verifier::external_body]
pub struct ExOpenCCError(ferrous_opencc::error::OpenCCError);

/// The built-in conversion that a converter was made for; `None` for a converter
/// that was made for none of these.
pub uninterp spec fn converter_conversion(converter: ferrous_opencc::OpenCC) -> Option<Conversion>;

/// What a built-in conversion of OpenCC makes of a text.
pub uninterp spec fn opencc_text(conversion: Conversion, text: Seq<char>) -> Seq<char>;

/// `ferrous_opencc::OpenCC::from_config`: a converter for the conversion. It
/// reads dictionaries that are part of the program, and checks how they lie in
/// memory; that it succeeds is not claimed.
#[verifier::external_body]
fn open_converter(conversion: Conversion) -> (r: Result<
    ferrous_opencc::OpenCC,
    ferrous_opencc::error::OpenCCError,
>)
    ensures
        r matches Ok(converter) ==> converter_conversion(converter) == Some(conversion),
{
    ferrous_opencc::OpenCC::from_config(
        match conversion {
            Conversion::Tw2sp => ferrous_opencc::config::BuiltinConfig::Tw2sp,
            Conversion::S2twp => ferrous_opencc::config::BuiltinConfig::S2twp,
        },
    )
}

/// `ferrous_opencc::OpenCC::convert`: the result of a converter for a built-in
/// conversion depends on the conversion and on the text alone. Of any other
/// converter nothing is claimed.
#[verifier::external_body]
fn convert(converter: &ferrous_opencc::OpenCC, text: &str) -> (r: String)
    ensures
        converter_conversion(*converter) matches Some(conversion) ==> r@ == opencc_text(
            conversion,
            text@,
        ),
{
    converter.convert(text)
}

/// The conversion that a language setting calls for.
pub open spec fn conversion_for(language: Seq<char>) -> Option<Conversion> {
    if language == "zh-Hans"@ {
        Some(Conversion::Tw2sp)
    } else if language == "zh-Hant"@ {
        Some(Conversion::S2twp)
    } else {
        None
    }
}

/// The conversion that a language setting calls for.
pub fn chinese_conversion(language: &str) -> (r: Option<Conversion>)
    ensures
        r == conversion_for(language@),
{
    if same(language, "zh-Hans") {
        Some(Conversion::Tw2sp)
    } else if same(language, "zh-Hant") {
        Some(Conversion::S2twp)
    } else {
        None
    }
}

/// What can come of converting a text under a language setting: where it names
/// no script nothing does, and where it does, a conversion that succeeds is the
/// one it calls for.
pub open spec fn conversion_outcome(
    language: Seq<char>,
    text: Seq<char>,
    outcome: Option<Seq<char>>,
) -> bool {
    outcome matches Some(converted) ==> {
        &&& conversion_for(language) is Some
        &&& converted == opencc_text(conversion_for(language)->0, text)
    }
}

/// Converts a transcription with a converter that was to be opened: a converter
/// that could not be opened converts nothing, and any other converts.
pub fn convert_with(
    opened: Result<ferrous_opencc::OpenCC, ferrous_opencc::error::OpenCCError>,
    transcription: &str,
) -> (r: Option<String>)
    ensures
        r is Some <==> opened is Ok,
        opened matches Ok(converter) ==> (converter_conversion(converter) matches Some(conversion)
            ==> optional_text(r) == Some(opencc_text(conversion, transcription@))),
{
    match opened {
        Ok(converter) => Some(convert(&converter, transcription)),
        Err(_) => None,
    }
}

/// Converts a transcription to the script of Chinese that the language setting
/// names. `None` where it names none, or where no converter is to be had.
pub fn maybe_convert_chinese_variant(settings: &AppSettings, transcription: &str) -> (r: Option<
    String,
>)
    ensures
        conversion_outcome(settings.selected_language@, transcription@, optional_text(r)),
{
    match chinese_conversion(settings.selected_language.as_str()) {
        Some(conversion) => convert_with(open_converter(conversion), transcription),
        None => None,
    }
}

/// Simplified Chinese is had from the Traditional Chinese of Taiwan, and
/// Traditional Chinese from the Simplified. No other language converts anything.
pub proof fn law_scripts_are_converted_to_the_one_wanted(
    language: Seq<char>,
    text: Seq<char>,
    outcome: Option<Seq<char>>,
)
    requires
        conversion_outcome(language, text, outcome),
    ensures
        language != "zh-Hans"@ && language != "zh-Hant"@ ==> outcome is None,
        language == "zh-Hans"@ && outcome is Some ==> outcome == Some(
            opencc_text(Conversion::Tw2sp, text),
        ),
        language == "zh-Hant"@ && outcome is Some ==> outcome == Some(
            opencc_text(Conversion::S2twp, text),
        ),
        conversion_for("zh-Hans"@) == Some(Conversion::Tw2sp),
        conversion_for("zh-Hant"@) == Some(Conversion::S2twp),
{
    reveal_strlit("zh-Hans");
    reveal_strlit("zh-Hant");
    assert("zh-Hans"@[4] != "zh-Hant"@[4] || "zh-Hans"@[6] != "zh-Hant"@[6]);
}

} // verus!
