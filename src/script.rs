//! Optional conversion between Simplified and Traditional Chinese script,
//! selected by the configured locale.
use vstd::prelude::*;
use crate::text::same_text;
use ferrous_opencc::config::BuiltinConfig;

verus! {

#[verifier::external_type_specification]
#[verifier::external_body]
pub struct ExOpenCC(ferrous_opencc::OpenCC);

#[verifier::external_type_specification]
#[verifier::external_body]
pub struct ExOpenCCError(ferrous_opencc::error::OpenCCError);

/// The script a Chinese locale asks for.
#[derive(Clone, Copy, Debug, PartialEq, Eq, Structural)]
pub enum ScriptVariant {
    /// `zh-Hans`: Traditional (Taiwan) input is turned into Simplified.
    Simplified,
    /// `zh-Hant`: Simplified input is turned into Traditional (Taiwan).
    Traditional,
}

/// The script variant a locale selects; other locales select none.
pub open spec fn variant_of(language: Seq<char>) -> Option<ScriptVariant> {
    if language == "zh-Hans"@ {
        Some(ScriptVariant::Simplified)
    } else if language == "zh-Hant"@ {
        Some(ScriptVariant::Traditional)
    } else {
        None
    }
}

/// The file name of the converter's built-in configuration for a variant:
/// `BuiltinConfig::Tw2sp` for Simplified, `BuiltinConfig::S2twp` for
/// Traditional.
pub open spec fn config_name_of(variant: ScriptVariant) -> Seq<char> {
    match variant {
        ScriptVariant::Simplified => "tw2sp.json"@,
        ScriptVariant::Traditional => "s2twp.json"@,
    }
}

/// Whether the converter's built-in configuration of the given file name
/// loads. It is read from data embedded in the converter, so it depends on
/// the configuration alone.
pub uninterp spec fn converter_loads(config: Seq<char>) -> bool;

/// What the converter loaded from the named built-in configuration makes of
/// a text.
pub uninterp spec fn script_converted(config: Seq<char>, s: Seq<char>) -> Seq<char>;

/// A loaded converter, together with the variant it was loaded for.
pub struct ScriptConverter {
    variant: ScriptVariant,
    engine: ferrous_opencc::OpenCC,
}

impl ScriptConverter {
    pub closed spec fn variant(&self) -> ScriptVariant {
        self.variant
    }
}

/// Relies on `ferrous_opencc::OpenCC::from_config`: loads the built-in
/// configuration `config_name_of(variant)` from embedded data, so success
/// depends on the configuration alone.
#[verifier::external_body]
fn load_converter(variant: ScriptVariant) -> (r: Result<ferrous_opencc::OpenCC, ferrous_opencc::error::OpenCCError>)
    ensures
        r is Ok == converter_loads(config_name_of(variant)),
{
    ferrous_opencc::OpenCC::from_config(
        match variant {
            ScriptVariant::Simplified => BuiltinConfig::Tw2sp,
            ScriptVariant::Traditional => BuiltinConfig::S2twp,
        },
    )
}

/// Relies on `ferrous_opencc::OpenCC::convert`: the converted text depends on
/// the loaded configuration and the input alone.
#[verifier::external_body]
fn run_converter(converter: &ScriptConverter, input: &str) -> (r: String)
    ensures
        r@ == script_converted(config_name_of(converter.variant()), input@),
{
    converter.engine.convert(input)
}

/// The variant a locale selects.
pub fn script_variant(language: &str) -> (r: Option<ScriptVariant>)
    ensures
        r == variant_of(language@),
{
    if same_text(language, "zh-Hans") {
        Some(ScriptVariant::Simplified)
    } else if same_text(language, "zh-Hant") {
        Some(ScriptVariant::Traditional)
    } else {
        None
    }
}

/// The text the locale's conversion gives, if the locale asks for one and
/// its converter loads.
pub open spec fn conversion_of(language: Seq<char>, s: Seq<char>) -> Option<Seq<char>> {
    match variant_of(language) {
        Some(v) => if converter_loads(config_name_of(v)) {
            Some(script_converted(config_name_of(v), s))
        } else {
            None
        },
        None => None,
    }
}

/// The text after the optional script conversion: converted where a
/// conversion applies and works, the input unchanged otherwise.
pub open spec fn text_after_conversion(language: Seq<char>, s: Seq<char>) -> Seq<char> {
    match conversion_of(language, s) {
        Some(c) => c,
        None => s,
    }
}

/// Converts a transcription to the locale's Chinese script. `None` when the
/// locale selects no Chinese script, or when the converter fails to load.
pub fn maybe_convert_chinese_variant(language: &str, transcription: &str) -> (r: Option<String>)
    ensures
        match r {
            Some(c) => conversion_of(language@, transcription@) == Some(c@),
            None => conversion_of(language@, transcription@) is None,
        },
{
    let variant = match script_variant(language) {
        Some(v) => v,
        None => return None,
    };
    match load_converter(variant) {
        Ok(engine) => {
            let converter = ScriptConverter { variant, engine };
            Some(run_converter(&converter, transcription))
        },
        Err(_) => None,
    }
}

/// The text to carry on with once the conversion was tried: the converted
/// text if there is one, the unconverted text otherwise.
pub fn apply_conversion(unconverted: String, converted: Option<String>) -> (r: String)
    ensures
        r@ == match converted {
            Some(c) => c@,
            None => unconverted@,
        },
{
    match converted {
        Some(c) => c,
        None => unconverted,
    }
}

/// Converts a transcription where the locale asks for it, and leaves it
/// unchanged where it does not or where conversion fails.
pub fn convert_script(language: &str, transcription: String) -> (r: String)
    ensures
        r@ == text_after_conversion(language@, transcription@),
{
    let converted = maybe_convert_chinese_variant(language, transcription.as_str());
    apply_conversion(transcription, converted)
}

/// Selecting the Simplified locale converts with the Simplified converter;
/// a converter that fails to load leaves the text exactly as it was.
pub proof fn lemma_conversion_or_unchanged(language: Seq<char>, s: Seq<char>)
    ensures
        variant_of(language) == Some(ScriptVariant::Simplified) && converter_loads("tw2sp.json"@)
            ==> text_after_conversion(language, s) == script_converted("tw2sp.json"@, s),
        (variant_of(language) is None || !converter_loads(config_name_of(variant_of(language)->0)))
            ==> text_after_conversion(language, s) == s,
{
}

} // verus!
