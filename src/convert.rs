use vstd::prelude::*;
use crate::engine::{converted, engine_builds, ConvertError, Converter};
use crate::profile::{profile_for, s2t_tag, select_profile, t2s_tag, ConversionProfile};

verus! {

/// What converting `text` under the configuration tag `tag` yields: the
/// engine output of the profile that the tag selects.
pub open spec fn convert_text_spec(text: Seq<char>, tag: Seq<char>) -> Seq<char> {
    converted(profile_for(tag), text)
}

/// Converts `text` in the direction that the configuration tag `config`
/// selects (`"t2s"`: Traditional to Simplified; anything else: Simplified to
/// Traditional). It succeeds exactly when the engine of the selected profile
/// builds; otherwise the failure is reported as an error.
pub fn convert_text(text: &str, config: &str) -> (r: Result<String, ConvertError>)
    ensures
        r is Ok <==> engine_builds(profile_for(config@)),
        r matches Ok(s) ==> s@ == convert_text_spec(text@, config@),
        r matches Ok(s) ==> (text@.len() == 0 ==> s@.len() == 0),
        r matches Err(e) ==> e == ConvertError::ConverterConstructionFailed,
{
    let profile = select_profile(config);
    match Converter::new(profile) {
        Ok(converter) => Ok(converter.convert(text)),
        Err(e) => Err(e),
    }
}

/// The tag `"s2t"` converts any text from Simplified to Traditional script.
pub proof fn s2t_tag_converts_simplified_to_traditional(text: Seq<char>)
    ensures
        profile_for(s2t_tag()) == ConversionProfile::SimplifiedToTraditional,
        convert_text_spec(text, s2t_tag()) == converted(
            ConversionProfile::SimplifiedToTraditional,
            text,
        ),
{
    assert(s2t_tag()[0] != t2s_tag()[0]);
}

/// The tag `"t2s"` converts any text from Traditional to Simplified script.
pub proof fn t2s_tag_converts_traditional_to_simplified(text: Seq<char>)
    ensures
        profile_for(t2s_tag()) == ConversionProfile::TraditionalToSimplified,
        convert_text_spec(text, t2s_tag()) == converted(
            ConversionProfile::TraditionalToSimplified,
            text,
        ),
{
}

/// Every tag other than `"t2s"`, unrecognised ones included, falls back to
/// converting from Simplified to Traditional script: such tags select the
/// same profile, so they succeed or fail together and give the same text.
pub proof fn other_tags_default_to_simplified_to_traditional(text: Seq<char>, tag: Seq<char>)
    requires
        tag != t2s_tag(),
    ensures
        profile_for(tag) == ConversionProfile::SimplifiedToTraditional,
        convert_text_spec(text, tag) == converted(ConversionProfile::SimplifiedToTraditional, text),
{
}

/// The outcome depends on the text and on whether the tag is exactly `"t2s"`
/// alone: two tags that agree on that select the same profile, so the calls
/// succeed or fail together and give the same text.
pub proof fn outcome_depends_only_on_t2s_choice(text: Seq<char>, a: Seq<char>, b: Seq<char>)
    requires
        (a == t2s_tag()) == (b == t2s_tag()),
    ensures
        profile_for(a) == profile_for(b),
        engine_builds(profile_for(a)) == engine_builds(profile_for(b)),
        convert_text_spec(text, a) == convert_text_spec(text, b),
{
}

} // verus!
