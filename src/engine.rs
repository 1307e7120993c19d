use vstd::prelude::*;
use ferrous_opencc::config::BuiltinConfig;
use ferrous_opencc::error::OpenCCError;
use ferrous_opencc::OpenCC;
use crate::profile::ConversionProfile;

verus! {

#[verifier::external_type_specification]
#[verifier::external_body]
pub struct ExOpenCC(OpenCC);

#[verifier::external_type_specification]
#[verifier::external_body]
pub struct ExOpenCCError(OpenCCError);

/// The text that the dictionary engine of a profile makes of `text`.
pub uninterp spec fn converted(profile: ConversionProfile, text: Seq<char>) -> Seq<char>;

/// Whether the dictionary engine of a profile builds from the configuration
/// and dictionaries compiled into the engine crate.
pub uninterp spec fn engine_builds(profile: ConversionProfile) -> bool;

/// Why a conversion could not be carried out.
#[derive(Clone, Copy, Debug, PartialEq, Eq, Structural)]
pub enum ConvertError {
    /// The dictionary engine for the profile could not be built.
    ConverterConstructionFailed,
}

/// A dictionary engine together with the profile it was built for.
pub struct Converter {
    profile: ConversionProfile,
    engine: OpenCC,
}

/// Relies on `OpenCC::from_config`: builds the engine of the built-in
/// configuration `s2t` or `t2s`, or fails with the engine's error. It reads
/// only data compiled into the engine crate, so whether it succeeds depends
/// on the profile alone.
#[verifier::external_body]
fn open_engine(profile: ConversionProfile) -> (r: Result<OpenCC, OpenCCError>)
    ensures
        r is Ok <==> engine_builds(profile),
{
    let config = match profile {
        ConversionProfile::SimplifiedToTraditional => BuiltinConfig::S2t,
        ConversionProfile::TraditionalToSimplified => BuiltinConfig::T2s,
    };
    OpenCC::from_config(config)
}

/// Relies on `OpenCC::convert`: the engine's output depends on its profile
/// and the text alone, and empty text comes back empty. The engine of a
/// `Converter` was built by `open_engine` for `c.profile`: `Converter::new`
/// is the only place that makes one, and its fields are private.
#[verifier::external_body]
fn run_engine(c: &Converter, text: &str) -> (r: String)
    ensures
        r@ == converted(c.profile, text@),
        text@.len() == 0 ==> r@.len() == 0,
{
    c.engine.convert(text)
}

impl Converter {
    /// The profile this converter was built for.
    pub closed spec fn spec_profile(&self) -> ConversionProfile {
        self.profile
    }

    /// Builds the converter of a profile. It is built exactly when the
    /// profile's dictionary engine builds.
    pub fn new(profile: ConversionProfile) -> (r: Result<Converter, ConvertError>)
        ensures
            r is Ok <==> engine_builds(profile),
            r matches Ok(c) ==> c.spec_profile() == profile,
            r matches Err(e) ==> e == ConvertError::ConverterConstructionFailed,
    {
        match open_engine(profile) {
            Ok(engine) => Ok(Converter { profile, engine }),
            Err(_) => Err(ConvertError::ConverterConstructionFailed),
        }
    }

    /// The profile this converter was built for.
    pub fn profile(&self) -> (p: ConversionProfile)
        ensures
            p == self.spec_profile(),
    {
        self.profile
    }

    /// Converts `text` with this converter's profile.
    pub fn convert(&self, text: &str) -> (r: String)
        ensures
            r@ == converted(self.spec_profile(), text@),
            text@.len() == 0 ==> r@.len() == 0,
    {
        run_engine(self, text)
    }
}

} // verus!
