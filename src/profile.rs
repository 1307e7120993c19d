use vstd::prelude::*;
use vstd::string::StrSliceExecFns;

verus! {

/// A built-in conversion direction.
#[derive(Clone, Copy, Debug, PartialEq, Eq, Structural)]
pub enum ConversionProfile {
    /// Simplified script to Traditional script.
    SimplifiedToTraditional,
    /// Traditional script to Simplified script.
    TraditionalToSimplified,
}

/// The tag that names the Traditional to Simplified direction.
pub open spec fn t2s_tag() -> Seq<char> {
    seq!['t', '2', 's']
}

/// The tag that names the Simplified to Traditional direction.
pub open spec fn s2t_tag() -> Seq<char> {
    seq!['s', '2', 't']
}

/// The profile that a configuration tag selects: `"t2s"` selects
/// Traditional to Simplified, and every other tag, `"s2t"` and
/// unrecognised ones alike, falls back to Simplified to Traditional.
pub open spec fn profile_for(tag: Seq<char>) -> ConversionProfile {
    if tag == t2s_tag() {
        ConversionProfile::TraditionalToSimplified
    } else {
        ConversionProfile::SimplifiedToTraditional
    }
}

/// Selects the conversion profile for a configuration tag.
pub fn select_profile(config: &str) -> (p: ConversionProfile)
    ensures
        p == profile_for(config@),
{
    let n = config.unicode_len();
    if n == 3 && config.get_char(0) == 't' && config.get_char(1) == '2' && config.get_char(2)
        == 's' {
        assert(config@ =~= t2s_tag());
        ConversionProfile::TraditionalToSimplified
    } else {
        assert(config@ != t2s_tag()) by {
            if config@ == t2s_tag() {
                assert(config@[0] == 't' && config@[1] == '2' && config@[2] == 's');
            }
        }
        ConversionProfile::SimplifiedToTraditional
    }
}

} // verus!
