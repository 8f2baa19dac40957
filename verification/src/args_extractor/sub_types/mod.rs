pub mod bool_args_extractor;
pub mod float_args_extractor;
pub mod int_args_extractor;
pub mod set_args_extractor;

use crate::args_extractor::args_extractor::ArgsExtractor;
use crate::args_extractor::sub_types::bool_args_extractor::BoolArgsExtractor;
use crate::args_extractor::sub_types::float_args_extractor::FloatArgsExtractor;
use crate::args_extractor::sub_types::int_args_extractor::IntArgsExtractor;
use crate::args_extractor::sub_types::set_args_extractor::SetArgsExtractor;
use vstd::prelude::*;

verus! {

/// The typed extractors all read arguments with the one general extractor: whichever
/// way each was made, they delegate to the same [`ArgsExtractor`] value, so the methods
/// they share with it give its results.
pub proof fn lemma_typed_extractors_share_base(
    b: BoolArgsExtractor,
    i: IntArgsExtractor,
    f: FloatArgsExtractor,
    s: SetArgsExtractor,
)
    ensures
        b.base() == (ArgsExtractor {}),
        i.base() == (ArgsExtractor {}),
        f.base() == (ArgsExtractor {}),
        s.base() == (ArgsExtractor {}),
{
}

} // verus!
