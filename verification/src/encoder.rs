//! The arguments that the encoder is run with.

use vstd::prelude::*;
use crate::layout::spec_texts;

verus! {

/// The arguments that make the encoder write the first frame of
/// `display_path`, unscaled and at high quality, to `thumbnail_path`.
pub open spec fn spec_thumbnail_args(display_path: Seq<char>, thumbnail_path: Seq<char>) -> Seq<Seq<char>> {
    seq![
        "-ss"@,
        "0:00:00"@,
        "-i"@,
        display_path,
        "-frames:v"@,
        "1"@,
        "-q:v"@,
        "2"@,
        thumbnail_path,
    ]
}

pub fn thumbnail_args(display_path: &str, thumbnail_path: &str) -> (args: Vec<String>)
    ensures
        spec_texts(args@) == spec_thumbnail_args(display_path@, thumbnail_path@),
{
    let mut args: Vec<String> = Vec::new();
    args.push(String::from_str("-ss"));
    args.push(String::from_str("0:00:00"));
    args.push(String::from_str("-i"));
    args.push(String::from_str(display_path));
    args.push(String::from_str("-frames:v"));
    args.push(String::from_str("1"));
    args.push(String::from_str("-q:v"));
    args.push(String::from_str("2"));
    args.push(String::from_str(thumbnail_path));
    assert(spec_texts(args@) =~= spec_thumbnail_args(display_path@, thumbnail_path@));
    args
}

} // verus!
