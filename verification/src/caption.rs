//! Caption formatting for notifications and snapshot replies: a title in
//! upper case, the camera's name, the event time, and — for the duration
//! variant — the detection length in seconds.

use crate::text::dec_of_int;
use vstd::prelude::*;

verus! {

/// What str::to_uppercase returns for this character sequence.
pub uninterp spec fn upper_of(s: Seq<char>) -> Seq<char>;

/// Relies on str::to_uppercase: the Unicode uppercase mapping, a function
/// of the characters alone; an empty string stays empty.
#[verifier::external_body]
pub(crate) fn to_uppercase_string(s: &str) -> (r: String)
    ensures
        r@ == upper_of(s@),
        s@.len() == 0 ==> r@.len() == 0,
{
    s.to_uppercase()
}

/// The caption sent with a notification or snapshot: title line, camera
/// line, time line.
pub open spec fn caption_of(title_upper: Seq<char>, name: Seq<char>, time_text: Seq<char>) -> Seq<
    char,
> {
    "\n"@ + title_upper + "\nCamera:"@ + name + "\nTime: "@ + time_text
}

/// Builds the caption from the rendered event time.
pub fn make_caption(title: &str, name: &str, time_text: &str) -> (r: String)
    ensures
        r@ == caption_of(upper_of(title@), name@, time_text@),
{
    let mut out = String::from_str("\n");
    out.append(to_uppercase_string(title).as_str());
    out.append("\nCamera:");
    out.append(name);
    out.append("\nTime: ");
    out.append(time_text);
    proof {
        assert(out@ =~= caption_of(upper_of(title@), name@, time_text@));
    }
    out
}

/// The caption variant carrying a detection duration in seconds.
pub open spec fn duration_caption_of(name: Seq<char>, time_text: Seq<char>, duration: int) -> Seq<
    char,
> {
    "\n"@ + name + "\nTime: "@ + time_text + "\nDuration: "@ + dec_of_int(duration) + "s"@
}

/// Builds the duration-bearing caption.
pub fn make_duration_caption(camera_name: &str, time_text: &str, duration: i64) -> (r: String)
    ensures
        r@ == duration_caption_of(camera_name@, time_text@, duration as int),
{
    let mut out = String::from_str("\n");
    out.append(camera_name);
    out.append("\nTime: ");
    out.append(time_text);
    out.append("\nDuration: ");
    out.append(crate::text::i64_to_string(duration).as_str());
    out.append("s");
    proof {
        assert(out@ =~= duration_caption_of(camera_name@, time_text@, duration as int));
    }
    out
}

} // verus!
