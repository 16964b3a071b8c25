//! Small general-purpose helpers shared by the display side of the program.
use vstd::prelude::*;

use crate::text::{chars_of, push_range};

verus! {

/// An error met by the general-purpose utilities.
#[derive(Clone, Debug)]
pub enum UtilsError {
    LoggingError(String),
    IoError(String),
}

/// The string cut down to at most `max_width` characters, with a trailing
/// ellipsis when something was cut.
pub open spec fn truncate_spec(s: Seq<char>, max_width: int) -> Seq<char> {
    if s.len() <= max_width {
        s
    } else {
        s.subrange(0, max_width - 3) + "..."@
    }
}

/// String helpers for terminal display.
pub struct StringUtils;

impl StringUtils {
    /// Cuts a string down to `max_width` characters, marking the cut with
    /// a trailing ellipsis.
    pub fn truncate(s: &str, max_width: usize) -> (r: String)
        requires
            s@.len() <= max_width || max_width >= 3,
        ensures
            r@ == truncate_spec(s@, max_width as int),
    {
        let n = s.unicode_len();
        if n <= max_width {
            s.to_owned()
        } else {
            let v = chars_of(s);
            let mut out = String::new();
            push_range(&mut out, &v, 0, max_width - 3);
            out.append("...");
            assert(out@ =~= truncate_spec(s@, max_width as int));
            out
        }
    }
}

} // verus!
