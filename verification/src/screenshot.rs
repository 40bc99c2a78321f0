//! When a screenshot is taken, and where it is written.

use crate::text::{decimal, push_decimal};
use vstd::prelude::*;
use vstd::string::*;

verus! {

/// Asks the app to write a screenshot to `filename`.
#[derive(Debug, Clone, PartialEq, Eq)]
pub struct SaveScreenshot {
    pub filename: String,
}

/// The file of the screenshot with number `counter`, below the directory for
/// screenshots.
pub open spec fn screenshot_path_text(counter: nat) -> Seq<char> {
    "target/screenshots/screenshot-"@ + decimal(counter) + ".png"@
}

/// Decides whether the keys ask for a screenshot: some key event came in, a
/// control key is held and S was just pressed. If so, the file for it is
/// numbered with `counter`, which is counted up.
pub fn screenshot_on_keypress(
    num_events: usize,
    control_pressed: bool,
    s_just_pressed: bool,
    counter: &mut u32,
) -> (path: Option<String>)
    requires
        *old(counter) < u32::MAX,
    ensures
        path.is_some() == (num_events > 0 && control_pressed && s_just_pressed),
        path matches Some(file) ==> file@ == screenshot_path_text(*old(counter) as nat),
        *final(counter) == if path.is_some() {
            (*old(counter) + 1) as u32
        } else {
            *old(counter)
        },
{
    if num_events == 0 {
        return None;
    }
    if control_pressed && s_just_pressed {
        let mut path = String::from_str("target/screenshots/screenshot-");
        push_decimal(&mut path, *counter as usize);
        path.append(".png");
        *counter = *counter + 1;
        return Some(path);
    }
    None
}

} // verus!
