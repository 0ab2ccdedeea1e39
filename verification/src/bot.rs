// What the bot's command hooks answer in a chat.
use vstd::prelude::*;

use crate::text::{decimal, decimal_string};

verus! {

/// What the bot says when a user is rate limited for `seconds` seconds.
pub fn rate_limited_message(seconds: u64) -> (s: String)
    ensures
        s@ == "Error: Rate Limited! "@ + decimal(seconds as nat) + "s"@,
{
    let mut s = String::from_str("Error: Rate Limited! ");
    let n = decimal_string(seconds);
    s.append(n.as_str());
    s.append("s");
    s
}

} // verus!
