use vstd::prelude::*;

use crate::text::str_eq;

verus! {

/// The text shown for the interface key `key`; a key without a text is shown
/// as it is.
pub open spec fn locale_spec(key: Seq<char>) -> Seq<char> {
    if key == "sysenix"@ {
        "Sysenix"@
    } else if key == "ask_sysenix"@ {
        "Ask Sysenix..."@
    } else if key == "quit"@ {
        "Quit"@
    } else if key == "conversations_started"@ {
        "Sysenix — type your request, Enter to send, Ctrl+C to quit\n"@
    } else if key == "you"@ {
        "You: "@
    } else if key == "thinking"@ {
        "Sysenix: thinking..."@
    } else {
        key
    }
}

/// Looks up the interface text for `key`.
pub fn t(key: &str) -> (text: &str)
    ensures
        text@ == locale_spec(key@),
{
    if str_eq(key, "sysenix") {
        "Sysenix"
    } else if str_eq(key, "ask_sysenix") {
        "Ask Sysenix..."
    } else if str_eq(key, "quit") {
        "Quit"
    } else if str_eq(key, "conversations_started") {
        "Sysenix — type your request, Enter to send, Ctrl+C to quit\n"
    } else if str_eq(key, "you") {
        "You: "
    } else if str_eq(key, "thinking") {
        "Sysenix: thinking..."
    } else {
        key
    }
}

/// A text is never itself a key: looking up what a lookup gave back changes
/// nothing.
pub proof fn lemma_locale_idempotent(key: Seq<char>)
    ensures
        locale_spec(locale_spec(key)) == locale_spec(key),
{
    reveal_strlit("sysenix");
    reveal_strlit("ask_sysenix");
    reveal_strlit("quit");
    reveal_strlit("conversations_started");
    reveal_strlit("you");
    reveal_strlit("thinking");
    reveal_strlit("Sysenix");
    reveal_strlit("Ask Sysenix...");
    reveal_strlit("Quit");
    reveal_strlit("Sysenix — type your request, Enter to send, Ctrl+C to quit\n");
    reveal_strlit("You: ");
    reveal_strlit("Sysenix: thinking...");
}

} // verus!
