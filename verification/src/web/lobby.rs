//! The form that asks for a new room.

use vstd::prelude::*;
use vstd::string::StringExecFns;

use crate::text::same_text;

verus! {

/// The deck that the form asks for: the one it names, or, where it names
/// `custom`, its own labels after `custom:`. A form that names `custom` and
/// has no labels asks for nothing.
pub open spec fn deck_of(deck: Seq<char>, custom_deck: Option<Seq<char>>) -> Option<Seq<char>> {
    if deck == "custom"@ {
        match custom_deck {
            Some(labels) => Some("custom:"@ + labels),
            None => None,
        }
    } else {
        Some(deck)
    }
}

/// The deck that the form asks for.
pub fn requested_deck(deck: &str, custom_deck: Option<&str>) -> (requested: Option<String>)
    ensures
        requested.deep_view() == deck_of(
            deck@,
            match custom_deck {
                Some(labels) => Some(labels@),
                None => None,
            },
        ),
{
    if same_text(deck, "custom") {
        match custom_deck {
            Some(labels) => {
                let mut requested = String::from_str("custom:");
                requested.append(labels);
                Some(requested)
            },
            None => None,
        }
    } else {
        Some(deck.to_owned())
    }
}

/// The address of a room's page.
pub fn room_url(room_id: &str) -> (url: String)
    ensures
        url@ == "/room/"@ + room_id@,
{
    let mut url = String::from_str("/room/");
    url.append(room_id);
    url
}

} // verus!
