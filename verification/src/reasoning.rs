//! Reasoning items of a response, collected over the events that describe them.

use vstd::prelude::*;

use crate::failure::owned_chars;
use crate::json::{as_text, text_of, Json, JsonValue};

verus! {

/// What the events have said so far of one reasoning item.
#[derive(Debug)]
pub struct PendingReasoning {
    pub id: Option<String>,
    pub encrypted_content: Option<String>,
}

/// What it takes to hand a reasoning item back in a later request.
#[derive(Debug, PartialEq, Eq)]
pub struct ReasoningReplay {
    pub id: String,
    pub encrypted_content: String,
}

/// What a `PendingReasoning` stands for.
pub struct Pending {
    pub id: Option<Seq<char>>,
    pub encrypted_content: Option<Seq<char>>,
}

impl View for PendingReasoning {
    type V = Pending;

    open spec fn view(&self) -> Pending {
        Pending {
            id: owned_chars(self.id),
            encrypted_content: owned_chars(self.encrypted_content),
        }
    }
}

/// Nothing said yet.
pub open spec fn nothing_pending() -> Pending {
    Pending { id: None, encrypted_content: None }
}

/// The later of two statements, where there is one.
pub open spec fn latest(before: Option<Seq<char>>, said: Option<Seq<char>>) -> Option<Seq<char>> {
    if said is Some {
        said
    } else {
        before
    }
}

impl Pending {
    /// What is known once an item has been seen: what the item says, and what was known before
    /// where the item says nothing.
    pub open spec fn captured(self, item: Json) -> Pending {
        Pending {
            id: latest(self.id, text_of(item.get("id"@))),
            encrypted_content: latest(
                self.encrypted_content,
                text_of(item.get("encrypted_content"@)),
            ),
        }
    }

    /// Whether enough is known to hand the item back.
    pub open spec fn replayable(self) -> bool {
        self.id is Some && self.encrypted_content is Some
    }
}

impl PendingReasoning {
    /// Nothing said yet.
    pub fn new() -> (pending: PendingReasoning)
        ensures
            pending@ == nothing_pending(),
    {
        PendingReasoning { id: None, encrypted_content: None }
    }

    /// Takes over what an item says.
    pub fn capture(&mut self, item: &JsonValue)
        ensures
            final(self)@ == old(self)@.captured(item@),
    {
        match as_text(item.get("id")) {
            Some(id) => {
                self.id = Some(id.to_owned());
            },
            None => {},
        }
        match as_text(item.get("encrypted_content")) {
            Some(content) => {
                self.encrypted_content = Some(content.to_owned());
            },
            None => {},
        }
    }

    /// What it takes to hand the item back, once that is known.
    pub fn replay(&self) -> (replay: Option<ReasoningReplay>)
        ensures
            replay is Some <==> self@.replayable(),
            replay matches Some(replay) ==> Some(replay.id@) == self@.id && Some(
                replay.encrypted_content@,
            ) == self@.encrypted_content,
    {
        match (&self.id, &self.encrypted_content) {
            (Some(id), Some(content)) => Some(
                ReasoningReplay { id: id.clone(), encrypted_content: content.clone() },
            ),
            _ => None,
        }
    }
}

} // verus!
