//! What the user may write where a service is asked for.

use vstd::prelude::*;
use crate::text::{ascii_lowered, chars_of, lowered, same_text, string_of};

verus! {

/// Which service an operation is meant for.
#[derive(Debug, PartialEq, Eq)]
pub enum ServiceSelector {
    /// The only service there is.
    Auto,
    /// Every service; no operation accepts it.
    All,
    /// The one that the user picks when asked.
    Interactive,
    /// The one of this name, written with or without the family prefix.
    Custom(String),
}

/// What a `ServiceSelector` stands for.
pub enum SelectorModel {
    Auto,
    All,
    Interactive,
    Custom(Seq<char>),
}

impl View for ServiceSelector {
    type V = SelectorModel;

    open spec fn view(&self) -> SelectorModel {
        match self {
            ServiceSelector::Auto => SelectorModel::Auto,
            ServiceSelector::All => SelectorModel::All,
            ServiceSelector::Interactive => SelectorModel::Interactive,
            ServiceSelector::Custom(name) => SelectorModel::Custom(name@),
        }
    }
}

/// The view of an optional selector.
pub open spec fn selector_view(selector: Option<ServiceSelector>) -> Option<SelectorModel> {
    match selector {
        Some(s) => Some(s@),
        None => None,
    }
}

/// The selector that `input` spells. The three keywords count in any mix of
/// ASCII capitals and small letters; anything else is a name, kept as
/// written.
pub open spec fn selector_of(input: Seq<char>) -> SelectorModel {
    let low = ascii_lowered(input);
    if low == "auto"@ {
        SelectorModel::Auto
    } else if low == "all"@ {
        SelectorModel::All
    } else if low == "interactive"@ {
        SelectorModel::Interactive
    } else {
        SelectorModel::Custom(input)
    }
}

/// How a selector is written out.
pub open spec fn selector_text(selector: SelectorModel) -> Seq<char> {
    match selector {
        SelectorModel::Auto => "auto"@,
        SelectorModel::All => "all"@,
        SelectorModel::Interactive => "interactive"@,
        SelectorModel::Custom(name) => name,
    }
}

/// Writing a selector out and reading it again gives the selector back,
/// unless it is a name that spells a keyword.
pub proof fn lemma_selector_round_trip(selector: SelectorModel)
    requires
        selector matches SelectorModel::Custom(name) ==> selector_of(name) is Custom,
    ensures
        selector_of(selector_text(selector)) == selector,
{
    reveal_strlit("auto");
    reveal_strlit("all");
    reveal_strlit("interactive");
    match selector {
        SelectorModel::Custom(name) => {},
        SelectorModel::Auto => {
            assert(ascii_lowered("auto"@) =~= "auto"@);
        },
        SelectorModel::All => {
            assert(ascii_lowered("all"@) =~= "all"@);
            assert("all"@.len() != "auto"@.len());
        },
        SelectorModel::Interactive => {
            assert(ascii_lowered("interactive"@) =~= "interactive"@);
            assert("interactive"@.len() != "auto"@.len());
            assert("interactive"@.len() != "all"@.len());
        },
    }
}

impl ServiceSelector {
    /// The selector that `input` spells.
    pub fn parse(input: &str) -> (out: ServiceSelector)
        ensures
            out@ == selector_of(input@),
    {
        let chars = chars_of(input);
        let low = lowered(chars.as_slice());
        let auto = chars_of("auto");
        let all = chars_of("all");
        let interactive = chars_of("interactive");
        if same_text(low.as_slice(), auto.as_slice()) {
            ServiceSelector::Auto
        } else if same_text(low.as_slice(), all.as_slice()) {
            ServiceSelector::All
        } else if same_text(low.as_slice(), interactive.as_slice()) {
            ServiceSelector::Interactive
        } else {
            ServiceSelector::Custom(string_of(chars.as_slice()))
        }
    }

    /// How the selector is written out.
    pub fn text(&self) -> (out: String)
        ensures
            out@ == selector_text(self@),
    {
        match self {
            ServiceSelector::Auto => string_of(chars_of("auto").as_slice()),
            ServiceSelector::All => string_of(chars_of("all").as_slice()),
            ServiceSelector::Interactive => string_of(chars_of("interactive").as_slice()),
            ServiceSelector::Custom(name) => name.clone(),
        }
    }
}

} // verus!
