//! The two kinds of option and their spelling.

use vstd::prelude::*;
use vstd::string::StrSliceExecFns;
use crate::error::PricingError;

verus! {

/// The payoff an option has at expiry.
#[derive(Clone, Copy, Debug, PartialEq, Eq, Structural)]
pub enum OptionKind {
    Call,
    Put,
}

impl OptionKind {
    /// How a kind is spelled: lower case, nothing around it.
    pub open spec fn spelling(self) -> Seq<char> {
        match self {
            OptionKind::Call => seq!['c', 'a', 'l', 'l'],
            OptionKind::Put => seq!['p', 'u', 't'],
        }
    }

    /// The kind that a text spells, if it spells one.
    pub open spec fn spelled_by(text: Seq<char>) -> Option<OptionKind> {
        if text == OptionKind::Call.spelling() {
            Some(OptionKind::Call)
        } else if text == OptionKind::Put.spelling() {
            Some(OptionKind::Put)
        } else {
            None
        }
    }

    /// Reads a kind from its spelling. Any other text, a different case or
    /// surrounding blanks included, is an error and never a default.
    pub fn parse(text: &str) -> (r: Result<OptionKind, PricingError>)
        ensures
            r == match OptionKind::spelled_by(text@) {
                Some(kind) => Ok::<OptionKind, PricingError>(kind),
                None => Err(PricingError::InvalidOptionKind),
            },
    {
        let n: usize = text.unicode_len();
        if n == 4 && text.get_char(0) == 'c' && text.get_char(1) == 'a' && text.get_char(2) == 'l'
            && text.get_char(3) == 'l' {
            assert(text@ =~= OptionKind::Call.spelling());
            Ok(OptionKind::Call)
        } else if n == 3 && text.get_char(0) == 'p' && text.get_char(1) == 'u' && text.get_char(2)
            == 't' {
            assert(text@ =~= OptionKind::Put.spelling());
            Ok(OptionKind::Put)
        } else {
            Err(PricingError::InvalidOptionKind)
        }
    }

    /// The spelling of a kind, as `parse` reads it.
    pub fn as_str(self) -> (text: &'static str)
        ensures
            text@ == self.spelling(),
    {
        match self {
            OptionKind::Call => {
                proof {
                    reveal_strlit("call");
                }
                assert("call"@ =~= OptionKind::Call.spelling());
                "call"
            },
            OptionKind::Put => {
                proof {
                    reveal_strlit("put");
                }
                assert("put"@ =~= OptionKind::Put.spelling());
                "put"
            },
        }
    }

    /// Every kind is read back from its own spelling, and the two spellings differ.
    pub proof fn lemma_spelling_round_trip(kind: OptionKind)
        ensures
            OptionKind::spelled_by(kind.spelling()) == Some(kind),
    {
        assert(OptionKind::Put.spelling().len() != OptionKind::Call.spelling().len());
    }
}

} // verus!
