//! Side of a European option.
use vstd::prelude::*;

verus! {

/// The right a European option grants: to buy (call) or to sell (put).
#[derive(Clone, Copy, Debug, PartialEq, Eq, Structural)]
pub enum OptionType {
    Call,
    Put,
}

/// Contract type word that a market-data feed uses for calls.
pub open spec fn call_word() -> Seq<char> {
    seq!['c', 'a', 'l', 'l']
}

/// Contract type word that a market-data feed uses for puts.
pub open spec fn put_word() -> Seq<char> {
    seq!['p', 'u', 't']
}

impl OptionType {
    /// Reads a feed's contract type: exactly `call` or `put`; any other
    /// word names no option side.
    pub fn from_contract_type(word: &str) -> (r: Option<OptionType>)
        ensures
            r == Some(OptionType::Call) <==> word@ == call_word(),
            r == Some(OptionType::Put) <==> word@ == put_word(),
            r is None <==> (word@ != call_word() && word@ != put_word()),
    {
        let n: usize = word.unicode_len();
        if n == 4 && word.get_char(0) == 'c' && word.get_char(1) == 'a' && word.get_char(2) == 'l'
            && word.get_char(3) == 'l' {
            assert(word@ == call_word());
            Some(OptionType::Call)
        } else if n == 3 && word.get_char(0) == 'p' && word.get_char(1) == 'u' && word.get_char(2)
            == 't' {
            assert(word@ == put_word());
            Some(OptionType::Put)
        } else {
            None
        }
    }
}

} // verus!
