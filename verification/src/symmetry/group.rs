//! The table of space-group symbols and the resolution of group identifiers.
//!
//! A table lists one symbol per space group; the group at index `i` has the
//! number `i + 1`. An identifier is a number of any integer type or a symbol
//! written with any amount of whitespace. Resolving it gives the number of a
//! group of the table, or nothing: an unknown identifier is never replaced by
//! a default, nor a number reduced to fit.

use crate::symmetry::identifier::{IntoSpaceGroupNumber, IntoSpaceGroupSymbol};
use crate::text::{
    lemma_all_whitespace,
    lemma_without_whitespace_fixed,
    remove_whitespace,
    white_space,
    without_whitespace,
};
use vstd::prelude::*;

verus! {

/// The symbols of the space groups, by group number.
pub struct SpaceGroup {
    symbols: Vec<String>,
}

/// Why a list of symbols makes no table.
#[derive(Debug, Clone, Copy, PartialEq, Eq, Structural)]
pub enum TableError {
    /// The text is no JSON array of strings.
    Malformed,
    /// There are more than 255 symbols, so that a group number would not fit
    /// in a byte.
    TooManyGroups,
    /// A symbol occurs twice, so that it would stand for two groups.
    RepeatedSymbol,
}

/// The error with which `serde_json` rejects a text.
#[verifier::external_type_specification]
#[verifier::external_body]
pub struct ExJsonError(serde_json::Error);

/// The list of strings that a text denotes when it is read as JSON, as
/// `serde_json::from_str` reads it into a `Vec<String>`; nothing if the text
/// is rejected.
pub uninterp spec fn json_strings(text: Seq<char>) -> Option<Seq<Seq<char>>>;

/// `serde_json::from_str`, reading a list of strings. What it gives depends
/// on the text alone; the contract gives it the name `json_strings` and
/// claims nothing else of it.
#[verifier::external_body]
fn strings_from_json(text: &str) -> (list: Result<Vec<String>, serde_json::Error>)
    ensures
        match list {
            Ok(strings) => json_strings(text@) == Some(names(strings@)),
            Err(_) => json_strings(text@) is None,
        },
{
    serde_json::from_str(text)
}

/// The symbols held by a list of strings.
pub open spec fn names(symbols: Seq<String>) -> Seq<Seq<char>> {
    symbols.map_values(|s: String| s@)
}

impl View for SpaceGroup {
    type V = Seq<Seq<char>>;

    /// The symbols, the one of group number `n` at index `n - 1`.
    closed spec fn view(&self) -> Seq<Seq<char>> {
        names(self.symbols@)
    }
}

impl SpaceGroup {
    /// The invariant of a table: every group number fits in a byte, and no
    /// symbol stands for two groups.
    pub open spec fn wf(&self) -> bool {
        &&& self@.len() <= 255
        &&& self@.no_duplicates()
    }

    /// The number `n` as a group number of this table, if the table has a
    /// group of that number.
    pub open spec fn valid_number(&self, n: int) -> Option<u8> {
        if 1 <= n <= self@.len() {
            Some(n as u8)
        } else {
            None
        }
    }

    /// The symbol of the group with number `n`, if there is one.
    pub open spec fn symbol_of(&self, n: int) -> Option<Seq<char>> {
        if 1 <= n <= self@.len() {
            Some(self@[n - 1])
        } else {
            None
        }
    }

    /// The number of the group whose symbol is exactly `symbol`, if there is
    /// one.
    pub open spec fn number_of(&self, symbol: Seq<char>) -> Option<u8> {
        if self@.contains(symbol) {
            Some((self@.index_of(symbol) + 1) as u8)
        } else {
            None
        }
    }

    /// What a symbol as a caller writes it resolves to: the number of the
    /// group whose symbol is what remains of `symbol` once its whitespace is
    /// removed. A symbol of which nothing remains resolves to nothing.
    pub open spec fn resolve_symbol(&self, symbol: Seq<char>) -> Option<u8> {
        if without_whitespace(symbol).len() == 0 {
            None
        } else {
            self.number_of(without_whitespace(symbol))
        }
    }

    /// Whether a list of symbols makes a table, and if not, why not. Too
    /// many symbols are reported before a repeated one.
    pub open spec fn checked(symbols: Seq<Seq<char>>) -> Result<Seq<Seq<char>>, TableError> {
        if symbols.len() > 255 {
            Err(TableError::TooManyGroups)
        } else if !symbols.no_duplicates() {
            Err(TableError::RepeatedSymbol)
        } else {
            Ok(symbols)
        }
    }

    /// What a JSON text makes: the table of the strings that it lists, or
    /// the reason why there is none.
    pub open spec fn read(text: Seq<char>) -> Result<Seq<Seq<char>>, TableError> {
        match json_strings(text) {
            Some(symbols) => SpaceGroup::checked(symbols),
            None => Err(TableError::Malformed),
        }
    }

    /// Makes the table of the given symbols, the first being that of group
    /// number 1. There may be at most 255 symbols, and none may occur twice.
    pub fn new(symbols: Vec<String>) -> (groups: Result<SpaceGroup, TableError>)
        ensures
            match groups {
                Ok(table) => table.wf() && SpaceGroup::checked(names(symbols@)) == Ok::<
                    Seq<Seq<char>>,
                    TableError,
                >(table@),
                Err(e) => SpaceGroup::checked(names(symbols@)) == Err::<Seq<Seq<char>>, TableError>(e),
            },
    {
        if symbols.len() > 255 {
            return Err(TableError::TooManyGroups);
        }
        let mut i: usize = 0;
        while i < symbols.len()
            invariant
                i <= symbols@.len() <= 255,
                forall|a: int, b: int|
                    0 <= a < i && 0 <= b < i && a != b ==> names(symbols@)[a] != names(symbols@)[b],
            decreases symbols@.len() - i,
        {
            let mut j: usize = 0;
            while j < i
                invariant
                    j <= i < symbols@.len() <= 255,
                    forall|a: int| 0 <= a < j ==> names(symbols@)[a] != names(symbols@)[i as int],
                decreases i - j,
            {
                if symbols[j].as_str().eq(symbols[i].as_str()) {
                    assert(names(symbols@)[j as int] == names(symbols@)[i as int]);
                    assert(!names(symbols@).no_duplicates());
                    return Err(TableError::RepeatedSymbol);
                }
                j += 1;
            }
            i += 1;
        }
        Ok(SpaceGroup { symbols })
    }

    /// Makes the table of the symbols that a JSON text lists: an array of
    /// strings, the first being the symbol of group number 1.
    pub fn from_json(text: &str) -> (groups: Result<SpaceGroup, TableError>)
        ensures
            match groups {
                Ok(table) => table.wf() && SpaceGroup::read(text@) == Ok::<
                    Seq<Seq<char>>,
                    TableError,
                >(table@),
                Err(e) => SpaceGroup::read(text@) == Err::<Seq<Seq<char>>, TableError>(e),
            },
    {
        match strings_from_json(text) {
            Ok(symbols) => SpaceGroup::new(symbols),
            Err(_) => Err(TableError::Malformed),
        }
    }

    /// The number of groups in the table, which is also the largest group
    /// number.
    pub fn len(&self) -> (n: usize)
        ensures
            n == self@.len(),
    {
        self.symbols.len()
    }

    /// The symbol of the group with number `number`.
    pub fn symbol(&self, number: u8) -> (symbol: Option<&str>)
        ensures
            match symbol {
                Some(s) => self.symbol_of(number as int) == Some(s@),
                None => self.symbol_of(number as int) is None,
            },
    {
        if 1 <= number && number as usize <= self.symbols.len() {
            Some(self.symbols[(number - 1) as usize].as_str())
        } else {
            None
        }
    }

    /// The number of the group whose symbol is exactly `symbol`.
    pub fn number(&self, symbol: &str) -> (number: Option<u8>)
        requires
            self.wf(),
        ensures
            number == self.number_of(symbol@),
    {
        let mut i: usize = 0;
        while i < self.symbols.len()
            invariant
                self.wf(),
                i <= self@.len(),
                forall|a: int| 0 <= a < i ==> self@[a] != symbol@,
            decreases self@.len() - i,
        {
            if self.symbols[i].as_str().eq(symbol) {
                assert(self@[i as int] == symbol@);
                assert(self@.index_of(symbol@) == i);
                return Some((i + 1) as u8);
            }
            i += 1;
        }
        None
    }

    /// The symbol of the group that `space_group_number` names. Gives nothing
    /// if it names no group of the table.
    pub fn get_symbol<N: IntoSpaceGroupNumber>(&self, space_group_number: N) -> (symbol: Option<
        &str,
    >)
        requires
            self.wf(),
        ensures
            match space_group_number.number_in(self) {
                Some(n) => symbol matches Some(s) && self.symbol_of(n as int) == Some(s@),
                None => symbol is None,
            },
    {
        match space_group_number.into_space_group_number(self) {
            Some(number) => self.symbol(number),
            None => None,
        }
    }

    /// The number of the group whose symbol is exactly the symbol that
    /// `space_group_symbol` resolves to. Gives nothing if it names no group
    /// of the table.
    pub fn get_number<S: IntoSpaceGroupSymbol>(&self, space_group_symbol: S) -> (number: Option<u8>)
        requires
            self.wf(),
        ensures
            number == match space_group_symbol.symbol_in(self) {
                Some(symbol) => self.number_of(symbol),
                None => None,
            },
            space_group_symbol.symbol_in(self) is Some ==> number is Some,
            number matches Some(n) ==> self.symbol_of(n as int) == space_group_symbol.symbol_in(
                self,
            ),
    {
        match space_group_symbol.into_space_group_symbol(self) {
            Some(symbol) => {
                proof {
                    self.lemma_number_of_valid(symbol@);
                }
                self.number(symbol)
            },
            None => None,
        }
    }

    /// Validates a number given as an unsigned integer.
    pub fn number_from_unsigned(&self, n: u128) -> (number: Option<u8>)
        requires
            self.wf(),
        ensures
            number == self.valid_number(n as int),
    {
        if 1 <= n && n <= self.symbols.len() as u128 {
            Some(n as u8)
        } else {
            None
        }
    }

    /// Validates a number given as a signed integer.
    pub fn number_from_signed(&self, n: i128) -> (number: Option<u8>)
        requires
            self.wf(),
        ensures
            number == self.valid_number(n as int),
    {
        if n < 0 {
            None
        } else {
            self.number_from_unsigned(n as u128)
        }
    }

    /// Resolves a symbol as a caller writes it.
    pub fn number_from_symbol(&self, symbol: &str) -> (number: Option<u8>)
        requires
            self.wf(),
        ensures
            number == self.resolve_symbol(symbol@),
    {
        let stripped = remove_whitespace(symbol);
        if stripped.as_str().is_empty() {
            None
        } else {
            self.number(stripped.as_str())
        }
    }
}

impl SpaceGroup {
    /// The number found for a symbol is that of a group of the table, and
    /// that group has the symbol.
    pub proof fn lemma_number_of_valid(&self, symbol: Seq<char>)
        requires
            self.wf(),
        ensures
            self.number_of(symbol) matches Some(n) ==> (1 <= n <= self@.len() && self.symbol_of(
                n as int,
            ) == Some(symbol)),
    {
    }

    /// Symbol and number determine each other. Looking up the symbol of a
    /// group of the table gives back the number of that group; a number
    /// without a group has no symbol, and a symbol that the table does not
    /// hold has no number.
    pub proof fn lemma_symbol_round_trip(&self, n: int)
        requires
            self.wf(),
        ensures
            1 <= n <= self@.len() ==> (self.symbol_of(n) matches Some(symbol) && self.number_of(
                symbol,
            ) == Some(n as u8)),
            !(1 <= n <= self@.len()) ==> self.symbol_of(n) is None && self.valid_number(n) is None,
            forall|symbol: Seq<char>| !self@.contains(symbol) ==> self.number_of(symbol) is None,
    {
        if 1 <= n <= self@.len() {
            let symbol = self@[n - 1];
            assert(self@.contains(symbol));
        }
    }

    /// The symbol of a group, written as the table holds it, resolves to the
    /// number of that group, provided that the symbol is not empty and holds
    /// no whitespace.
    pub proof fn lemma_stored_symbol_resolves(&self, n: int)
        requires
            self.wf(),
            1 <= n <= self@.len(),
            self@[n - 1].len() > 0,
            forall|i: int| 0 <= i < self@[n - 1].len() ==> !white_space(#[trigger] self@[n - 1][i]),
        ensures
            self.resolve_symbol(self@[n - 1]) == Some(n as u8),
    {
        lemma_without_whitespace_fixed(self@[n - 1]);
        self.lemma_symbol_round_trip(n);
    }

    /// Whitespace in a symbol does not matter: two symbols that are the same
    /// once their whitespace is removed resolve to the same group, or both
    /// to none.
    pub proof fn lemma_whitespace_insensitive(&self, a: Seq<char>, b: Seq<char>)
        requires
            without_whitespace(a) == without_whitespace(b),
        ensures
            self.resolve_symbol(a) == self.resolve_symbol(b),
    {
    }

    /// The empty symbol resolves to nothing, and so does a symbol made of
    /// whitespace alone.
    pub proof fn lemma_empty_never_resolves(&self, symbol: Seq<char>)
        requires
            forall|i: int| 0 <= i < symbol.len() ==> white_space(#[trigger] symbol[i]),
        ensures
            self.resolve_symbol(symbol) is None,
            self.resolve_symbol(Seq::<char>::empty()) is None,
    {
        reveal(Seq::filter);
        lemma_all_whitespace(symbol);
        assert(without_whitespace(Seq::<char>::empty()).len() == 0);
    }
}

} // verus!
