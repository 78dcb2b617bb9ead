//! Group identifiers: what can be given where a space group is asked for.

use crate::symmetry::group::SpaceGroup;
use crate::text::without_whitespace;
use vstd::prelude::*;

verus! {

/// Something that names a space group and resolves to its number.
pub trait IntoSpaceGroupNumber {
    /// The number of the group of `groups` that this identifier names, if it
    /// names one.
    spec fn number_in(&self, groups: &SpaceGroup) -> Option<u8>;

    /// Resolves the identifier against `groups`. The number that comes back
    /// is that of a group of the table.
    fn into_space_group_number(&self, groups: &SpaceGroup) -> (number: Option<u8>)
        requires
            groups.wf(),
        ensures
            number == self.number_in(groups),
            number matches Some(n) ==> 1 <= n <= groups@.len(),
    ;
}

/// Something that names a space group and resolves to its symbol.
pub trait IntoSpaceGroupSymbol {
    /// The symbol of the group of `groups` that this identifier names, if it
    /// names one.
    spec fn symbol_in(&self, groups: &SpaceGroup) -> Option<Seq<char>>;

    /// Resolves the identifier against `groups`. The symbol that comes back
    /// is that of a group of the table.
    fn into_space_group_symbol<'a>(&self, groups: &'a SpaceGroup) -> (symbol: Option<&'a str>)
        requires
            groups.wf(),
        ensures
            match symbol {
                Some(s) => self.symbol_in(groups) == Some(s@),
                None => self.symbol_in(groups) is None,
            },
            symbol matches Some(s) ==> groups@.contains(s@),
    ;
}

// A number of any integer type names the group of that number, if the table
// has one. A number outside the table names nothing, whatever its type: it
// is never reduced to fit.

impl IntoSpaceGroupNumber for u8 {
    open spec fn number_in(&self, groups: &SpaceGroup) -> Option<u8> {
        groups.valid_number(*self as int)
    }

    fn into_space_group_number(&self, groups: &SpaceGroup) -> (number: Option<u8>) {
        groups.number_from_unsigned(*self as u128)
    }
}

impl IntoSpaceGroupNumber for u16 {
    open spec fn number_in(&self, groups: &SpaceGroup) -> Option<u8> {
        groups.valid_number(*self as int)
    }

    fn into_space_group_number(&self, groups: &SpaceGroup) -> (number: Option<u8>) {
        groups.number_from_unsigned(*self as u128)
    }
}

impl IntoSpaceGroupNumber for u32 {
    open spec fn number_in(&self, groups: &SpaceGroup) -> Option<u8> {
        groups.valid_number(*self as int)
    }

    fn into_space_group_number(&self, groups: &SpaceGroup) -> (number: Option<u8>) {
        groups.number_from_unsigned(*self as u128)
    }
}

impl IntoSpaceGroupNumber for u64 {
    open spec fn number_in(&self, groups: &SpaceGroup) -> Option<u8> {
        groups.valid_number(*self as int)
    }

    fn into_space_group_number(&self, groups: &SpaceGroup) -> (number: Option<u8>) {
        groups.number_from_unsigned(*self as u128)
    }
}

impl IntoSpaceGroupNumber for u128 {
    open spec fn number_in(&self, groups: &SpaceGroup) -> Option<u8> {
        groups.valid_number(*self as int)
    }

    fn into_space_group_number(&self, groups: &SpaceGroup) -> (number: Option<u8>) {
        groups.number_from_unsigned(*self)
    }
}

impl IntoSpaceGroupNumber for usize {
    open spec fn number_in(&self, groups: &SpaceGroup) -> Option<u8> {
        groups.valid_number(*self as int)
    }

    fn into_space_group_number(&self, groups: &SpaceGroup) -> (number: Option<u8>) {
        groups.number_from_unsigned(*self as u128)
    }
}

impl IntoSpaceGroupNumber for i8 {
    open spec fn number_in(&self, groups: &SpaceGroup) -> Option<u8> {
        groups.valid_number(*self as int)
    }

    fn into_space_group_number(&self, groups: &SpaceGroup) -> (number: Option<u8>) {
        groups.number_from_signed(*self as i128)
    }
}

impl IntoSpaceGroupNumber for i16 {
    open spec fn number_in(&self, groups: &SpaceGroup) -> Option<u8> {
        groups.valid_number(*self as int)
    }

    fn into_space_group_number(&self, groups: &SpaceGroup) -> (number: Option<u8>) {
        groups.number_from_signed(*self as i128)
    }
}

impl IntoSpaceGroupNumber for i32 {
    open spec fn number_in(&self, groups: &SpaceGroup) -> Option<u8> {
        groups.valid_number(*self as int)
    }

    fn into_space_group_number(&self, groups: &SpaceGroup) -> (number: Option<u8>) {
        groups.number_from_signed(*self as i128)
    }
}

impl IntoSpaceGroupNumber for i64 {
    open spec fn number_in(&self, groups: &SpaceGroup) -> Option<u8> {
        groups.valid_number(*self as int)
    }

    fn into_space_group_number(&self, groups: &SpaceGroup) -> (number: Option<u8>) {
        groups.number_from_signed(*self as i128)
    }
}

impl IntoSpaceGroupNumber for i128 {
    open spec fn number_in(&self, groups: &SpaceGroup) -> Option<u8> {
        groups.valid_number(*self as int)
    }

    fn into_space_group_number(&self, groups: &SpaceGroup) -> (number: Option<u8>) {
        groups.number_from_signed(*self)
    }
}

impl IntoSpaceGroupNumber for isize {
    open spec fn number_in(&self, groups: &SpaceGroup) -> Option<u8> {
        groups.valid_number(*self as int)
    }

    fn into_space_group_number(&self, groups: &SpaceGroup) -> (number: Option<u8>) {
        groups.number_from_signed(*self as i128)
    }
}

// A symbol names the group whose symbol it is once whitespace is removed.

impl IntoSpaceGroupNumber for String {
    open spec fn number_in(&self, groups: &SpaceGroup) -> Option<u8> {
        groups.resolve_symbol(self@)
    }

    fn into_space_group_number(&self, groups: &SpaceGroup) -> (number: Option<u8>) {
        let number = groups.number_from_symbol(self.as_str());
        proof {
            groups.lemma_number_of_valid(without_whitespace(self@));
        }
        number
    }
}

impl IntoSpaceGroupNumber for &str {
    open spec fn number_in(&self, groups: &SpaceGroup) -> Option<u8> {
        groups.resolve_symbol(self@)
    }

    fn into_space_group_number(&self, groups: &SpaceGroup) -> (number: Option<u8>) {
        let number = groups.number_from_symbol(*self);
        proof {
            groups.lemma_number_of_valid(without_whitespace(self@));
        }
        number
    }
}

// A number of any integer type names the symbol of the group of that number.

impl IntoSpaceGroupSymbol for u8 {
    open spec fn symbol_in(&self, groups: &SpaceGroup) -> Option<Seq<char>> {
        groups.symbol_of(*self as int)
    }

    fn into_space_group_symbol<'a>(&self, groups: &'a SpaceGroup) -> (symbol: Option<&'a str>) {
        match groups.number_from_unsigned(*self as u128) {
            Some(number) => groups.symbol(number),
            None => None,
        }
    }
}

impl IntoSpaceGroupSymbol for u16 {
    open spec fn symbol_in(&self, groups: &SpaceGroup) -> Option<Seq<char>> {
        groups.symbol_of(*self as int)
    }

    fn into_space_group_symbol<'a>(&self, groups: &'a SpaceGroup) -> (symbol: Option<&'a str>) {
        match groups.number_from_unsigned(*self as u128) {
            Some(number) => groups.symbol(number),
            None => None,
        }
    }
}

impl IntoSpaceGroupSymbol for u32 {
    open spec fn symbol_in(&self, groups: &SpaceGroup) -> Option<Seq<char>> {
        groups.symbol_of(*self as int)
    }

    fn into_space_group_symbol<'a>(&self, groups: &'a SpaceGroup) -> (symbol: Option<&'a str>) {
        match groups.number_from_unsigned(*self as u128) {
            Some(number) => groups.symbol(number),
            None => None,
        }
    }
}

impl IntoSpaceGroupSymbol for u64 {
    open spec fn symbol_in(&self, groups: &SpaceGroup) -> Option<Seq<char>> {
        groups.symbol_of(*self as int)
    }

    fn into_space_group_symbol<'a>(&self, groups: &'a SpaceGroup) -> (symbol: Option<&'a str>) {
        match groups.number_from_unsigned(*self as u128) {
            Some(number) => groups.symbol(number),
            None => None,
        }
    }
}

impl IntoSpaceGroupSymbol for u128 {
    open spec fn symbol_in(&self, groups: &SpaceGroup) -> Option<Seq<char>> {
        groups.symbol_of(*self as int)
    }

    fn into_space_group_symbol<'a>(&self, groups: &'a SpaceGroup) -> (symbol: Option<&'a str>) {
        match groups.number_from_unsigned(*self) {
            Some(number) => groups.symbol(number),
            None => None,
        }
    }
}

impl IntoSpaceGroupSymbol for usize {
    open spec fn symbol_in(&self, groups: &SpaceGroup) -> Option<Seq<char>> {
        groups.symbol_of(*self as int)
    }

    fn into_space_group_symbol<'a>(&self, groups: &'a SpaceGroup) -> (symbol: Option<&'a str>) {
        match groups.number_from_unsigned(*self as u128) {
            Some(number) => groups.symbol(number),
            None => None,
        }
    }
}

impl IntoSpaceGroupSymbol for i8 {
    open spec fn symbol_in(&self, groups: &SpaceGroup) -> Option<Seq<char>> {
        groups.symbol_of(*self as int)
    }

    fn into_space_group_symbol<'a>(&self, groups: &'a SpaceGroup) -> (symbol: Option<&'a str>) {
        match groups.number_from_signed(*self as i128) {
            Some(number) => groups.symbol(number),
            None => None,
        }
    }
}

impl IntoSpaceGroupSymbol for i16 {
    open spec fn symbol_in(&self, groups: &SpaceGroup) -> Option<Seq<char>> {
        groups.symbol_of(*self as int)
    }

    fn into_space_group_symbol<'a>(&self, groups: &'a SpaceGroup) -> (symbol: Option<&'a str>) {
        match groups.number_from_signed(*self as i128) {
            Some(number) => groups.symbol(number),
            None => None,
        }
    }
}

impl IntoSpaceGroupSymbol for i32 {
    open spec fn symbol_in(&self, groups: &SpaceGroup) -> Option<Seq<char>> {
        groups.symbol_of(*self as int)
    }

    fn into_space_group_symbol<'a>(&self, groups: &'a SpaceGroup) -> (symbol: Option<&'a str>) {
        match groups.number_from_signed(*self as i128) {
            Some(number) => groups.symbol(number),
            None => None,
        }
    }
}

impl IntoSpaceGroupSymbol for i64 {
    open spec fn symbol_in(&self, groups: &SpaceGroup) -> Option<Seq<char>> {
        groups.symbol_of(*self as int)
    }

    fn into_space_group_symbol<'a>(&self, groups: &'a SpaceGroup) -> (symbol: Option<&'a str>) {
        match groups.number_from_signed(*self as i128) {
            Some(number) => groups.symbol(number),
            None => None,
        }
    }
}

impl IntoSpaceGroupSymbol for i128 {
    open spec fn symbol_in(&self, groups: &SpaceGroup) -> Option<Seq<char>> {
        groups.symbol_of(*self as int)
    }

    fn into_space_group_symbol<'a>(&self, groups: &'a SpaceGroup) -> (symbol: Option<&'a str>) {
        match groups.number_from_signed(*self) {
            Some(number) => groups.symbol(number),
            None => None,
        }
    }
}

impl IntoSpaceGroupSymbol for isize {
    open spec fn symbol_in(&self, groups: &SpaceGroup) -> Option<Seq<char>> {
        groups.symbol_of(*self as int)
    }

    fn into_space_group_symbol<'a>(&self, groups: &'a SpaceGroup) -> (symbol: Option<&'a str>) {
        match groups.number_from_signed(*self as i128) {
            Some(number) => groups.symbol(number),
            None => None,
        }
    }
}

} // verus!
