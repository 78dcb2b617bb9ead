//! Atomic displacement parameter types and their names.

use std::str::FromStr;
use vstd::prelude::*;
use vstd::string::StringExecFns;

verus! {

/// The kind of atomic displacement parameter of an atom.
#[derive(Debug, Clone, Copy, PartialEq, Eq, Structural)]
pub enum AdpType {
    Uiso,
    Uani,
    Uovl,
    Umpe,
    Bani,
    Biso,
    Bovl,
}

/// The error of reading a text that is no name of a displacement parameter
/// type. It carries a message that quotes the text.
#[derive(Debug, PartialEq, Eq)]
pub struct ParseAdpTypeError(String);

/// What every message of a `ParseAdpTypeError` begins with.
pub open spec fn invalid_prefix() -> Seq<char> {
    "Invalid ADP type: "@
}

impl View for ParseAdpTypeError {
    type V = Seq<char>;

    /// The message.
    closed spec fn view(&self) -> Seq<char> {
        self.0@
    }
}

impl ParseAdpTypeError {
    /// The error for the rejected text `s`.
    pub fn new(s: &str) -> (error: ParseAdpTypeError)
        ensures
            error@ == invalid_prefix() + s@,
    {
        ParseAdpTypeError("Invalid ADP type: ".to_owned().concat(s))
    }

    /// The message of the error.
    pub fn to_string(&self) -> (message: String)
        ensures
            message@ == self@,
    {
        self.0.clone()
    }
}

impl AdpType {
    /// The name of the type, as it is written and read.
    pub open spec fn name(self) -> Seq<char> {
        match self {
            AdpType::Uiso => "Uiso"@,
            AdpType::Uani => "Uani"@,
            AdpType::Uovl => "Uovl"@,
            AdpType::Umpe => "Umpe"@,
            AdpType::Bani => "Bani"@,
            AdpType::Biso => "Biso"@,
            AdpType::Bovl => "Bovl"@,
        }
    }

    /// The type that a text names: each type by its name, and `Uiso` and
    /// `Uani` also by the short forms `I` and `A`. Any other text names none.
    pub open spec fn named(s: Seq<char>) -> Option<AdpType> {
        if s == "I"@ {
            Some(AdpType::Uiso)
        } else if s == "A"@ {
            Some(AdpType::Uani)
        } else if s == "Uiso"@ {
            Some(AdpType::Uiso)
        } else if s == "Uani"@ {
            Some(AdpType::Uani)
        } else if s == "Uovl"@ {
            Some(AdpType::Uovl)
        } else if s == "Umpe"@ {
            Some(AdpType::Umpe)
        } else if s == "Bani"@ {
            Some(AdpType::Bani)
        } else if s == "Biso"@ {
            Some(AdpType::Biso)
        } else if s == "Bovl"@ {
            Some(AdpType::Bovl)
        } else {
            None
        }
    }

    /// The name of the type.
    pub fn to_string(&self) -> (name: String)
        ensures
            name@ == self.name(),
    {
        match self {
            AdpType::Uiso => "Uiso".to_owned(),
            AdpType::Uani => "Uani".to_owned(),
            AdpType::Uovl => "Uovl".to_owned(),
            AdpType::Umpe => "Umpe".to_owned(),
            AdpType::Bani => "Bani".to_owned(),
            AdpType::Biso => "Biso".to_owned(),
            AdpType::Bovl => "Bovl".to_owned(),
        }
    }

    /// Reading the name of a type gives that type.
    pub proof fn lemma_name_round_trip(self)
        ensures
            AdpType::named(self.name()) == Some(self),
    {
        reveal_strlit("I");
        reveal_strlit("A");
        reveal_strlit("Uiso");
        reveal_strlit("Uani");
        reveal_strlit("Uovl");
        reveal_strlit("Umpe");
        reveal_strlit("Bani");
        reveal_strlit("Biso");
        reveal_strlit("Bovl");
        assert("I"@.len() == 1 && "A"@.len() == 1);
        assert("Uiso"@.len() == 4 && "Uani"@.len() == 4 && "Uovl"@.len() == 4 && "Umpe"@.len() == 4);
        assert("Bani"@.len() == 4 && "Biso"@.len() == 4 && "Bovl"@.len() == 4);
        assert("Uiso"@[1] == 'i' && "Uani"@[1] == 'a' && "Uovl"@[1] == 'o' && "Umpe"@[1] == 'm');
        assert("Bani"@[1] == 'a' && "Biso"@[1] == 'i' && "Bovl"@[1] == 'o');
        assert("Uiso"@[0] == 'U' && "Uani"@[0] == 'U' && "Uovl"@[0] == 'U' && "Umpe"@[0] == 'U');
        assert("Bani"@[0] == 'B' && "Biso"@[0] == 'B' && "Bovl"@[0] == 'B');
    }
}

impl Default for AdpType {
    /// The default type is `Uiso`.
    fn default() -> (t: AdpType)
        ensures
            t == AdpType::Uiso,
    {
        AdpType::Uiso
    }
}

impl FromStr for AdpType {
    type Err = ParseAdpTypeError;

    /// Reads the name of a type. Any text that names none is rejected with
    /// an error that quotes it.
    fn from_str(s: &str) -> (parsed: Result<AdpType, ParseAdpTypeError>)
        ensures
            match parsed {
                Ok(t) => AdpType::named(s@) == Some(t),
                Err(e) => AdpType::named(s@) is None && e@ == invalid_prefix() + s@,
            },
    {
        if s.eq("I") {
            Ok(AdpType::Uiso)
        } else if s.eq("A") {
            Ok(AdpType::Uani)
        } else if s.eq("Uiso") {
            Ok(AdpType::Uiso)
        } else if s.eq("Uani") {
            Ok(AdpType::Uani)
        } else if s.eq("Uovl") {
            Ok(AdpType::Uovl)
        } else if s.eq("Umpe") {
            Ok(AdpType::Umpe)
        } else if s.eq("Bani") {
            Ok(AdpType::Bani)
        } else if s.eq("Biso") {
            Ok(AdpType::Biso)
        } else if s.eq("Bovl") {
            Ok(AdpType::Bovl)
        } else {
            Err(ParseAdpTypeError::new(s))
        }
    }
}

} // verus!
