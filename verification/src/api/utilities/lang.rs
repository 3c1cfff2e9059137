use vstd::prelude::*;

use super::error::UtilitiesError;

verus! {

/// The language that the simulator runs in.
#[derive(Clone, Copy, Debug, PartialEq, Eq, Structural)]
pub enum Language {
    Unknown,
    English,
    French,
    German,
    Italian,
    Spanish,
    Korean,
    Russian,
    Greek,
    Japanese,
    Chinese,
}

impl Language {
    /// The code by which the host names the language.
    pub open spec fn code(self) -> i32 {
        match self {
            Language::Unknown => 0,
            Language::English => 1,
            Language::French => 2,
            Language::German => 3,
            Language::Italian => 4,
            Language::Spanish => 5,
            Language::Korean => 6,
            Language::Russian => 7,
            Language::Greek => 8,
            Language::Japanese => 9,
            Language::Chinese => 10,
        }
    }
}

impl TryFrom<i32> for Language {
    type Error = UtilitiesError;

    /// The language that a code of the host names.
    fn try_from(value: i32) -> (r: Result<Self, UtilitiesError>)
        ensures
            r is Ok <==> 0 <= value <= 10,
            r matches Ok(language) ==> language.code() == value,
            r matches Err(e) ==> e == UtilitiesError::UnknownLanguageCode(value),
    {
        match value {
            0 => Ok(Language::Unknown),
            1 => Ok(Language::English),
            2 => Ok(Language::French),
            3 => Ok(Language::German),
            4 => Ok(Language::Italian),
            5 => Ok(Language::Spanish),
            6 => Ok(Language::Korean),
            7 => Ok(Language::Russian),
            8 => Ok(Language::Greek),
            9 => Ok(Language::Japanese),
            10 => Ok(Language::Chinese),
            _ => Err(UtilitiesError::UnknownLanguageCode(value)),
        }
    }
}

impl vstd::std_specs::convert::TryFromSpecImpl<i32> for Language {
    open spec fn obeys_try_from_spec() -> bool {
        true
    }

    open spec fn try_from_spec(value: i32) -> Result<Self, UtilitiesError> {
        if value == 0 {
            Ok(Language::Unknown)
        } else if value == 1 {
            Ok(Language::English)
        } else if value == 2 {
            Ok(Language::French)
        } else if value == 3 {
            Ok(Language::German)
        } else if value == 4 {
            Ok(Language::Italian)
        } else if value == 5 {
            Ok(Language::Spanish)
        } else if value == 6 {
            Ok(Language::Korean)
        } else if value == 7 {
            Ok(Language::Russian)
        } else if value == 8 {
            Ok(Language::Greek)
        } else if value == 9 {
            Ok(Language::Japanese)
        } else if value == 10 {
            Ok(Language::Chinese)
        } else {
            Err(UtilitiesError::UnknownLanguageCode(value))
        }
    }
}

} // verus!
