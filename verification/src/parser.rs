//! Value-parsing strategies and the conversions that go with them.

use crate::error::ConfigError;
use crate::text::same_text;
use vstd::prelude::*;

verus! {

/// A stream of tokens of the host language. Nothing here looks inside one:
/// it is handed on as it came.
#[verifier::external_type_specification]
#[verifier::external_body]
pub struct ExTokenStream(proc_macro2::TokenStream);

/// How the raw value of an argument is turned into the field's value.
#[derive(Copy, Clone, PartialEq, Eq, Debug, Structural)]
pub enum Parser {
    FromStr,
    TryFromStr,
    FromOsStr,
    TryFromOsStr,
    FromOccurrences,
}

/// The conversion that a parser applies.
#[derive(Debug)]
pub enum Conversion {
    /// `::std::convert::From::from`.
    From,
    /// `::std::str::FromStr::from_str`.
    FromStr,
    /// A closure that casts the number of occurrences to the field's type.
    Cast,
    /// The function that the `parse` directive names.
    Function(proc_macro2::TokenStream),
}

/// The parser that a kind name stands for.
pub open spec fn parser_named(s: Seq<char>) -> Result<Parser, ConfigError> {
    if s == "from_str"@ {
        Ok(Parser::FromStr)
    } else if s == "try_from_str"@ {
        Ok(Parser::TryFromStr)
    } else if s == "from_os_str"@ {
        Ok(Parser::FromOsStr)
    } else if s == "try_from_os_str"@ {
        Ok(Parser::TryFromOsStr)
    } else if s == "from_occurrences"@ {
        Ok(Parser::FromOccurrences)
    } else {
        Err(ConfigError::UnknownParserKind)
    }
}

/// The conversion that a parser uses when the directive names no function.
pub open spec fn default_conversion(parser: Parser) -> Result<Conversion, ConfigError> {
    match parser {
        Parser::FromStr | Parser::FromOsStr => Ok(Conversion::From),
        Parser::TryFromStr => Ok(Conversion::FromStr),
        Parser::TryFromOsStr => Err(ConfigError::MissingParserFunction),
        Parser::FromOccurrences => Ok(Conversion::Cast),
    }
}

impl Parser {
    /// Parses the name of a parser kind.
    pub fn from_str(s: &str) -> (res: Result<Parser, ConfigError>)
        ensures
            res == parser_named(s@),
    {
        if same_text(s, "from_str") {
            Ok(Parser::FromStr)
        } else if same_text(s, "try_from_str") {
            Ok(Parser::TryFromStr)
        } else if same_text(s, "from_os_str") {
            Ok(Parser::FromOsStr)
        } else if same_text(s, "try_from_os_str") {
            Ok(Parser::TryFromOsStr)
        } else if same_text(s, "from_occurrences") {
            Ok(Parser::FromOccurrences)
        } else {
            Err(ConfigError::UnknownParserKind)
        }
    }

    /// The conversion used when the `parse` directive names no function.
    pub fn default_conversion(&self) -> (res: Result<Conversion, ConfigError>)
        ensures
            res == default_conversion(*self),
    {
        match self {
            Parser::FromStr | Parser::FromOsStr => Ok(Conversion::From),
            Parser::TryFromStr => Ok(Conversion::FromStr),
            Parser::TryFromOsStr => Err(ConfigError::MissingParserFunction),
            Parser::FromOccurrences => Ok(Conversion::Cast),
        }
    }
}

} // verus!
