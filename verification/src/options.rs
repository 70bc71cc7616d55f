//! Translation-unit parse options and per-index configuration modes.
//!
//! [`TUOptionsBuilder`] assembles the options bitset handed to the
//! analyzer's parse call: each recognized option can be switched on
//! independently and the default is none set. The two index modes say
//! whether declarations from a precompiled header are included and
//! whether diagnostics are shown; the analyzer takes each as a plain
//! integer.

use vstd::prelude::*;

use crate::codes;

verus! {

/// Whether an index includes declarations from precompiled headers.
#[derive(Debug, PartialEq, Eq, Clone, Copy)]
pub enum DeclarationFromPHCMode {
    Include,
    Exclude,
}

impl DeclarationFromPHCMode {
    /// The integer the analyzer expects for this mode.
    pub open spec fn spec_code(self) -> i32 {
        match self {
            DeclarationFromPHCMode::Include => 0,
            DeclarationFromPHCMode::Exclude => 1,
        }
    }

    /// Returns the integer the analyzer expects for this mode.
    #[verifier::when_used_as_spec(spec_code)]
    pub fn code(self) -> (r: i32)
        ensures
            r == self.spec_code(),
    {
        match self {
            DeclarationFromPHCMode::Include => 0,
            DeclarationFromPHCMode::Exclude => 1,
        }
    }
}

/// Whether the analyzer displays diagnostics while parsing.
#[derive(Debug, PartialEq, Eq, Clone, Copy)]
pub enum DiagnosticsMode {
    Disabled,
    Enabled,
}

impl DiagnosticsMode {
    /// The integer the analyzer expects for this mode.
    pub open spec fn spec_code(self) -> i32 {
        match self {
            DiagnosticsMode::Disabled => 0,
            DiagnosticsMode::Enabled => 1,
        }
    }

    /// Returns the integer the analyzer expects for this mode.
    #[verifier::when_used_as_spec(spec_code)]
    pub fn code(self) -> (r: i32)
        ensures
            r == self.spec_code(),
    {
        match self {
            DiagnosticsMode::Disabled => 0,
            DiagnosticsMode::Enabled => 1,
        }
    }
}

/// Fluent builder for the options bitset of one translation-unit parse.
/// Every recognized option ORs its flag into the accumulated value;
/// freshly built, no option is set.
#[derive(Debug, PartialEq, Eq, Clone, Copy)]
pub struct TUOptionsBuilder {
    resulting_options: i32,
}

impl View for TUOptionsBuilder {
    type V = i32;

    closed spec fn view(&self) -> i32 {
        self.resulting_options
    }
}

impl TUOptionsBuilder {
    /// A builder with no option set.
    pub fn new() -> (r: TUOptionsBuilder)
        ensures
            r@ == codes::OPTION_NONE,
    {
        TUOptionsBuilder { resulting_options: codes::OPTION_NONE }
    }

    /// Requests a detailed record of preprocessing activity.
    pub fn detailed_preprocessor_record(&mut self) -> (r: &mut TUOptionsBuilder)
        ensures
            (*r)@ == old(self)@ | codes::OPTION_DETAILED_PREPROCESSING_RECORD,
            *final(self) == *final(r),
    {
        self.resulting_options = self.resulting_options
            | codes::OPTION_DETAILED_PREPROCESSING_RECORD;
        self
    }

    /// Marks the translation unit as incomplete, as for a header.
    pub fn incomplete(&mut self) -> (r: &mut TUOptionsBuilder)
        ensures
            (*r)@ == old(self)@ | codes::OPTION_INCOMPLETE,
            *final(self) == *final(r),
    {
        self.resulting_options = self.resulting_options | codes::OPTION_INCOMPLETE;
        self
    }

    /// Requests a precompiled preamble for faster reparsing.
    pub fn precompiled_preamble(&mut self) -> (r: &mut TUOptionsBuilder)
        ensures
            (*r)@ == old(self)@ | codes::OPTION_PRECOMPILED_PREAMBLE,
            *final(self) == *final(r),
    {
        self.resulting_options = self.resulting_options | codes::OPTION_PRECOMPILED_PREAMBLE;
        self
    }

    /// Requests caching of code-completion results.
    pub fn cache_completion_results(&mut self) -> (r: &mut TUOptionsBuilder)
        ensures
            (*r)@ == old(self)@ | codes::OPTION_CACHE_COMPLETION_RESULTS,
            *final(self) == *final(r),
    {
        self.resulting_options = self.resulting_options | codes::OPTION_CACHE_COMPLETION_RESULTS;
        self
    }

    /// Prepares the translation unit for serialization.
    pub fn for_serialization(&mut self) -> (r: &mut TUOptionsBuilder)
        ensures
            (*r)@ == old(self)@ | codes::OPTION_FOR_SERIALIZATION,
            *final(self) == *final(r),
    {
        self.resulting_options = self.resulting_options | codes::OPTION_FOR_SERIALIZATION;
        self
    }

    /// Enables chained precompiled-header support.
    pub fn chained_phc(&mut self) -> (r: &mut TUOptionsBuilder)
        ensures
            (*r)@ == old(self)@ | codes::OPTION_CHAINED_PHC,
            *final(self) == *final(r),
    {
        self.resulting_options = self.resulting_options | codes::OPTION_CHAINED_PHC;
        self
    }

    /// Skips function bodies while parsing.
    pub fn skip_function_bodies(&mut self) -> (r: &mut TUOptionsBuilder)
        ensures
            (*r)@ == old(self)@ | codes::OPTION_SKIP_FUNCTION_BODIES,
            *final(self) == *final(r),
    {
        self.resulting_options = self.resulting_options | codes::OPTION_SKIP_FUNCTION_BODIES;
        self
    }

    /// Includes brief documentation comments in code completion.
    pub fn include_brief_comments_in_code_completion(&mut self) -> (r: &mut TUOptionsBuilder)
        ensures
            (*r)@ == old(self)@ | codes::OPTION_INCLUDE_BRIEF_COMMENTS_IN_CODE_COMPLETION,
            *final(self) == *final(r),
    {
        self.resulting_options = self.resulting_options
            | codes::OPTION_INCLUDE_BRIEF_COMMENTS_IN_CODE_COMPLETION;
        self
    }

    /// The accumulated options bitset.
    pub fn build(&self) -> (r: i32)
        ensures
            r == self@,
    {
        self.resulting_options
    }
}

} // verus!
