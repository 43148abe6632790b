use vstd::prelude::*;
use crate::environment::strs;

verus! {

/// The argument token that stands for the input file; the runner replaces it before spawning.
pub const SOURCE_FILE_PLACEHOLDER: &'static str = "%e";

/// The placeholder token as characters.
pub open spec fn placeholder() -> Seq<char> {
    SOURCE_FILE_PLACEHOLDER@
}

/// What runs an extraction.
#[derive(Clone, Debug, PartialEq, Eq)]
pub enum ExtractorType {
    /// No extractor is configured.
    Unconfigured,
    /// An extractor implemented in-process; the descriptors built here never use it.
    Internal,
    /// An external command, by path or bare name.
    External(String),
}

/// The mathematical content of an `ExtractorType`.
pub enum UtilityView {
    Unconfigured,
    Internal,
    External(Seq<char>),
}

impl View for ExtractorType {
    type V = UtilityView;

    open spec fn view(&self) -> UtilityView {
        match self {
            ExtractorType::Unconfigured => UtilityView::Unconfigured,
            ExtractorType::Internal => UtilityView::Internal,
            ExtractorType::External(s) => UtilityView::External(s@),
        }
    }
}

/// A declarative description of how to run an extraction or creation utility.
#[derive(Clone, Debug, PartialEq, Eq)]
pub struct Extractor {
    pub utility: ExtractorType,
    pub extension: String,
    pub arguments: Vec<String>,
    pub exit_codes: Vec<i32>,
}

/// The mathematical content of an `Extractor`.
pub struct ExtractorView {
    pub utility: UtilityView,
    pub extension: Seq<char>,
    pub arguments: Seq<Seq<char>>,
    pub exit_codes: Seq<i32>,
}

impl View for Extractor {
    type V = ExtractorView;

    open spec fn view(&self) -> ExtractorView {
        ExtractorView {
            utility: self.utility@,
            extension: self.extension@,
            arguments: strs(self.arguments@),
            exit_codes: self.exit_codes@,
        }
    }
}

} // verus!
