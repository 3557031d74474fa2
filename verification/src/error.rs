//! The error values surfaced by the build pipeline and the handle manager.

use vstd::prelude::*;

verus! {

/// Everything that can go wrong at build time or while opening a database.
///
/// The build-time variants carry the diagnostic output that the failing step
/// captured, unchanged. `Initialization` carries the message the native engine
/// left in its error slot.
#[derive(Debug, PartialEq, Eq)]
pub enum DataStoreError {
    /// The engine reported a failure without describing it.
    Unknown,
    /// Locating, configuring, compiling or staging the native engine failed.
    Build(String),
    /// Expanding the engine's public header failed.
    Preprocess(String),
    /// A declared symbol could not be mirrored in the binding module.
    BindingGeneration(String),
    /// The native init entry point left a message in its error slot.
    Initialization(String),
}

/// Mathematical model of a [`DataStoreError`]: the variant and the text it carries.
pub enum ErrorView {
    Unknown,
    Build(Seq<char>),
    Preprocess(Seq<char>),
    BindingGeneration(Seq<char>),
    Initialization(Seq<char>),
}

impl View for DataStoreError {
    type V = ErrorView;

    open spec fn view(&self) -> ErrorView {
        match self {
            DataStoreError::Unknown => ErrorView::Unknown,
            DataStoreError::Build(d) => ErrorView::Build(d@),
            DataStoreError::Preprocess(d) => ErrorView::Preprocess(d@),
            DataStoreError::BindingGeneration(d) => ErrorView::BindingGeneration(d@),
            DataStoreError::Initialization(d) => ErrorView::Initialization(d@),
        }
    }
}

impl ErrorView {
    /// The text an error carries; empty for `Unknown`.
    pub open spec fn detail(self) -> Seq<char> {
        match self {
            ErrorView::Unknown => Seq::empty(),
            ErrorView::Build(d) => d,
            ErrorView::Preprocess(d) => d,
            ErrorView::BindingGeneration(d) => d,
            ErrorView::Initialization(d) => d,
        }
    }

    /// The fixed words that introduce each kind of error.
    pub open spec fn heading(self) -> Seq<char> {
        match self {
            ErrorView::Unknown => "unknown data store error"@,
            ErrorView::Build(_) => "native build failed: "@,
            ErrorView::Preprocess(_) => "header expansion failed: "@,
            ErrorView::BindingGeneration(_) => "binding generation failed: "@,
            ErrorView::Initialization(_) => "database initialization failed: "@,
        }
    }

    /// The human-readable rendering: the heading followed by the carried text.
    pub open spec fn message(self) -> Seq<char> {
        self.heading() + self.detail()
    }

    /// Build-time errors abort the pipeline; the others arise at run time.
    pub open spec fn is_build_time(self) -> bool {
        self is Build || self is Preprocess || self is BindingGeneration
    }
}

impl Clone for DataStoreError {
    fn clone(&self) -> (copy: DataStoreError)
        ensures
            copy == *self,
    {
        match self {
            DataStoreError::Unknown => DataStoreError::Unknown,
            DataStoreError::Build(d) => DataStoreError::Build(d.clone()),
            DataStoreError::Preprocess(d) => DataStoreError::Preprocess(d.clone()),
            DataStoreError::BindingGeneration(d) => DataStoreError::BindingGeneration(d.clone()),
            DataStoreError::Initialization(d) => DataStoreError::Initialization(d.clone()),
        }
    }
}

impl DataStoreError {
    /// The text this error carries, copied out; empty for `Unknown`.
    pub fn detail(&self) -> (text: String)
        ensures
            text@ == self@.detail(),
    {
        match self {
            DataStoreError::Unknown => String::new(),
            DataStoreError::Build(d) => d.clone(),
            DataStoreError::Preprocess(d) => d.clone(),
            DataStoreError::BindingGeneration(d) => d.clone(),
            DataStoreError::Initialization(d) => d.clone(),
        }
    }

    /// Renders the error for people: a fixed heading, then the carried text.
    pub fn message(&self) -> (text: String)
        ensures
            text@ == self@.message(),
    {
        let mut text = match self {
            DataStoreError::Unknown => String::from_str("unknown data store error"),
            DataStoreError::Build(_) => String::from_str("native build failed: "),
            DataStoreError::Preprocess(_) => String::from_str("header expansion failed: "),
            DataStoreError::BindingGeneration(_) => String::from_str(
                "binding generation failed: ",
            ),
            DataStoreError::Initialization(_) => String::from_str(
                "database initialization failed: ",
            ),
        };
        let detail = self.detail();
        text.append(detail.as_str());
        text
    }

    /// Whether the error belongs to the build pipeline rather than to a running handle.
    pub fn is_build_time(&self) -> (b: bool)
        ensures
            b == self@.is_build_time(),
    {
        match self {
            DataStoreError::Build(_) => true,
            DataStoreError::Preprocess(_) => true,
            DataStoreError::BindingGeneration(_) => true,
            _ => false,
        }
    }
}

} // verus!
