//! The error taxonomy of the knowledge-graph pipeline. Every failure of a
//! classification, compilation, reconciliation or retrieval step is one of
//! these variants; all of them are fatal to the extraction cycle they occur
//! in, and none is silently coerced into an empty graph.
use vstd::prelude::*;
use vstd::string::StringExecFns;

verus! {

/// Spec-level view of `GraphError`, with payloads as character sequences.
pub enum ErrV {
    /// A node label outside the closed set of known kinds.
    UnrecognizedLabel(Seq<char>),
    /// A required property absent from, or of the wrong shape in, a
    /// property map; the payload names the property.
    MissingRequiredProperty(Seq<char>),
    /// A node whose label demands an embeddable text field that its
    /// property map does not carry; the payload names the field.
    MalformedNode(Seq<char>),
    /// A collaborator response that does not have the exchange-document
    /// shape.
    MalformedExchangeDocument,
    /// A relationship endpoint that cannot be resolved; the payload is the
    /// unresolved identifier.
    IdentifierResolutionFailure(Seq<char>),
    /// The graph store rejected or could not commit a statement batch.
    TransactionFailure,
    /// A completion or embedding collaborator failed or returned no usable
    /// content.
    CollaboratorFailure,
}

/// An error of the knowledge-graph pipeline.
#[derive(Debug)]
pub enum GraphError {
    UnrecognizedLabel(String),
    MissingRequiredProperty(String),
    MalformedNode(String),
    MalformedExchangeDocument,
    IdentifierResolutionFailure(String),
    TransactionFailure,
    CollaboratorFailure,
}

impl View for GraphError {
    type V = ErrV;

    open spec fn view(&self) -> ErrV {
        match self {
            GraphError::UnrecognizedLabel(s) => ErrV::UnrecognizedLabel(s@),
            GraphError::MissingRequiredProperty(s) => ErrV::MissingRequiredProperty(s@),
            GraphError::MalformedNode(s) => ErrV::MalformedNode(s@),
            GraphError::MalformedExchangeDocument => ErrV::MalformedExchangeDocument,
            GraphError::IdentifierResolutionFailure(s) => ErrV::IdentifierResolutionFailure(s@),
            GraphError::TransactionFailure => ErrV::TransactionFailure,
            GraphError::CollaboratorFailure => ErrV::CollaboratorFailure,
        }
    }
}

/// The one-line description of an error, used where the surrounding program
/// logs an aborted cycle.
pub open spec fn error_text(e: ErrV) -> Seq<char> {
    match e {
        ErrV::UnrecognizedLabel(s) => "unrecognized label: "@ + s,
        ErrV::MissingRequiredProperty(s) => "missing required property: "@ + s,
        ErrV::MalformedNode(s) => "malformed node, no embeddable field: "@ + s,
        ErrV::MalformedExchangeDocument => "malformed exchange document"@,
        ErrV::IdentifierResolutionFailure(s) => "unresolved identifier: "@ + s,
        ErrV::TransactionFailure => "transaction failure"@,
        ErrV::CollaboratorFailure => "collaborator failure"@,
    }
}

impl GraphError {
    /// Renders the error as a one-line message.
    pub fn message(&self) -> (r: String)
        ensures
            r@ == error_text(self@),
    {
        match self {
            GraphError::UnrecognizedLabel(s) => {
                let mut m = "unrecognized label: ".to_owned();
                m.append(s.as_str());
                m
            }
            GraphError::MissingRequiredProperty(s) => {
                let mut m = "missing required property: ".to_owned();
                m.append(s.as_str());
                m
            }
            GraphError::MalformedNode(s) => {
                let mut m = "malformed node, no embeddable field: ".to_owned();
                m.append(s.as_str());
                m
            }
            GraphError::MalformedExchangeDocument => "malformed exchange document".to_owned(),
            GraphError::IdentifierResolutionFailure(s) => {
                let mut m = "unresolved identifier: ".to_owned();
                m.append(s.as_str());
                m
            }
            GraphError::TransactionFailure => "transaction failure".to_owned(),
            GraphError::CollaboratorFailure => "collaborator failure".to_owned(),
        }
    }
}

} // verus!
