//! Why generation stops.

use vstd::prelude::*;

verus! {

/// An error that ends generation.
#[derive(Debug)]
pub enum CodegenError {
    /// The model uses `Timestamp`, and support for it is off.
    UnsupportedTimestamp,
    /// The model uses `BigInteger`, and support for it is off.
    UnsupportedBigInteger,
    /// The model uses `BigDecimal`, and support for it is off.
    UnsupportedBigDecimal,
    /// The prelude shape of this name has no counterpart in Rust.
    UnsupportedType(String),
    /// This text is not a namespace.
    InvalidNamespace(String),
    /// The service lists an operation that the model does not define.
    MissingOperation {
        /// Namespace of the operation.
        namespace: String,
        /// Shape name of the operation.
        operation: String,
        /// Name of the service.
        service: String,
    },
    /// What the model holds cannot be used, for the reason given.
    Model(String),
}

/// An error, with its texts as character sequences.
pub enum ErrorView {
    /// See [`CodegenError::UnsupportedTimestamp`].
    UnsupportedTimestamp,
    /// See [`CodegenError::UnsupportedBigInteger`].
    UnsupportedBigInteger,
    /// See [`CodegenError::UnsupportedBigDecimal`].
    UnsupportedBigDecimal,
    /// See [`CodegenError::UnsupportedType`].
    UnsupportedType(Seq<char>),
    /// See [`CodegenError::InvalidNamespace`].
    InvalidNamespace(Seq<char>),
    /// See [`CodegenError::MissingOperation`].
    MissingOperation {
        /// Namespace of the operation.
        namespace: Seq<char>,
        /// Shape name of the operation.
        operation: Seq<char>,
        /// Name of the service.
        service: Seq<char>,
    },
    /// See [`CodegenError::Model`].
    Model(Seq<char>),
}

impl View for CodegenError {
    type V = ErrorView;

    open spec fn view(&self) -> ErrorView {
        match *self {
            CodegenError::UnsupportedTimestamp => ErrorView::UnsupportedTimestamp,
            CodegenError::UnsupportedBigInteger => ErrorView::UnsupportedBigInteger,
            CodegenError::UnsupportedBigDecimal => ErrorView::UnsupportedBigDecimal,
            CodegenError::UnsupportedType(name) => ErrorView::UnsupportedType(name@),
            CodegenError::InvalidNamespace(text) => ErrorView::InvalidNamespace(text@),
            CodegenError::MissingOperation { namespace, operation, service } =>
                ErrorView::MissingOperation {
                    namespace: namespace@,
                    operation: operation@,
                    service: service@,
                },
            CodegenError::Model(reason) => ErrorView::Model(reason@),
        }
    }
}

impl Clone for CodegenError {
    fn clone(&self) -> (copy: Self)
        ensures
            copy@ == self@,
    {
        match self {
            CodegenError::UnsupportedTimestamp => CodegenError::UnsupportedTimestamp,
            CodegenError::UnsupportedBigInteger => CodegenError::UnsupportedBigInteger,
            CodegenError::UnsupportedBigDecimal => CodegenError::UnsupportedBigDecimal,
            CodegenError::UnsupportedType(name) => CodegenError::UnsupportedType(name.clone()),
            CodegenError::InvalidNamespace(text) => CodegenError::InvalidNamespace(text.clone()),
            CodegenError::MissingOperation { namespace, operation, service } => CodegenError::MissingOperation {
                namespace: namespace.clone(),
                operation: operation.clone(),
                service: service.clone(),
            },
            CodegenError::Model(reason) => CodegenError::Model(reason.clone()),
        }
    }
}

} // verus!
