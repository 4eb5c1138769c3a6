//! What a resolution can fail with.

use super::type_info::TypeInfo;
use vstd::prelude::*;
use vstd::std_specs::convert::FromSpecImpl;

verus! {

/// `anyhow::Error`, carried through unread: the error of a registered
/// constructor or converter.
#[verifier::external_type_specification]
#[verifier::external_body]
pub struct ExAnyhowError(anyhow::Error);

/// Why a service could not be built.
#[derive(Debug)]
pub enum ServiceBuildError {
    /// No constructor is registered for `ty`.
    ServiceNotFound { ty: TypeInfo },
    /// No lifecycle policy is registered for `ty`.
    ScopeNotFound { ty: TypeInfo },
    /// Nothing is registered under the destination `ty`.
    MappingNotFound { ty: TypeInfo },
    /// A converter was handed a value that is not of its source type.
    InvalidMappingLayerBoxedInputType { expected: TypeInfo, found: TypeInfo },
    /// A resolved value is not of the type that the caller asked for.
    InvalidMappingLayerBoxedOutputType { expected: TypeInfo, found: TypeInfo },
    /// A freshly built value could not be taken into its thread-safe form.
    InvalidScopeLayerBoxedInputType { expected: TypeInfo, found: TypeInfo },
    /// A cached value could not be split in two.
    UnexpectedSingletoneSplitterParams { expected: TypeInfo, found: TypeInfo },
    /// A copy could not be taken out of its thread-safe form.
    InvalidScopeLayerBoxedOutputType { expected: TypeInfo, found: TypeInfo },
    /// The error of a registered constructor or converter, unchanged.
    Custom(anyhow::Error),
    /// A task-scoped service was asked for outside every task scope.
    TaskLocalContextNotInitialized { ty: TypeInfo },
    /// A thread-scoped service was asked for where the thread has no registry.
    ThreadLocalContextNotInitialized { ty: TypeInfo },
}

pub type ServiceBuildResult<TRes> = Result<TRes, ServiceBuildError>;

impl From<anyhow::Error> for ServiceBuildError {
    fn from(value: anyhow::Error) -> (r: Self) {
        ServiceBuildError::Custom(value)
    }
}

impl FromSpecImpl<anyhow::Error> for ServiceBuildError {
    open spec fn obeys_from_spec() -> bool {
        true
    }

    open spec fn from_spec(value: anyhow::Error) -> Self {
        ServiceBuildError::Custom(value)
    }
}

/// `anyhow::Error`'s `Display`, as a `String`: the message of the error of a
/// constructor or converter.
#[verifier::external_body]
fn custom_text(error: &anyhow::Error) -> String {
    error.to_string()
}

/// Whether `text` begins with `head`.
pub open spec fn begins_with(text: Seq<char>, head: Seq<char>) -> bool {
    head.len() <= text.len() && text.subrange(0, head.len() as int) == head
}

/// `format!`: `head`, then the key that was expected and the key that was
/// found, each as its `Debug` prints it.
#[verifier::external_body]
fn text_with_keys(head: &str, expected: &TypeInfo, found: &TypeInfo) -> (r: String)
    ensures
        begins_with(r@, head@),
{
    format!("{}. Expected {:?} found {:?}", head, expected, found)
}

/// `format!`: `head`, then the key that was asked for, as its `Debug` prints
/// it.
#[verifier::external_body]
fn text_with_key(head: &str, ty: &TypeInfo) -> (r: String)
    ensures
        begins_with(r@, head@),
{
    format!("{} while resolve {:?}", head, ty)
}

impl ServiceBuildError {
    /// How the message of the error begins; nothing is laid down for the
    /// error of a constructor or converter.
    pub open spec fn text(self) -> Option<&'static str> {
        match self {
            ServiceBuildError::ServiceNotFound { .. } => Some("Service not found"),
            ServiceBuildError::ScopeNotFound { .. } => Some("Scope not found"),
            ServiceBuildError::MappingNotFound { .. } => Some("Mapping not found"),
            ServiceBuildError::InvalidMappingLayerBoxedInputType { .. } => Some(
                "Invalid mapping layer boxed input type",
            ),
            ServiceBuildError::InvalidMappingLayerBoxedOutputType { .. } => Some(
                "Invalid mapping layer boxed output type",
            ),
            ServiceBuildError::InvalidScopeLayerBoxedInputType { .. } => Some(
                "Invalid scope layer boxed input type",
            ),
            ServiceBuildError::UnexpectedSingletoneSplitterParams { .. } => Some(
                "Unexpected singletone splitter params",
            ),
            ServiceBuildError::InvalidScopeLayerBoxedOutputType { .. } => Some(
                "Invalid scope layer boxed output type",
            ),
            ServiceBuildError::Custom(_) => None,
            ServiceBuildError::TaskLocalContextNotInitialized { .. } => Some(
                "Task local context not initialized",
            ),
            ServiceBuildError::ThreadLocalContextNotInitialized { .. } => Some(
                "Thread local context not initialized",
            ),
        }
    }

    /// Whether the message of the error goes on, after its beginning, with
    /// the keys that the error carries.
    pub open spec fn names_keys(self) -> bool {
        !(self is ServiceNotFound || self is ScopeNotFound || self is MappingNotFound
            || self is Custom)
    }

    /// What the error says: its text, followed by the keys that it carries
    /// where it carries a key that was expected and one that was found, or
    /// the key that was asked for outside its scope. The error of a
    /// constructor or converter speaks for itself.
    pub fn message(&self) -> (r: String)
        ensures
            self.text() matches Some(text) ==> begins_with(r@, text@),
            self.text() matches Some(text) ==> (self.names_keys() || r@ == text@),
    {
        match self {
            ServiceBuildError::ServiceNotFound { .. } => {
                let r = "Service not found".to_owned();
                assert(r@.subrange(0, r@.len() as int) == r@);
                r
            },
            ServiceBuildError::ScopeNotFound { .. } => {
                let r = "Scope not found".to_owned();
                assert(r@.subrange(0, r@.len() as int) == r@);
                r
            },
            ServiceBuildError::MappingNotFound { .. } => {
                let r = "Mapping not found".to_owned();
                assert(r@.subrange(0, r@.len() as int) == r@);
                r
            },
            ServiceBuildError::InvalidMappingLayerBoxedInputType { expected, found } => {
                text_with_keys("Invalid mapping layer boxed input type", expected, found)
            },
            ServiceBuildError::InvalidMappingLayerBoxedOutputType { expected, found } => {
                text_with_keys("Invalid mapping layer boxed output type", expected, found)
            },
            ServiceBuildError::InvalidScopeLayerBoxedInputType { expected, found } => {
                text_with_keys("Invalid scope layer boxed input type", expected, found)
            },
            ServiceBuildError::UnexpectedSingletoneSplitterParams { expected, found } => {
                text_with_keys("Unexpected singletone splitter params", expected, found)
            },
            ServiceBuildError::InvalidScopeLayerBoxedOutputType { expected, found } => {
                text_with_keys("Invalid scope layer boxed output type", expected, found)
            },
            ServiceBuildError::Custom(error) => custom_text(error),
            ServiceBuildError::TaskLocalContextNotInitialized { ty } => {
                text_with_key("Task local context not initialized", ty)
            },
            ServiceBuildError::ThreadLocalContextNotInitialized { ty } => {
                text_with_key("Thread local context not initialized", ty)
            },
        }
    }
}

} // verus!
