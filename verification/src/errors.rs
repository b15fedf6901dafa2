//! The reasons for which no boundary function can be built for an item.

use vstd::prelude::*;

verus! {

/// Why a type has no boundary form, a callable no boundary function, or a
/// type no C++ text.
#[derive(Clone, Copy, Debug, PartialEq, Eq, Structural)]
pub enum FfiError {
    /// The callable takes a variable number of arguments.
    VariadicArguments,
    /// A type is, or contains, an unresolved template parameter.
    TemplateParameter,
    /// A function pointer type is variadic, or its signature holds another
    /// function pointer, a class by value or a reference.
    UnsupportedFunctionPointer,
    /// A type is an rvalue reference.
    RValueReference,
    /// A reference-to-pointer conversion was asked for a type that is no
    /// reference.
    NotAReference,
    /// A name for the pointer was given for a type that is no function pointer.
    UnexpectedInnerText,
    /// A function pointer type was to be written without a name for the pointer.
    MissingInnerText,
}

impl FfiError {
    /// The text of the message for this error.
    pub open spec fn message_text(self) -> Seq<char> {
        match self {
            FfiError::VariadicArguments => "Variable arguments are not supported"@,
            FfiError::TemplateParameter => "template parameters cannot be expressed in FFI"@,
            FfiError::UnsupportedFunctionPointer => "function pointer type is not supported"@,
            FfiError::RValueReference => "rvalue references are not supported"@,
            FfiError::NotAReference => "reference conversion applied to a non-reference type"@,
            FfiError::UnexpectedInnerText => "unexpected function_pointer_inner_text"@,
            FfiError::MissingInnerText => "function_pointer_inner_text argument is missing"@,
        }
    }

    /// A message that describes the error.
    pub fn message(&self) -> (r: String)
        ensures
            r@ == self.message_text(),
    {
        match self {
            FfiError::VariadicArguments => String::from_str("Variable arguments are not supported"),
            FfiError::TemplateParameter => String::from_str(
                "template parameters cannot be expressed in FFI",
            ),
            FfiError::UnsupportedFunctionPointer => String::from_str(
                "function pointer type is not supported",
            ),
            FfiError::RValueReference => String::from_str("rvalue references are not supported"),
            FfiError::NotAReference => String::from_str(
                "reference conversion applied to a non-reference type",
            ),
            FfiError::UnexpectedInnerText => String::from_str(
                "unexpected function_pointer_inner_text",
            ),
            FfiError::MissingInnerText => String::from_str(
                "function_pointer_inner_text argument is missing",
            ),
        }
    }
}

} // verus!
