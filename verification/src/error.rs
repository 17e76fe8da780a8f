//! Why an interface description is rejected.

use vstd::prelude::*;
use vstd::string::StringExecFns;

verus! {

/// The rule that a rejected interface breaks.
#[derive(Debug, Clone, Copy, PartialEq, Eq, Structural)]
pub enum ErrorKind {
    /// The trait has generic parameters, in a `<..>` list after its name.
    Lifetime,
    /// The trait has generic parameters, and no `<..>` list is written.
    GenericParams,
    /// The trait is declared `auto`.
    Auto,
    /// The trait is declared `unsafe`.
    Unsafe,
    /// More than one bound follows the colon.
    MultipleSupertraits,
    /// The body of the trait is empty.
    NoFunctions,
    /// The bound after the colon is not a trait.
    BaseNotTrait,
    /// The body holds an item that is not a method.
    NonFunctionItem,
    /// A method does not begin with `&self` or `&mut self`.
    MissingRefReceiver,
}

/// A rejection: the rule, and the name of what broke it. For
/// [`ErrorKind::MissingRefReceiver`] that is the method, for every other
/// kind the trait.
#[derive(Debug, PartialEq, Eq)]
pub struct VtableError {
    pub kind: ErrorKind,
    pub name: String,
}

pub struct VtableErrorView {
    pub kind: ErrorKind,
    pub name: Seq<char>,
}

impl DeepView for VtableError {
    type V = VtableErrorView;

    open spec fn deep_view(&self) -> VtableErrorView {
        VtableErrorView { kind: self.kind, name: self.name.deep_view() }
    }
}

impl View for VtableError {
    type V = VtableErrorView;

    open spec fn view(&self) -> VtableErrorView {
        self.deep_view()
    }
}

/// The sentence that states a rule.
pub open spec fn rule_text(kind: ErrorKind) -> Seq<char> {
    match kind {
        ErrorKind::Lifetime => "vtable trait cannot be given a lifetime"@,
        ErrorKind::GenericParams => "vtable traits do not support generic parameters yet"@,
        ErrorKind::Auto => "vtable trait cannot be auto"@,
        ErrorKind::Unsafe => "vtable trait cannot be unsafe"@,
        ErrorKind::MultipleSupertraits => "vtable trait can only have a single supertrait"@,
        ErrorKind::NoFunctions => "vtable trait must contain at least one function"@,
        ErrorKind::BaseNotTrait =>
            "vtable trait's bounds must be a single trait representing the base class's vtable."@,
        ErrorKind::NonFunctionItem => "vtable trait can only contain functions"@,
        ErrorKind::MissingRefReceiver => "must have &self or &mut self parameter"@,
    }
}

/// The message of a rejection. A method is named inside the sentence; a
/// trait is named in front of it.
pub open spec fn message_text(e: VtableErrorView) -> Seq<char> {
    if e.kind == ErrorKind::MissingRefReceiver {
        "vtable trait method \""@ + e.name + "\" "@ + rule_text(e.kind)
    } else {
        e.name + ": "@ + rule_text(e.kind)
    }
}

impl VtableError {
    /// The sentence that states the rule that was broken.
    fn rule(&self) -> (r: &'static str)
        ensures
            r@ == rule_text(self.kind),
    {
        match self.kind {
            ErrorKind::Lifetime => "vtable trait cannot be given a lifetime",
            ErrorKind::GenericParams => "vtable traits do not support generic parameters yet",
            ErrorKind::Auto => "vtable trait cannot be auto",
            ErrorKind::Unsafe => "vtable trait cannot be unsafe",
            ErrorKind::MultipleSupertraits => "vtable trait can only have a single supertrait",
            ErrorKind::NoFunctions => "vtable trait must contain at least one function",
            ErrorKind::BaseNotTrait =>
                "vtable trait's bounds must be a single trait representing the base class's vtable.",
            ErrorKind::NonFunctionItem => "vtable trait can only contain functions",
            ErrorKind::MissingRefReceiver => "must have &self or &mut self parameter",
        }
    }

    /// The message to fail the build with.
    pub fn message(&self) -> (r: String)
        ensures
            r@ == message_text(self@),
    {
        match self.kind {
            ErrorKind::MissingRefReceiver => {
                let mut text = String::from_str("vtable trait method \"");
                text.append(self.name.as_str());
                text.append("\" ");
                text.append(self.rule());
                text
            },
            _ => {
                let mut text = self.name.clone();
                text.append(": ");
                text.append(self.rule());
                text
            },
        }
    }
}

} // verus!
