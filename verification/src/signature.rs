//! Function declarations as structured values.
//!
//! A declaration is held in the pieces that loosening reads: its name, its
//! qualifiers, its generic parameters, its parameters one by one and its
//! return type. Each piece that is only carried along is a fragment of source
//! text.

use vstd::prelude::*;
use crate::text::copy_text;
use crate::text::optional;
use crate::text::push_optional;
use crate::text::push_spaced;
use crate::text::push_separated;
use crate::text::separated;
use crate::text::spaced;

verus! {

/// The forms that a parameter of a function can take.
#[derive(Clone, Copy, Debug, PartialEq, Eq, Structural)]
pub enum ParameterKind {
    /// A pattern with its type: `n: usize`.
    Typed,
    /// The receiver of a method, by reference: `&self`, `&mut self`.
    SelfRef,
    /// The receiver of a method, by value: `self`, `mut self`.
    SelfValue,
    /// A pattern that carries no type.
    Untyped,
    /// A type that is bound to no pattern.
    Unnamed,
}

/// One parameter of a function declaration.
#[derive(Clone, Debug, PartialEq, Eq)]
pub enum Parameter {
    /// A pattern with its type: `n: usize`.
    Typed { pattern: String, ty: String },
    /// The receiver of a method, by reference, as it is written.
    SelfRef { text: String },
    /// The receiver of a method, by value, as it is written.
    SelfValue { text: String },
    /// A pattern that carries no type.
    Untyped { pattern: String },
    /// A type that is bound to no pattern.
    Unnamed { ty: String },
}

/// What a [`Parameter`] holds, as plain text.
pub enum ParameterView {
    Typed { pattern: Seq<char>, ty: Seq<char> },
    SelfRef { text: Seq<char> },
    SelfValue { text: Seq<char> },
    Untyped { pattern: Seq<char> },
    Unnamed { ty: Seq<char> },
}

impl ParameterView {
    /// The form of this parameter.
    pub open spec fn kind(self) -> ParameterKind {
        match self {
            ParameterView::Typed { .. } => ParameterKind::Typed,
            ParameterView::SelfRef { .. } => ParameterKind::SelfRef,
            ParameterView::SelfValue { .. } => ParameterKind::SelfValue,
            ParameterView::Untyped { .. } => ParameterKind::Untyped,
            ParameterView::Unnamed { .. } => ParameterKind::Unnamed,
        }
    }

    /// The parameter as it stands in a parameter list.
    pub open spec fn text(self) -> Seq<char> {
        match self {
            ParameterView::Typed { pattern, ty } => pattern + ": "@ + ty,
            ParameterView::SelfRef { text } => text,
            ParameterView::SelfValue { text } => text,
            ParameterView::Untyped { pattern } => pattern,
            ParameterView::Unnamed { ty } => ty,
        }
    }
}

impl View for Parameter {
    type V = ParameterView;

    open spec fn view(&self) -> ParameterView {
        match self {
            Parameter::Typed { pattern, ty } => ParameterView::Typed { pattern: pattern@, ty: ty@ },
            Parameter::SelfRef { text } => ParameterView::SelfRef { text: text@ },
            Parameter::SelfValue { text } => ParameterView::SelfValue { text: text@ },
            Parameter::Untyped { pattern } => ParameterView::Untyped { pattern: pattern@ },
            Parameter::Unnamed { ty } => ParameterView::Unnamed { ty: ty@ },
        }
    }
}

impl Parameter {
    /// The form of this parameter.
    pub fn kind(&self) -> (kind: ParameterKind)
        ensures
            kind == self@.kind(),
    {
        match self {
            Parameter::Typed { .. } => ParameterKind::Typed,
            Parameter::SelfRef { .. } => ParameterKind::SelfRef,
            Parameter::SelfValue { .. } => ParameterKind::SelfValue,
            Parameter::Untyped { .. } => ParameterKind::Untyped,
            Parameter::Unnamed { .. } => ParameterKind::Unnamed,
        }
    }

    /// The parameter as it stands in a parameter list.
    pub fn render(&self) -> (out: String)
        ensures
            out@ == self@.text(),
    {
        match self {
            Parameter::Typed { pattern, ty } => {
                let mut out = copy_text(pattern);
                out.append(": ");
                out.append(ty.as_str());
                out
            },
            Parameter::SelfRef { text } => copy_text(text),
            Parameter::SelfValue { text } => copy_text(text),
            Parameter::Untyped { pattern } => copy_text(pattern),
            Parameter::Unnamed { ty } => copy_text(ty),
        }
    }
}

/// The declaration of a function: its header and its body.
#[derive(Clone, Debug, PartialEq, Eq)]
pub struct FunctionSignature {
    /// The visibility marker as it is written (`pub`, `pub(crate)`), empty
    /// where the function has none.
    pub visibility: String,
    /// Whether the function is declared `const`.
    pub is_const: bool,
    /// Whether the function is declared `async`.
    pub is_async: bool,
    /// Whether the function is declared `unsafe`.
    pub is_unsafe: bool,
    /// The calling convention behind `extern`, quotes included, where the
    /// function names one; `Some` of the empty text for a bare `extern`.
    pub abi: Option<String>,
    /// The function's identifier.
    pub name: String,
    /// The generic parameters, in the order of their declaration.
    pub generics: Vec<String>,
    /// The parameters, in the order of their declaration.
    pub parameters: Vec<Parameter>,
    /// Whether the parameter list ends in `...`.
    pub is_variadic: bool,
    /// The return type, or `None` where the function declares none.
    pub output: Option<String>,
    /// The body, braces included.
    pub body: String,
}

/// What a [`FunctionSignature`] holds, as plain text.
pub struct SignatureView {
    pub visibility: Seq<char>,
    pub is_const: bool,
    pub is_async: bool,
    pub is_unsafe: bool,
    pub abi: Option<Seq<char>>,
    pub name: Seq<char>,
    pub generics: Seq<Seq<char>>,
    pub parameters: Seq<ParameterView>,
    pub is_variadic: bool,
    pub output: Option<Seq<char>>,
    pub body: Seq<char>,
}

/// The views of `parameters`, in order.
pub open spec fn parameter_views(parameters: Seq<Parameter>) -> Seq<ParameterView> {
    Seq::new(parameters.len(), |i: int| parameters[i]@)
}

/// The texts of `parameters` as they stand in a parameter list, in order.
pub open spec fn parameter_texts(parameters: Seq<ParameterView>) -> Seq<Seq<char>> {
    Seq::new(parameters.len(), |i: int| parameters[i].text())
}

/// The generic parameter list with its angle brackets, or nothing where the
/// function has no generic parameter.
pub open spec fn generics_text(generics: Seq<Seq<char>>) -> Seq<char> {
    if generics.len() == 0 {
        Seq::empty()
    } else {
        "<"@ + separated(generics, ", "@) + ">"@
    }
}

/// The `extern` qualifier with the calling convention that it names.
pub open spec fn abi_text(abi: Option<Seq<char>>) -> Seq<char> {
    match abi {
        Some(convention) => "extern "@ + spaced(convention),
        None => Seq::empty(),
    }
}

/// The `...` that ends a variadic parameter list, behind a comma where
/// parameters stand before it.
pub open spec fn variadic_text(is_variadic: bool, parameters: nat) -> Seq<char> {
    optional(is_variadic && parameters > 0, ", "@) + optional(is_variadic, "..."@)
}

/// The arrow and the return type, or nothing where none is declared.
pub open spec fn output_text(output: Option<Seq<char>>) -> Seq<char> {
    match output {
        Some(ty) => " -> "@ + ty,
        None => Seq::empty(),
    }
}

impl SignatureView {
    /// What stands before `fn`: the visibility and the qualifiers.
    pub open spec fn qualifiers_text(self) -> Seq<char> {
        spaced(self.visibility) + optional(self.is_const, "const "@) + optional(
            self.is_async,
            "async "@,
        ) + optional(self.is_unsafe, "unsafe "@) + abi_text(self.abi)
    }

    /// The parameter list with its round brackets.
    pub open spec fn parameter_list_text(self) -> Seq<char> {
        "("@ + separated(parameter_texts(self.parameters), ", "@) + variadic_text(
            self.is_variadic,
            self.parameters.len(),
        ) + ")"@
    }

    /// The declaration from its visibility to the closing bracket of its
    /// parameter list.
    pub open spec fn head_text(self) -> Seq<char> {
        self.qualifiers_text() + "fn "@ + self.name + generics_text(self.generics)
            + self.parameter_list_text()
    }

    /// The declaration as source text, on one line.
    pub open spec fn text(self) -> Seq<char> {
        self.head_text() + output_text(self.output) + " "@ + self.body
    }
}

impl View for FunctionSignature {
    type V = SignatureView;

    open spec fn view(&self) -> SignatureView {
        SignatureView {
            visibility: self.visibility@,
            is_const: self.is_const,
            is_async: self.is_async,
            is_unsafe: self.is_unsafe,
            abi: self.abi.deep_view(),
            name: self.name@,
            generics: self.generics.deep_view(),
            parameters: parameter_views(self.parameters@),
            is_variadic: self.is_variadic,
            output: self.output.deep_view(),
            body: self.body@,
        }
    }
}

/// The parameters of `parameters` as they stand in a parameter list.
fn render_parameters(parameters: &Vec<Parameter>) -> (out: Vec<String>)
    ensures
        out.deep_view() == parameter_texts(parameter_views(parameters@)),
{
    let mut out: Vec<String> = Vec::new();
    let mut i: usize = 0;
    while i < parameters.len()
        invariant
            i <= parameters.len(),
            out.len() == i,
            forall|j: int| 0 <= j < i ==> out[j]@ == parameters[j]@.text(),
        decreases parameters.len() - i,
    {
        out.push(parameters[i].render());
        i += 1;
    }
    out
}

/// Appends the `extern` qualifier with the calling convention that it names.
fn push_abi(out: &mut String, abi: &Option<String>)
    ensures
        final(out)@ == old(out)@ + abi_text(abi.deep_view()),
{
    match abi {
        Some(convention) => {
            out.append("extern ");
            push_spaced(out, convention);
        },
        None => {},
    }
}

/// Appends the generic parameter list with its angle brackets.
fn push_generics(out: &mut String, generics: &Vec<String>)
    ensures
        final(out)@ == old(out)@ + generics_text(generics.deep_view()),
{
    if generics.len() > 0 {
        out.append("<");
        push_separated(out, generics, ", ");
        out.append(">");
    }
}

/// Appends the arrow and the return type.
fn push_output(out: &mut String, output: &Option<String>)
    ensures
        final(out)@ == old(out)@ + output_text(output.deep_view()),
{
    match output {
        Some(ty) => {
            out.append(" -> ");
            out.append(ty.as_str());
        },
        None => {},
    }
}

impl FunctionSignature {
    /// Appends what stands before `fn`: the visibility and the qualifiers.
    fn push_qualifiers(&self, out: &mut String)
        ensures
            final(out)@ == old(out)@ + self@.qualifiers_text(),
    {
        push_spaced(out, &self.visibility);
        push_optional(out, self.is_const, "const ");
        push_optional(out, self.is_async, "async ");
        push_optional(out, self.is_unsafe, "unsafe ");
        push_abi(out, &self.abi);
    }

    /// Appends the parameter list with its round brackets.
    fn push_parameter_list(&self, out: &mut String)
        ensures
            final(out)@ == old(out)@ + self@.parameter_list_text(),
    {
        let parameters = render_parameters(&self.parameters);
        out.append("(");
        push_separated(out, &parameters, ", ");
        push_optional(out, self.is_variadic && self.parameters.len() > 0, ", ");
        push_optional(out, self.is_variadic, "...");
        out.append(")");
    }

    /// The declaration as source text, on one line.
    pub fn render(&self) -> (out: String)
        ensures
            out@ == self@.text(),
    {
        let mut out = String::new();
        self.push_qualifiers(&mut out);
        out.append("fn ");
        out.append(self.name.as_str());
        push_generics(&mut out, &self.generics);
        self.push_parameter_list(&mut out);
        push_output(&mut out, &self.output);
        out.append(" ");
        out.append(self.body.as_str());
        out
    }
}

} // verus!
