//! The loosened sibling of a function.

use vstd::prelude::*;
use crate::signature::FunctionSignature;
use crate::signature::Parameter;
use crate::signature::ParameterView;
use crate::signature::SignatureView;
use crate::text::copy_optional_text;
use crate::text::copy_text;
use crate::text::copy_texts;
use crate::text::each_followed_by;
use crate::text::push_each_followed_by;
use crate::text::push_separated;
use crate::text::separated;

verus! {

/// The suffix by which the name of a loosened function differs from the name
/// of the function that it calls.
pub open spec fn loose_suffix() -> Seq<char> {
    "_loose"@
}

/// The name of the loosened sibling of the function called `name`.
pub open spec fn loose_name(name: Seq<char>) -> Seq<char> {
    name + loose_suffix()
}

/// A tuple of `items`: round brackets round the items, a comma behind each.
/// One item gives a tuple of one, none gives the unit.
pub open spec fn tuple_text(items: Seq<Seq<char>>) -> Seq<char> {
    "("@ + separated(each_followed_by(items, ","@), " "@) + ")"@
}

/// A call of `callee` on `arguments`, in their order.
pub open spec fn call_text(callee: Seq<char>, arguments: Seq<Seq<char>>) -> Seq<char> {
    callee + "("@ + separated(arguments, ", "@) + ")"@
}

/// The value that the pattern `name` stands for once the tuple `values` has
/// been unpacked into `patterns`, component by component.
pub open spec fn bound_value<V>(patterns: Seq<Seq<char>>, values: Seq<V>, name: Seq<char>) -> V
    recommends
        patterns.len() == values.len(),
        patterns.contains(name),
{
    values[patterns.index_of(name)]
}

/// A function that takes one tuple, unpacks it and hands its components to
/// another function.
#[derive(Clone, Debug, PartialEq, Eq)]
pub struct WrapperFunction {
    /// The visibility marker, empty where the function has none.
    pub visibility: String,
    /// Whether the function is declared `const`.
    pub is_const: bool,
    /// Whether the function is declared `unsafe`.
    pub is_unsafe: bool,
    /// The function's identifier.
    pub name: String,
    /// The generic parameters, in the order of their declaration.
    pub generics: Vec<String>,
    /// The patterns that the tuple is unpacked into, component by component.
    pub patterns: Vec<String>,
    /// The types of the tuple's components, in order.
    pub types: Vec<String>,
    /// The return type, or `None` where the function declares none.
    pub output: Option<String>,
    /// The identifier of the function that the body calls.
    pub callee: String,
    /// The arguments of that call, in order.
    pub arguments: Vec<String>,
}

/// What a [`WrapperFunction`] holds, as plain text.
pub struct WrapperView {
    pub visibility: Seq<char>,
    pub is_const: bool,
    pub is_unsafe: bool,
    pub name: Seq<char>,
    pub generics: Seq<Seq<char>>,
    pub patterns: Seq<Seq<char>>,
    pub types: Seq<Seq<char>>,
    pub output: Option<Seq<char>>,
    pub callee: Seq<char>,
    pub arguments: Seq<Seq<char>>,
}

impl WrapperView {
    /// Whether this is a forwarder: every component of the tuple has a pattern
    /// and a type, the call passes on exactly what the tuple was unpacked
    /// into, and the name is that of the callee with the suffix.
    pub open spec fn well_formed(self) -> bool {
        &&& self.patterns.len() == self.types.len()
        &&& self.arguments == self.patterns
        &&& self.name == loose_name(self.callee)
    }

    /// The values that the call in the body hands on when the function is
    /// called with the tuple `values`: each argument stands for the component
    /// that its pattern was bound to.
    pub open spec fn forwarded<V>(self, values: Seq<V>) -> Seq<V>
        recommends
            self.patterns.len() == values.len(),
    {
        Seq::new(
            self.arguments.len(),
            |i: int| bound_value(self.patterns, values, self.arguments[i]),
        )
    }

    /// What a call of the function with the tuple `values` results in, where
    /// `behaviour` says what a call of the callee results in for each list of
    /// arguments: the body is the forwarding call and nothing else, so the
    /// result is that of the callee on what is handed on.
    pub open spec fn result<V, R>(self, behaviour: spec_fn(Seq<V>) -> R, values: Seq<V>) -> R
        recommends
            self.patterns.len() == values.len(),
    {
        behaviour(self.forwarded(values))
    }

    /// The one parameter of the function: the tuple pattern with the tuple
    /// type.
    pub open spec fn parameter(self) -> ParameterView {
        ParameterView::Typed { pattern: tuple_text(self.patterns), ty: tuple_text(self.types) }
    }

    /// The body of the function: a block that holds the forwarding call and
    /// nothing else.
    pub open spec fn body_text(self) -> Seq<char> {
        "{ "@ + call_text(self.callee, self.arguments) + " }"@
    }

    /// The function as a declaration like any other.
    pub open spec fn signature(self) -> SignatureView {
        SignatureView {
            visibility: self.visibility,
            is_const: self.is_const,
            is_async: false,
            is_unsafe: self.is_unsafe,
            abi: None,
            name: self.name,
            generics: self.generics,
            parameters: seq![self.parameter()],
            is_variadic: false,
            output: self.output,
            body: self.body_text(),
        }
    }

    /// The function as source text, on one line, marked for inlining.
    pub open spec fn text(self) -> Seq<char> {
        "#[inline] "@ + self.signature().text()
    }
}

impl View for WrapperFunction {
    type V = WrapperView;

    open spec fn view(&self) -> WrapperView {
        WrapperView {
            visibility: self.visibility@,
            is_const: self.is_const,
            is_unsafe: self.is_unsafe,
            name: self.name@,
            generics: self.generics.deep_view(),
            patterns: self.patterns.deep_view(),
            types: self.types.deep_view(),
            output: self.output.deep_view(),
            callee: self.callee@,
            arguments: self.arguments.deep_view(),
        }
    }
}

/// Builds the name of the loosened sibling of the function called `name`.
pub fn make_loose_name(name: &String) -> (out: String)
    ensures
        out@ == loose_name(name@),
{
    let mut out = copy_text(name);
    out.append("_loose");
    out
}

/// Builds a tuple of `items`.
pub fn make_tuple(items: &Vec<String>) -> (out: String)
    ensures
        out@ == tuple_text(items.deep_view()),
{
    let mut out = String::from_str("(");
    push_each_followed_by(&mut out, items, ",");
    out.append(")");
    out
}

/// Builds a call of `callee` on `arguments`.
pub fn make_call(callee: &String, arguments: &Vec<String>) -> (out: String)
    ensures
        out@ == call_text(callee@, arguments.deep_view()),
{
    let mut out = copy_text(callee);
    out.append("(");
    push_separated(&mut out, arguments, ", ");
    out.append(")");
    out
}

impl WrapperFunction {
    /// The function as a declaration like any other: its one parameter is the
    /// tuple, its body the forwarding call.
    pub fn to_signature(&self) -> (out: FunctionSignature)
        ensures
            out@ == self@.signature(),
    {
        let mut body = String::from_str("{ ");
        let call = make_call(&self.callee, &self.arguments);
        body.append(call.as_str());
        body.append(" }");
        let mut parameters: Vec<Parameter> = Vec::new();
        parameters.push(
            Parameter::Typed { pattern: make_tuple(&self.patterns), ty: make_tuple(&self.types) },
        );
        let out = FunctionSignature {
            visibility: copy_text(&self.visibility),
            is_const: self.is_const,
            is_async: false,
            is_unsafe: self.is_unsafe,
            abi: None,
            name: copy_text(&self.name),
            generics: copy_texts(&self.generics),
            parameters,
            is_variadic: false,
            output: copy_optional_text(&self.output),
            body,
        };
        assert(out@.parameters =~= self@.signature().parameters);
        out
    }

    /// The function as source text, on one line, marked for inlining.
    pub fn render(&self) -> (out: String)
        ensures
            out@ == self@.text(),
    {
        let mut out = String::from_str("#[inline] ");
        let declaration = self.to_signature().render();
        out.append(declaration.as_str());
        out
    }
}

} // verus!
