//! Loosening: from one declaration to two.

use vstd::prelude::*;
use crate::error::LooseError;
use crate::signature::parameter_views;
use crate::signature::FunctionSignature;
use crate::signature::Parameter;
use crate::signature::ParameterKind;
use crate::signature::ParameterView;
use crate::signature::SignatureView;
use crate::text::copy_optional_text;
use crate::text::copy_text;
use crate::text::copy_texts;
use crate::wrapper::loose_name;
use crate::wrapper::make_loose_name;
use crate::wrapper::WrapperFunction;
use crate::wrapper::WrapperView;

verus! {

/// Whether every parameter is a pattern with its type.
pub open spec fn all_typed(parameters: Seq<ParameterView>) -> bool {
    forall|i: int| 0 <= i < parameters.len() ==> (#[trigger] parameters[i]) is Typed
}

/// Whether the parameter at `index` is the first, in declaration order, that
/// is not a pattern with its type.
pub open spec fn first_unsupported_at(parameters: Seq<ParameterView>, index: int) -> bool {
    &&& 0 <= index < parameters.len()
    &&& parameters[index] !is Typed
    &&& all_typed(parameters.take(index))
}

/// Whether the declaration can be loosened: every parameter is a pattern
/// with its type, the parameter list is not variadic, and the function is
/// neither `async` nor `extern`.
pub open spec fn accepted(sig: SignatureView) -> bool {
    &&& all_typed(sig.parameters)
    &&& !sig.is_variadic
    &&& !sig.is_async
    &&& sig.abi is None
}

/// Whether `error` is what the declaration is turned down with. The first
/// unsupported parameter is reported before anything else, then a variadic
/// parameter list, then `async`, then `extern`.
pub open spec fn rejects_with(sig: SignatureView, error: LooseError) -> bool {
    match error {
        LooseError::UnsupportedParameter { index, kind } => {
            &&& first_unsupported_at(sig.parameters, index as int)
            &&& kind == sig.parameters[index as int].kind()
        },
        LooseError::Variadic => all_typed(sig.parameters) && sig.is_variadic,
        LooseError::Async => all_typed(sig.parameters) && !sig.is_variadic && sig.is_async,
        LooseError::ForeignAbi => {
            &&& all_typed(sig.parameters)
            &&& !sig.is_variadic
            &&& !sig.is_async
            &&& sig.abi is Some
        },
    }
}

/// The pattern of a typed parameter.
pub open spec fn pattern_of(parameter: ParameterView) -> Seq<char>
    recommends
        parameter is Typed,
{
    match parameter {
        ParameterView::Typed { pattern, .. } => pattern,
        _ => Seq::empty(),
    }
}

/// The type of a typed parameter.
pub open spec fn type_of(parameter: ParameterView) -> Seq<char>
    recommends
        parameter is Typed,
{
    match parameter {
        ParameterView::Typed { ty, .. } => ty,
        _ => Seq::empty(),
    }
}

/// The patterns of `parameters`, in declaration order.
pub open spec fn patterns_of(parameters: Seq<ParameterView>) -> Seq<Seq<char>> {
    Seq::new(parameters.len(), |i: int| pattern_of(parameters[i]))
}

/// The types of `parameters`, in declaration order.
pub open spec fn types_of(parameters: Seq<ParameterView>) -> Seq<Seq<char>> {
    Seq::new(parameters.len(), |i: int| type_of(parameters[i]))
}

/// The loosened sibling of an accepted declaration. It has the visibility,
/// the `const` and `unsafe` qualifiers, the generic parameters and the return
/// type of `sig`; its name is that of `sig` with `_loose` behind it; its tuple
/// holds the parameters of `sig` in declaration order; and it calls `sig` on
/// the patterns that the tuple was unpacked into, in that same order.
pub open spec fn wrapper_of(sig: SignatureView) -> WrapperView
    recommends
        accepted(sig),
{
    WrapperView {
        visibility: sig.visibility,
        is_const: sig.is_const,
        is_unsafe: sig.is_unsafe,
        name: loose_name(sig.name),
        generics: sig.generics,
        patterns: patterns_of(sig.parameters),
        types: types_of(sig.parameters),
        output: sig.output,
        callee: sig.name,
        arguments: patterns_of(sig.parameters),
    }
}

/// What loosening gives for one declaration: the declaration itself and its
/// loosened sibling, to stand side by side in that order.
#[derive(Clone, Debug, PartialEq, Eq)]
pub struct Loosened {
    /// The declaration that was given, as it was given.
    pub replica: FunctionSignature,
    /// Its loosened sibling.
    pub wrapper: WrapperFunction,
}

/// What a [`Loosened`] holds, as plain text.
pub struct LoosenedView {
    pub replica: SignatureView,
    pub wrapper: WrapperView,
}

impl LoosenedView {
    /// The two declarations as source text: the given one on the first line,
    /// its loosened sibling on the second.
    pub open spec fn text(self) -> Seq<char> {
        self.replica.text() + "\n"@ + self.wrapper.text()
    }
}

impl View for Loosened {
    type V = LoosenedView;

    open spec fn view(&self) -> LoosenedView {
        LoosenedView { replica: self.replica@, wrapper: self.wrapper@ }
    }
}

/// The pair that loosening gives for an accepted declaration.
pub open spec fn expansion(sig: SignatureView) -> LoosenedView
    recommends
        accepted(sig),
{
    LoosenedView { replica: sig, wrapper: wrapper_of(sig) }
}

/// The patterns and the types of `parameters`, each list in declaration
/// order.
fn unzip_parameters(parameters: &Vec<Parameter>) -> (out: (Vec<String>, Vec<String>))
    requires
        all_typed(parameter_views(parameters@)),
    ensures
        out.0.deep_view() == patterns_of(parameter_views(parameters@)),
        out.1.deep_view() == types_of(parameter_views(parameters@)),
{
    let ghost views = parameter_views(parameters@);
    let mut patterns: Vec<String> = Vec::new();
    let mut types: Vec<String> = Vec::new();
    let mut i: usize = 0;
    while i < parameters.len()
        invariant
            i <= parameters.len(),
            views == parameter_views(parameters@),
            all_typed(views),
            patterns.len() == i,
            types.len() == i,
            forall|j: int| 0 <= j < i ==> patterns[j]@ == pattern_of(views[j]),
            forall|j: int| 0 <= j < i ==> types[j]@ == type_of(views[j]),
        decreases parameters.len() - i,
    {
        assert(views[i as int] is Typed);
        match &parameters[i] {
            Parameter::Typed { pattern, ty } => {
                patterns.push(copy_text(pattern));
                types.push(copy_text(ty));
            },
            _ => {},
        }
        i += 1;
    }
    (patterns, types)
}

impl FunctionSignature {
    /// Decides whether the declaration can be loosened, and says why where it
    /// cannot.
    pub fn validate(&self) -> (out: Result<(), LooseError>)
        ensures
            out is Ok <==> accepted(self@),
            out matches Err(error) ==> rejects_with(self@, error),
    {
        let mut i: usize = 0;
        while i < self.parameters.len()
            invariant
                i <= self.parameters.len(),
                all_typed(self@.parameters.take(i as int)),
            decreases self.parameters.len() - i,
        {
            let kind = self.parameters[i].kind();
            match kind {
                ParameterKind::Typed => {},
                _ => {
                    assert(self@.parameters[i as int] !is Typed);
                    return Err(LooseError::UnsupportedParameter { index: i, kind });
                },
            }
            assert forall|j: int| 0 <= j < i + 1 implies (#[trigger] self@.parameters.take(
                i + 1,
            )[j]) is Typed by {
                if j < i {
                    assert(self@.parameters.take(i as int)[j] is Typed);
                }
            }
            i += 1;
        }
        assert(self@.parameters.take(i as int) =~= self@.parameters);
        if self.is_variadic {
            Err(LooseError::Variadic)
        } else if self.is_async {
            Err(LooseError::Async)
        } else if self.abi.is_some() {
            Err(LooseError::ForeignAbi)
        } else {
            Ok(())
        }
    }
}

/// Loosens a function declaration.
///
/// Where the declaration is accepted, the result holds the declaration as it
/// was given and, behind it, its loosened sibling: a function of one tuple
/// parameter that unpacks the tuple and calls the given function. Where it is
/// not, nothing is produced, and the error says which part of the declaration
/// stands in the way.
pub fn loose(item: FunctionSignature) -> (out: Result<Loosened, LooseError>)
    ensures
        out is Ok <==> accepted(item@),
        out matches Ok(pair) ==> pair@ == expansion(item@) && pair@.wrapper.well_formed(),
        out matches Err(error) ==> rejects_with(item@, error),
{
    match item.validate() {
        Err(error) => Err(error),
        Ok(()) => {
            let (patterns, types) = unzip_parameters(&item.parameters);
            let arguments = copy_texts(&patterns);
            let wrapper = WrapperFunction {
                visibility: copy_text(&item.visibility),
                is_const: item.is_const,
                is_unsafe: item.is_unsafe,
                name: make_loose_name(&item.name),
                generics: copy_texts(&item.generics),
                patterns,
                types,
                output: copy_optional_text(&item.output),
                callee: copy_text(&item.name),
                arguments,
            };
            Ok(Loosened { replica: item, wrapper })
        },
    }
}

impl Loosened {
    /// The two declarations as source text: the given one on the first line,
    /// its loosened sibling on the second.
    pub fn render(&self) -> (out: String)
        ensures
            out@ == self@.text(),
    {
        let mut out = self.replica.render();
        out.append("\n");
        let wrapper = self.wrapper.render();
        out.append(wrapper.as_str());
        out
    }
}

} // verus!
