//! What holds of every loosening.
//!
//! Each law is stated over [`expansion`] and [`wrapper_of`], the values that
//! [`loose`](crate::transform::loose) is bound to return, and over
//! [`accepted`] and [`rejects_with`], which say when it returns them.

use vstd::prelude::*;
use crate::error::LooseError;
use crate::signature::generics_text;
use crate::signature::output_text;
use crate::signature::parameter_texts;
use crate::signature::ParameterKind;
use crate::signature::ParameterView;
use crate::signature::SignatureView;
use crate::text::each_followed_by;
use crate::text::optional;
use crate::text::separated;
use crate::text::spaced;
use crate::transform::accepted;
use crate::transform::all_typed;
use crate::transform::expansion;
use crate::transform::first_unsupported_at;
use crate::transform::pattern_of;
use crate::transform::patterns_of;
use crate::transform::rejects_with;
use crate::transform::type_of;
use crate::transform::types_of;
use crate::transform::wrapper_of;
use crate::wrapper::loose_name;
use crate::wrapper::loose_suffix;
use crate::wrapper::tuple_text;
use crate::wrapper::WrapperView;

verus! {

/// An accepted declaration is turned down with no error.
pub proof fn lemma_accepted_has_no_error(sig: SignatureView, error: LooseError)
    requires
        accepted(sig),
    ensures
        !rejects_with(sig, error),
{
    if let LooseError::UnsupportedParameter { index, .. } = error {
        if first_unsupported_at(sig.parameters, index as int) {
            assert(sig.parameters[index as int] is Typed);
        }
    }
}

/// A declaration that is not accepted is turned down with some error, so that
/// loosening never ends without an answer.
pub proof fn lemma_not_accepted_has_error(sig: SignatureView) -> (error: LooseError)
    requires
        !accepted(sig),
        sig.parameters.len() <= usize::MAX,
    ensures
        rejects_with(sig, error),
{
    if all_typed(sig.parameters) {
        if sig.is_variadic {
            LooseError::Variadic
        } else if sig.is_async {
            LooseError::Async
        } else {
            LooseError::ForeignAbi
        }
    } else {
        let index = lemma_first_unsupported(sig.parameters);
        LooseError::UnsupportedParameter {
            index: index as usize,
            kind: sig.parameters[index].kind(),
        }
    }
}

/// Among parameters that are not all typed, one is the first that is not.
proof fn lemma_first_unsupported(parameters: Seq<ParameterView>) -> (index: int)
    requires
        !all_typed(parameters),
    ensures
        first_unsupported_at(parameters, index),
    decreases parameters.len(),
{
    let front = parameters.drop_last();
    if parameters.len() == 0 {
        0
    } else if all_typed(front) {
        let last = parameters.len() - 1;
        assert(parameters.take(last) =~= front);
        if parameters[last] is Typed {
            assert forall|i: int| 0 <= i < parameters.len() implies (
            #[trigger] parameters[i]) is Typed by {
                if i < last {
                    assert(front[i] is Typed);
                }
            }
        }
        last
    } else {
        let index = lemma_first_unsupported(front);
        assert(parameters.take(index) =~= front.take(index));
        index
    }
}

/// A declaration is turned down with one error and no other: the answer of
/// loosening is a function of the declaration.
pub proof fn lemma_error_is_unique(sig: SignatureView, first: LooseError, second: LooseError)
    requires
        rejects_with(sig, first),
        rejects_with(sig, second),
    ensures
        first == second,
{
    match (first, second) {
        (
            LooseError::UnsupportedParameter { index: i, .. },
            LooseError::UnsupportedParameter { index: j, .. },
        ) => {
            if i < j {
                assert(sig.parameters.take(j as int)[i as int] is Typed);
            }
            if j < i {
                assert(sig.parameters.take(i as int)[j as int] is Typed);
            }
        },
        (LooseError::UnsupportedParameter { index, .. }, _) => {
            assert(sig.parameters[index as int] is Typed);
        },
        (_, LooseError::UnsupportedParameter { index, .. }) => {
            assert(sig.parameters[index as int] is Typed);
        },
        _ => {},
    }
}

/// The parameter that an error points at is never a pattern with its type.
pub proof fn lemma_reported_parameter_is_unsupported(
    sig: SignatureView,
    index: usize,
    kind: ParameterKind,
)
    requires
        rejects_with(sig, LooseError::UnsupportedParameter { index, kind }),
    ensures
        index < sig.parameters.len(),
        kind != ParameterKind::Typed,
        kind == sig.parameters[index as int].kind(),
{
}

/// Called with a tuple, the wrapper calls the given function, and hands it
/// the components of the tuple in their order: the call that it makes is the
/// call that a caller would have made with those values, and whatever that
/// call results in, the wrapper results in the same. This holds where no two
/// parameters are bound by the same pattern, so that each argument stands
/// for one component.
pub proof fn lemma_wrapper_forwards<V, R>(
    sig: SignatureView,
    behaviour: spec_fn(Seq<V>) -> R,
    values: Seq<V>,
)
    requires
        accepted(sig),
        values.len() == sig.parameters.len(),
        patterns_of(sig.parameters).no_duplicates(),
    ensures
        wrapper_of(sig).callee == sig.name,
        wrapper_of(sig).forwarded(values) == values,
        wrapper_of(sig).result(behaviour, values) == behaviour(values),
{
    let wrapper = wrapper_of(sig);
    let patterns = wrapper.patterns;
    assert forall|i: int| 0 <= i < values.len() implies wrapper.forwarded(values)[i]
        == values[i] by {
        let found = patterns.index_of(wrapper.arguments[i]);
        assert(patterns[i] == wrapper.arguments[i]);
        assert(0 <= found < patterns.len() && patterns[found] == patterns[i]);
    }
    assert(wrapper.forwarded(values) =~= values);
}

/// The wrapper has the visibility, the `const` and `unsafe` qualifiers, the
/// generic parameters and the return type of the given function, each
/// unchanged, and no qualifier besides.
pub proof fn lemma_wrapper_keeps_signature(sig: SignatureView)
    requires
        accepted(sig),
    ensures
        wrapper_of(sig).signature().visibility == sig.visibility,
        wrapper_of(sig).signature().is_const == sig.is_const,
        wrapper_of(sig).signature().is_unsafe == sig.is_unsafe,
        wrapper_of(sig).signature().generics == sig.generics,
        wrapper_of(sig).signature().output == sig.output,
        wrapper_of(sig).signature().is_async == sig.is_async,
        wrapper_of(sig).signature().abi == sig.abi,
        wrapper_of(sig).signature().is_variadic == sig.is_variadic,
{
}

/// The tuple has one component for each parameter of the given function; the
/// component at each place has the pattern and the type of the parameter at
/// that place, and the argument at each place of the forwarding call is that
/// same pattern. Nothing is reordered.
pub proof fn lemma_wrapper_keeps_order(sig: SignatureView, i: int)
    requires
        accepted(sig),
        0 <= i < sig.parameters.len(),
    ensures
        wrapper_of(sig).patterns.len() == sig.parameters.len(),
        wrapper_of(sig).types.len() == sig.parameters.len(),
        wrapper_of(sig).arguments.len() == sig.parameters.len(),
        sig.parameters[i] == (ParameterView::Typed {
            pattern: wrapper_of(sig).patterns[i],
            ty: wrapper_of(sig).types[i],
        }),
        wrapper_of(sig).arguments[i] == pattern_of(sig.parameters[i]),
        wrapper_of(sig).types[i] == type_of(sig.parameters[i]),
{
    assert(sig.parameters[i] is Typed);
}

/// A wrapper takes exactly one parameter, a pattern with its type, however
/// many components its tuple has.
pub proof fn lemma_wrapper_takes_one_parameter(wrapper: WrapperView)
    ensures
        wrapper.signature().parameters.len() == 1,
        wrapper.signature().parameters[0] == (ParameterView::Typed {
            pattern: tuple_text(wrapper.patterns),
            ty: tuple_text(wrapper.types),
        }),
        accepted(wrapper.signature()),
{
    assert(wrapper.signature().parameters[0] is Typed);
}

/// Where the given function takes nothing, the one parameter of the wrapper
/// is the unit pattern with the unit type.
pub proof fn lemma_wrapper_of_no_parameters_takes_unit(sig: SignatureView)
    requires
        accepted(sig),
        sig.parameters.len() == 0,
    ensures
        wrapper_of(sig).signature().parameters.len() == 1,
        wrapper_of(sig).signature().parameters[0] == (ParameterView::Typed {
            pattern: "()"@,
            ty: "()"@,
        }),
{
    reveal_strlit("(");
    reveal_strlit(")");
    reveal_strlit("()");
    let none = Seq::<Seq<char>>::empty();
    assert(wrapper_of(sig).patterns =~= none);
    assert(wrapper_of(sig).types =~= none);
    assert(each_followed_by(none, ","@) =~= none);
    assert(tuple_text(none) =~= "()"@);
}

/// The wrapper is called as the given function is, with `_loose` behind: its
/// name is six characters longer and differs from the name of the function
/// that it calls.
pub proof fn lemma_wrapper_name(sig: SignatureView)
    requires
        accepted(sig),
    ensures
        wrapper_of(sig).name == sig.name + "_loose"@,
        wrapper_of(sig).name.len() == sig.name.len() + 6,
        wrapper_of(sig).name.subrange(0, sig.name.len() as int) == sig.name,
        wrapper_of(sig).name != sig.name,
        wrapper_of(sig).callee == sig.name,
{
    reveal_strlit("_loose");
    assert(loose_suffix().len() == 6);
    assert(loose_name(sig.name).subrange(0, sig.name.len() as int) =~= sig.name);
}

/// One fragment alone has no separator about it.
proof fn lemma_separated_one(item: Seq<char>, sep: Seq<char>)
    ensures
        separated(seq![item], sep) == item,
{
    let front = seq![item].drop_last();
    assert(front =~= Seq::<Seq<char>>::empty());
    assert(separated(front, sep) =~= Seq::<char>::empty());
    assert(separated(seq![item], sep) =~= item);
}

/// The parameter list of a wrapper: the tuple pattern, a colon and the tuple
/// type between round brackets.
proof fn lemma_wrapper_parameter_list(wrapper: WrapperView)
    ensures
        wrapper.signature().parameter_list_text() == "("@ + tuple_text(wrapper.patterns) + ": "@
            + tuple_text(wrapper.types) + ")"@,
{
    let parameter = tuple_text(wrapper.patterns) + ": "@ + tuple_text(wrapper.types);
    assert(parameter_texts(wrapper.signature().parameters) =~= seq![parameter]);
    lemma_separated_one(parameter, ", "@);
    assert(wrapper.signature().parameter_list_text() =~= "("@ + tuple_text(wrapper.patterns)
        + ": "@ + tuple_text(wrapper.types) + ")"@);
}

/// The body of a wrapper behind the return type: the forwarding call between
/// braces, one space before it.
proof fn lemma_wrapper_body(wrapper: WrapperView)
    ensures
        output_text(wrapper.output) + " "@ + wrapper.body_text() == output_text(wrapper.output)
            + " { "@ + wrapper.callee + "("@ + separated(wrapper.arguments, ", "@) + ") }"@,
{
    reveal_strlit(" { ");
    reveal_strlit(" ");
    reveal_strlit("{ ");
    reveal_strlit(" }");
    reveal_strlit(")");
    reveal_strlit(") }");
    assert(" { "@ =~= " "@ + "{ "@);
    assert(") }"@ =~= ")"@ + " }"@);
    assert(output_text(wrapper.output) + " "@ + wrapper.body_text() =~= output_text(
        wrapper.output,
    ) + " { "@ + wrapper.callee + "("@ + separated(wrapper.arguments, ", "@) + ") }"@);
}

/// Text put behind text may be grouped either way.
proof fn lemma_grouping(a: Seq<char>, b: Seq<char>, c: Seq<char>)
    ensures
        a + (b + c) == a + b + c,
{
    assert(a + (b + c) =~= a + b + c);
}

/// Five fragments put behind a text one by one, or all at once.
proof fn lemma_grouping_of_five(
    h: Seq<char>,
    a: Seq<char>,
    b: Seq<char>,
    c: Seq<char>,
    d: Seq<char>,
    e: Seq<char>,
)
    ensures
        h + (a + b + c + d + e) == h + a + b + c + d + e,
{
    lemma_grouping(h, a + b + c + d, e);
    lemma_grouping(h, a + b + c, d);
    lemma_grouping(h, a + b, c);
    lemma_grouping(h, a, b);
}

/// The text of the wrapper, written out: the attribute, and behind it the
/// header of the given function under the new name, the tuple pattern with
/// the tuple type as the one parameter, and the forwarding call as the body.
pub proof fn lemma_wrapper_text(sig: SignatureView)
    requires
        accepted(sig),
    ensures
        wrapper_of(sig).text() == "#[inline] "@ + (spaced(sig.visibility) + optional(
            sig.is_const,
            "const "@,
        ) + optional(sig.is_unsafe, "unsafe "@) + "fn "@ + sig.name + "_loose"@ + generics_text(
            sig.generics,
        ) + "("@ + tuple_text(patterns_of(sig.parameters)) + ": "@ + tuple_text(
            types_of(sig.parameters),
        ) + ")"@ + output_text(sig.output) + " { "@ + sig.name + "("@ + separated(
            patterns_of(sig.parameters),
            ", "@,
        ) + ") }"@),
{
    let wrapper = wrapper_of(sig);
    let declaration = wrapper.signature();
    let patterns = tuple_text(wrapper.patterns);
    let types = tuple_text(wrapper.types);
    let output = output_text(sig.output);
    let arguments = separated(wrapper.arguments, ", "@);
    let qualifiers = spaced(sig.visibility) + optional(sig.is_const, "const "@) + optional(
        sig.is_unsafe,
        "unsafe "@,
    );
    let named = qualifiers + "fn "@ + sig.name + "_loose"@ + generics_text(sig.generics);
    let head = named + "("@ + patterns + ": "@ + types + ")"@;
    let body = output + " { "@ + sig.name + "("@ + arguments + ") }"@;
    assert(declaration.qualifiers_text() =~= qualifiers);
    assert(qualifiers + "fn "@ + declaration.name == qualifiers + "fn "@ + sig.name + "_loose"@)
        by {
        lemma_grouping(qualifiers + "fn "@, sig.name, "_loose"@);
    }
    assert(declaration.head_text() == head) by {
        lemma_wrapper_parameter_list(wrapper);
        lemma_grouping_of_five(named, "("@, patterns, ": "@, types, ")"@);
    }
    assert(declaration.text() == head + body) by {
        lemma_wrapper_body(wrapper);
        lemma_grouping(head + output, " "@, wrapper.body_text());
        lemma_grouping(head, output, " "@ + wrapper.body_text());
        lemma_grouping(output, " "@, wrapper.body_text());
    }
    assert(head + body == head + output + " { "@ + sig.name + "("@ + arguments + ") }"@) by {
        lemma_grouping(head, output + " { "@ + sig.name + "("@ + arguments, ") }"@);
        lemma_grouping_of_five(head, output, " { "@, sig.name, "("@, arguments);
    }
}

/// Every wrapper that loosening gives is a forwarder.
pub proof fn lemma_wrapper_well_formed(sig: SignatureView)
    requires
        accepted(sig),
    ensures
        wrapper_of(sig).well_formed(),
{
}

/// The given declaration comes out as it went in, and stands first in the
/// text of the pair, character for character, before the wrapper.
pub proof fn lemma_replica_is_unchanged(sig: SignatureView)
    requires
        accepted(sig),
    ensures
        expansion(sig).replica == sig,
        expansion(sig).text() == sig.text() + "\n"@ + wrapper_of(sig).text(),
        sig.text().is_prefix_of(expansion(sig).text()),
{
    assert(expansion(sig).text() =~= sig.text() + ("\n"@ + wrapper_of(sig).text()));
}

} // verus!
