//! Wrappers as `loose` writes them, compiled and called.
//!
//! Each wrapper below stands in this file as the library renders it for the
//! function above it, without the `#[inline]` in front; `rendered` is compared
//! with that text before the wrapper is called. This file holds safe code
//! only: `fc`, `fe` and `ff` and their wrappers are compiled without the
//! qualifier that the declarations handed to `loose` carry.

use loosen::loose;
use loosen::FunctionSignature;
use loosen::Parameter;

pub struct A;
pub struct B;

fn fa(_a: A, _b: B) {}
fn fa_loose((_a, _b,): (A, B,)) { fa(_a, _b) }

pub fn fb(_a: A, _b: B) -> () {}
pub fn fb_loose((_a, _b,): (A, B,)) -> () { fb(_a, _b) }

pub fn fc(_a: A, _b: B) {}
pub fn fc_loose((_a, _b,): (A, B,)) { fc(_a, _b) }

pub const fn fd(_a: A, _b: B) {}
pub const fn fd_loose((_a, _b,): (A, B,)) { fd(_a, _b) }

pub const fn fe(_a: &A, _b: &B) {}
pub const fn fe_loose((_a, _b,): (&A, &B,)) { fe(_a, _b) }

pub const fn ff<X, Y>(_a: &X, _b: &Y) {}
pub const fn ff_loose<X, Y>((_a, _b,): (&X, &Y,)) { ff(_a, _b) }

fn sub(a: i32, b: i32) -> i32 { a - b }
fn sub_loose((a, b,): (i32, i32,)) -> i32 { sub(a, b) }

fn record(log: &mut Vec<u8>, first: u8, second: u8) -> usize { log.push(first); log.push(second); log.len() }
fn record_loose((log, first, second,): (&mut Vec<u8>, u8, u8,)) -> usize { record(log, first, second) }

fn seven() -> u8 { 7 }
fn seven_loose((): ()) -> u8 { seven() }

fn twice(n: u8) -> u8 { n + n }
fn twice_loose((n,): (u8,)) -> u8 { twice(n) }

fn typed(pattern: &str, ty: &str) -> Parameter {
    Parameter::Typed { pattern: pattern.to_string(), ty: ty.to_string() }
}

fn function(
    qualifiers: (&str, bool, bool),
    name: &str,
    generics: &[&str],
    parameters: &[(&str, &str)],
    output: Option<&str>,
    body: &str,
) -> FunctionSignature {
    FunctionSignature {
        visibility: qualifiers.0.to_string(),
        is_const: qualifiers.1,
        is_async: false,
        is_unsafe: qualifiers.2,
        abi: None,
        name: name.to_string(),
        generics: generics.iter().map(|g| g.to_string()).collect(),
        parameters: parameters.iter().map(|(pattern, ty)| typed(pattern, ty)).collect(),
        is_variadic: false,
        output: output.map(|ty| ty.to_string()),
        body: body.to_string(),
    }
}

fn rendered(item: FunctionSignature) -> String {
    loose(item).expect("the declaration is accepted").render()
}

const AB: [(&str, &str); 2] = [("_a", "A"), ("_b", "B")];
const AB_REF: [(&str, &str); 2] = [("_a", "&A"), ("_b", "&B")];
const XY_REF: [(&str, &str); 2] = [("_a", "&X"), ("_b", "&Y")];

#[test]
fn works() {
    assert_eq!(
        rendered(function(("", false, false), "fa", &[], &AB, None, "{}")),
        "fn fa(_a: A, _b: B) {}\n#[inline] fn fa_loose((_a, _b,): (A, B,)) { fa(_a, _b) }"
    );
    assert_eq!(
        rendered(function(("pub", false, false), "fb", &[], &AB, Some("()"), "{}")),
        "pub fn fb(_a: A, _b: B) -> () {}\n#[inline] pub fn fb_loose((_a, _b,): (A, B,)) -> () { fb(_a, _b) }"
    );
    assert_eq!(
        rendered(function(("pub", false, true), "fc", &[], &AB, None, "{}")),
        "pub unsafe fn fc(_a: A, _b: B) {}\n#[inline] pub unsafe fn fc_loose((_a, _b,): (A, B,)) { fc(_a, _b) }"
    );
    assert_eq!(
        rendered(function(("pub", true, false), "fd", &[], &AB, None, "{}")),
        "pub const fn fd(_a: A, _b: B) {}\n#[inline] pub const fn fd_loose((_a, _b,): (A, B,)) { fd(_a, _b) }"
    );
    assert_eq!(
        rendered(function(("pub", true, true), "fe", &[], &AB_REF, None, "{}")),
        "pub const unsafe fn fe(_a: &A, _b: &B) {}\n#[inline] pub const unsafe fn fe_loose((_a, _b,): (&A, &B,)) { fe(_a, _b) }"
    );
    assert_eq!(
        rendered(function(("pub", true, true), "ff", &["X", "Y"], &XY_REF, None, "{}")),
        "pub const unsafe fn ff<X, Y>(_a: &X, _b: &Y) {}\n#[inline] pub const unsafe fn ff_loose<X, Y>((_a, _b,): (&X, &Y,)) { ff(_a, _b) }"
    );

    assert_eq!(
        rendered(function(("pub", false, false), "fc", &[], &AB, None, "{}")),
        "pub fn fc(_a: A, _b: B) {}\n#[inline] pub fn fc_loose((_a, _b,): (A, B,)) { fc(_a, _b) }"
    );
    assert_eq!(
        rendered(function(("pub", true, false), "fe", &[], &AB_REF, None, "{}")),
        "pub const fn fe(_a: &A, _b: &B) {}\n#[inline] pub const fn fe_loose((_a, _b,): (&A, &B,)) { fe(_a, _b) }"
    );
    assert_eq!(
        rendered(function(("pub", true, false), "ff", &["X", "Y"], &XY_REF, None, "{}")),
        "pub const fn ff<X, Y>(_a: &X, _b: &Y) {}\n#[inline] pub const fn ff_loose<X, Y>((_a, _b,): (&X, &Y,)) { ff(_a, _b) }"
    );

    fa_loose((A, B));
    fb_loose((A, B));
    fc_loose((A, B));
    fd_loose((A, B));
    fe_loose((&A, &B));
    ff_loose::<A, B>((&A, &B));
}

#[test]
fn iter() {
    assert_eq!(
        loose(function(("", false, false), "fa", &[], &AB, None, "{}")).unwrap().wrapper.render(),
        "#[inline] fn fa_loose((_a, _b,): (A, B,)) { fa(_a, _b) }"
    );
    (0..10)
        .map(|_| (A, B))
        .map(fa_loose)
        .collect::<Vec<()>>()
        .into_iter()
        .collect::<()>()
}

#[test]
fn wrapper_returns_what_a_direct_call_returns() {
    assert_eq!(
        rendered(function(
            ("", false, false),
            "sub",
            &[],
            &[("a", "i32"), ("b", "i32")],
            Some("i32"),
            "{ a - b }"
        )),
        "fn sub(a: i32, b: i32) -> i32 { a - b }\n#[inline] fn sub_loose((a, b,): (i32, i32,)) -> i32 { sub(a, b) }"
    );
    assert_eq!(sub_loose((7, 2)), 5);
    assert_eq!(sub_loose((7, 2)), sub(7, 2));
    assert_eq!(sub_loose((2, 7)), -5);
    assert_eq!(sub_loose((2, 7)), sub(2, 7));
    let differences: Vec<i32> = vec![(1, 1), (10, 3), (3, 10)].into_iter().map(sub_loose).collect();
    assert_eq!(differences, vec![0, 7, -7]);
}

#[test]
fn wrapper_has_the_side_effects_of_a_direct_call() {
    assert_eq!(
        rendered(function(
            ("", false, false),
            "record",
            &[],
            &[("log", "&mut Vec<u8>"), ("first", "u8"), ("second", "u8")],
            Some("usize"),
            "{ log.push(first); log.push(second); log.len() }"
        )),
        "fn record(log: &mut Vec<u8>, first: u8, second: u8) -> usize { log.push(first); log.push(second); log.len() }\n#[inline] fn record_loose((log, first, second,): (&mut Vec<u8>, u8, u8,)) -> usize { record(log, first, second) }"
    );
    let mut direct = Vec::new();
    let mut through_wrapper = Vec::new();
    assert_eq!(record(&mut direct, 1, 2), 2);
    assert_eq!(record_loose((&mut through_wrapper, 1, 2)), 2);
    assert_eq!(record(&mut direct, 3, 4), 4);
    assert_eq!(record_loose((&mut through_wrapper, 3, 4)), 4);
    assert_eq!(direct, vec![1, 2, 3, 4]);
    assert_eq!(through_wrapper, direct);
}

#[test]
fn wrapper_of_a_function_without_parameters_takes_the_unit() {
    assert_eq!(
        rendered(function(("", false, false), "seven", &[], &[], Some("u8"), "{ 7 }")),
        "fn seven() -> u8 { 7 }\n#[inline] fn seven_loose((): ()) -> u8 { seven() }"
    );
    assert_eq!(seven_loose(()), 7);
    assert_eq!(seven_loose(()), seven());
    let sevens: Vec<u8> = vec![(), (), ()].into_iter().map(seven_loose).collect();
    assert_eq!(sevens, vec![7, 7, 7]);
}

#[test]
fn wrapper_of_a_function_of_one_parameter_takes_a_tuple_of_one() {
    assert_eq!(
        rendered(function(("", false, false), "twice", &[], &[("n", "u8")], Some("u8"), "{ n + n }")),
        "fn twice(n: u8) -> u8 { n + n }\n#[inline] fn twice_loose((n,): (u8,)) -> u8 { twice(n) }"
    );
    assert_eq!(twice_loose((4,)), 8);
    assert_eq!(twice_loose((4,)), twice(4));
}

#[test]
fn generic_wrapper_can_be_instantiated_by_name() {
    ff_loose::<u8, String>((&1, &String::new()));
    ff_loose::<A, B>((&A, &B));
    const CHECKED: () = ff_loose::<u8, u8>((&1, &2));
    assert_eq!(CHECKED, ());
}
