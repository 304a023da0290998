//! Reading a contract's spec out of its wasm and turning the chosen
//! function's inputs into the parameters the `limits` command plans.
use soroban_sdk::xdr::{ScSpecEntry, ScSpecFunctionInputV0, ScSpecTypeDef};
use soroban_spec::read::FromWasmError;
use vstd::prelude::*;

use crate::cli::args::CliError;
use crate::cli::limits::{
    entry_named, locate_function, locate_param, missing_function_text, missing_param_text, Numeric, ParamSpec,
    ParamType,
};

verus! {

/// An entry of a contract spec, carried through opaquely.
#[verifier::external_type_specification]
#[verifier::external_body]
pub struct ExScSpecEntry(ScSpecEntry);

/// A function input of a contract spec, carried through opaquely.
#[verifier::external_type_specification]
#[verifier::external_body]
pub struct ExScSpecFunctionInputV0(ScSpecFunctionInputV0);

/// A type of a contract spec, carried through opaquely.
#[verifier::external_type_specification]
#[verifier::external_body]
pub struct ExScSpecTypeDef(ScSpecTypeDef);

/// Why a contract spec could not be read out of a wasm file: the three
/// cases of `soroban_spec::read::FromWasmError`.
#[derive(Debug, Clone, Copy, PartialEq, Eq, Structural)]
pub enum SpecReadError {
    /// The wasm itself could not be read.
    Read,
    /// The spec section did not parse.
    Parse,
    /// The wasm has no spec section.
    NotFound,
}

/// The spec type of a parameter, as far as the `limits` command tells
/// types apart.
#[derive(Debug, Clone, Copy, PartialEq, Eq, Structural)]
pub enum SpecTypeTag {
    /// `u32`
    U32,
    /// `i32`
    I32,
    /// `u64`
    U64,
    /// `i64`
    I64,
    /// `u128`
    U128,
    /// `i128`
    I128,
    /// `bool`
    Bool,
    /// `Symbol`
    Symbol,
    /// `String`
    Str,
    /// `Bytes`
    Bytes,
    /// `Address`
    Address,
    /// `Vec<T>`
    Vec,
    /// Any other type.
    Other,
}

/// The entries of the contract spec embedded in `wasm`, or which of
/// `FromWasmError`'s three cases it reported, as `from_wasm` gives them: a
/// function of the bytes alone.
pub uninterp spec fn spec_entries_of(wasm: Seq<u8>) -> Result<Seq<ScSpecEntry>, SpecReadError>;

/// The view of what [`read_spec`] returns.
pub open spec fn entries_view(r: Result<Vec<ScSpecEntry>, SpecReadError>) -> Result<Seq<ScSpecEntry>, SpecReadError> {
    match r {
        Ok(v) => Ok(v@),
        Err(e) => Err(e),
    }
}

/// The entries of the contract spec embedded in `wasm`
/// (`soroban_spec::read::from_wasm`), or which of its three errors it
/// reported; it depends on the bytes alone.
#[verifier::external_body]
fn read_spec(wasm: &[u8]) -> (r: Result<Vec<ScSpecEntry>, SpecReadError>)
    ensures
        entries_view(r) == spec_entries_of(wasm@),
{
    match soroban_spec::read::from_wasm(wasm) {
        Ok(entries) => Ok(entries),
        Err(FromWasmError::Read(_)) => Err(SpecReadError::Read),
        Err(FromWasmError::Parse(_)) => Err(SpecReadError::Parse),
        Err(FromWasmError::NotFound) => Err(SpecReadError::NotFound),
    }
}

/// For a function entry, its name and its inputs; `None` for any other
/// kind of entry: a function of the entry alone.
pub uninterp spec fn entry_function_of(e: ScSpecEntry) -> Option<(Seq<char>, Seq<ScSpecFunctionInputV0>)>;

/// The view of what [`entry_function`] returns.
pub open spec fn function_view(r: Option<(String, Vec<ScSpecFunctionInputV0>)>) -> Option<(Seq<char>, Seq<ScSpecFunctionInputV0>)> {
    match r {
        Some(f) => Some((f.0@, f.1@)),
        None => None,
    }
}

/// For a function entry, its name (`ScSymbol` as text) and its inputs;
/// `None` for every other kind of entry. It depends on the entry alone.
#[verifier::external_body]
fn entry_function(e: &ScSpecEntry) -> (r: Option<(String, Vec<ScSpecFunctionInputV0>)>)
    ensures
        function_view(r) == entry_function_of(*e),
{
    match e {
        ScSpecEntry::FunctionV0(f) => Some((f.name.to_string(), f.inputs.to_vec())),
        _ => None,
    }
}

/// The name of a function input, as text.
pub uninterp spec fn input_name_of(i: ScSpecFunctionInputV0) -> Seq<char>;

/// The name of a function input (`StringM::to_utf8_string_lossy`), which
/// depends on the input alone.
#[verifier::external_body]
fn input_name(i: &ScSpecFunctionInputV0) -> (r: String)
    ensures
        r@ == input_name_of(*i),
{
    i.name.to_utf8_string_lossy()
}

/// The spec type of a function input.
pub uninterp spec fn input_type_of(i: ScSpecFunctionInputV0) -> ScSpecTypeDef;

/// The type of a function input (a clone of its `type_` field).
#[verifier::external_body]
fn input_type(i: &ScSpecFunctionInputV0) -> (r: ScSpecTypeDef)
    ensures
        r == input_type_of(*i),
{
    i.type_.clone()
}

/// The `Debug` rendering of a spec type.
pub uninterp spec fn type_text_of(t: ScSpecTypeDef) -> Seq<char>;

/// The `Debug` rendering of a spec type (`format!("{:?}")`), for error
/// messages; it depends on the type alone.
#[verifier::external_body]
fn type_debug_text(t: &ScSpecTypeDef) -> (r: String)
    ensures
        r@ == type_text_of(*t),
{
    format!("{:?}", t)
}

/// Which variant of `ScSpecTypeDef` a type is, among those the command
/// tells apart.
pub uninterp spec fn type_tag_of(t: ScSpecTypeDef) -> SpecTypeTag;

/// Which variant of `ScSpecTypeDef` `t` is, among those the command tells
/// apart (every other variant is `Other`); it depends on `t` alone.
#[verifier::external_body]
fn type_tag(t: &ScSpecTypeDef) -> (r: SpecTypeTag)
    ensures
        r == type_tag_of(*t),
{
    match t {
        ScSpecTypeDef::U32 => SpecTypeTag::U32,
        ScSpecTypeDef::I32 => SpecTypeTag::I32,
        ScSpecTypeDef::U64 => SpecTypeTag::U64,
        ScSpecTypeDef::I64 => SpecTypeTag::I64,
        ScSpecTypeDef::U128 => SpecTypeTag::U128,
        ScSpecTypeDef::I128 => SpecTypeTag::I128,
        ScSpecTypeDef::Bool => SpecTypeTag::Bool,
        ScSpecTypeDef::Symbol => SpecTypeTag::Symbol,
        ScSpecTypeDef::String => SpecTypeTag::Str,
        ScSpecTypeDef::Bytes => SpecTypeTag::Bytes,
        ScSpecTypeDef::Address => SpecTypeTag::Address,
        ScSpecTypeDef::Vec(_) => SpecTypeTag::Vec,
        _ => SpecTypeTag::Other,
    }
}

/// The element type of a `Vec` spec type; `None` for any other type.
pub uninterp spec fn vec_element_of(t: ScSpecTypeDef) -> Option<ScSpecTypeDef>;

/// The element type of a `Vec` spec type; `None` for any other type. It
/// depends on `t` alone.
#[verifier::external_body]
fn vec_element(t: &ScSpecTypeDef) -> (r: Option<ScSpecTypeDef>)
    ensures
        r == vec_element_of(*t),
{
    match t {
        ScSpecTypeDef::Vec(v) => Some((*v.element_type).clone()),
        _ => None,
    }
}

/// The parameter type of a spec type tagged `tag`, whose element type (for
/// a `Vec`) is tagged `element`.
pub open spec fn param_type_of(tag: SpecTypeTag, element: Option<SpecTypeTag>) -> ParamType {
    match tag {
        SpecTypeTag::U32 => ParamType::Number(Numeric::U32),
        SpecTypeTag::I32 => ParamType::Number(Numeric::I32),
        SpecTypeTag::U64 => ParamType::Number(Numeric::U64),
        SpecTypeTag::I64 => ParamType::Number(Numeric::I64),
        SpecTypeTag::U128 => ParamType::Number(Numeric::U128),
        SpecTypeTag::I128 => ParamType::Number(Numeric::I128),
        SpecTypeTag::Bool => ParamType::Bool,
        SpecTypeTag::Symbol => ParamType::Symbol,
        SpecTypeTag::Str => ParamType::Str,
        SpecTypeTag::Bytes => ParamType::Bytes,
        SpecTypeTag::Address => ParamType::Address,
        SpecTypeTag::Vec => ParamType::Vec { of_address: element == Some(SpecTypeTag::Address) },
        SpecTypeTag::Other => ParamType::Other,
    }
}

/// Classify a spec type tagged `tag`, with element type tagged `element`.
pub fn classify(tag: SpecTypeTag, element: Option<SpecTypeTag>) -> (r: ParamType)
    ensures
        r == param_type_of(tag, element),
{
    match tag {
        SpecTypeTag::U32 => ParamType::Number(Numeric::U32),
        SpecTypeTag::I32 => ParamType::Number(Numeric::I32),
        SpecTypeTag::U64 => ParamType::Number(Numeric::U64),
        SpecTypeTag::I64 => ParamType::Number(Numeric::I64),
        SpecTypeTag::U128 => ParamType::Number(Numeric::U128),
        SpecTypeTag::I128 => ParamType::Number(Numeric::I128),
        SpecTypeTag::Bool => ParamType::Bool,
        SpecTypeTag::Symbol => ParamType::Symbol,
        SpecTypeTag::Str => ParamType::Str,
        SpecTypeTag::Bytes => ParamType::Bytes,
        SpecTypeTag::Address => ParamType::Address,
        SpecTypeTag::Vec => ParamType::Vec {
            of_address: match element {
                Some(SpecTypeTag::Address) => true,
                _ => false,
            },
        },
        SpecTypeTag::Other => ParamType::Other,
    }
}

/// The text of a spec-reading error, as `FromWasmError` displays it.
pub open spec fn spec_read_error_text(e: SpecReadError) -> Seq<char> {
    match e {
        SpecReadError::Read => "reading wasm"@,
        SpecReadError::Parse => "parsing contract spec"@,
        SpecReadError::NotFound => "contract spec not found"@,
    }
}

/// The message reported when the contract's spec cannot be read.
pub open spec fn spec_failure_text(e: SpecReadError) -> Seq<char> {
    "failed to read contract spec: "@ + spec_read_error_text(e)
}

/// The error reported when the contract's spec cannot be read.
pub fn spec_failure(e: SpecReadError) -> (r: CliError)
    ensures
        r.0@ == spec_failure_text(e),
{
    let mut m = String::from_str("failed to read contract spec: ");
    match e {
        SpecReadError::Read => m.append("reading wasm"),
        SpecReadError::Parse => m.append("parsing contract spec"),
        SpecReadError::NotFound => m.append("contract spec not found"),
    }
    CliError(m)
}

/// A parameter as [`load_spec`] reports it: name, classified type, and
/// the rendering of the spec type.
pub open spec fn param_view(p: ParamSpec) -> (Seq<char>, ParamType, Seq<char>) {
    (p.name@, p.kind, p.type_text@)
}

/// The parameter a function input becomes: its name, the classification
/// of its type (and of the element type of a `Vec`), and the rendering of
/// its type.
pub open spec fn param_of_input(i: ScSpecFunctionInputV0) -> (Seq<char>, ParamType, Seq<char>) {
    let t = input_type_of(i);
    (
        input_name_of(i),
        param_type_of(
            type_tag_of(t),
            match vec_element_of(t) {
                Some(el) => Some(type_tag_of(el)),
                None => None,
            },
        ),
        type_text_of(t),
    )
}

/// The function names of spec entries, in order; `None` for the entries
/// that are not functions.
pub open spec fn function_names(entries: Seq<ScSpecEntry>) -> Seq<Option<Seq<char>>> {
    entries.map_values(|e: ScSpecEntry| match entry_function_of(e) {
        Some(f) => Some(f.0),
        None => None,
    })
}

/// Entry `i` is the first function named `f`.
pub open spec fn first_named(names: Seq<Option<Seq<char>>>, f: Seq<char>, i: int) -> bool {
    &&& 0 <= i < names.len()
    &&& names[i] == Some(f)
    &&& forall|j: int| 0 <= j < i ==> names[j] != Some(f)
}

/// Parameter `k` is the first one named `ramp`.
pub open spec fn first_param(params: Seq<(Seq<char>, ParamType, Seq<char>)>, ramp: Seq<char>, k: int) -> bool {
    &&& 0 <= k < params.len()
    &&& params[k].0 == ramp
    &&& forall|j: int| 0 <= j < k ==> params[j].0 != ramp
}

/// The parameters of the first function named `f` among `entries`.
pub open spec fn params_of_function(entries: Seq<ScSpecEntry>, f: Seq<char>) -> Seq<(Seq<char>, ParamType, Seq<char>)> {
    let i = choose|i: int| first_named(function_names(entries), f, i);
    match entry_function_of(entries[i]) {
        Some(fun) => fun.1.map_values(|inp: ScSpecFunctionInputV0| param_of_input(inp)),
        None => Seq::empty(),
    }
}

/// `r` is what [`load_spec`] owes for `function` and `ramp` in the spec
/// read from `wasm`, naming the contract `contract`: the spec-reading
/// error; else the missing-function error when no function has that name;
/// else the missing-parameter error when the first function of that name
/// has no parameter `ramp`; else that function's parameters, classified,
/// with the position of the first one named `ramp`.
pub open spec fn spec_loaded(
    wasm: Seq<u8>,
    function: Seq<char>,
    ramp: Seq<char>,
    contract: Seq<char>,
    r: Result<(Vec<ParamSpec>, usize), CliError>,
) -> bool {
    match spec_entries_of(wasm) {
        Err(e) => r matches Err(err) && err.0@ == spec_failure_text(e),
        Ok(entries) => if !(exists|i: int| first_named(function_names(entries), function, i)) {
            r matches Err(err) && err.0@ == missing_function_text(function, contract)
        } else {
            let params = params_of_function(entries, function);
            if !(exists|k: int| first_param(params, ramp, k)) {
                r matches Err(err) && err.0@ == missing_param_text(function, ramp)
            } else {
                r matches Ok(found) && found.0@.map_values(|p: ParamSpec| param_view(p)) == params && first_param(
                    params,
                    ramp,
                    found.1 as int,
                )
            }
        },
    }
}

/// Read the spec embedded in `wasm` and locate `function` and its ramp
/// parameter `ramp`, naming the contract as `contract` in errors. Each
/// parameter of the function is classified by its spec type.
///
/// Reports, in this order: the spec-reading error, the missing function,
/// the missing ramp parameter. On success it returns the function's
/// parameters and the position of the first one named `ramp`.
pub fn load_spec(wasm: &[u8], function: &str, ramp: &str, contract: &str) -> (r: Result<(Vec<ParamSpec>, usize), CliError>)
    ensures
        spec_loaded(wasm@, function@, ramp@, contract@, r),
{
    let entries = match read_spec(wasm) {
        Ok(es) => es,
        Err(e) => {
            return Err(spec_failure(e));
        },
    };
    let ghost fnames = function_names(entries@);
    let mut names: Vec<Option<String>> = Vec::new();
    let mut inputs: Vec<Option<Vec<ScSpecFunctionInputV0>>> = Vec::new();
    let mut i: usize = 0;
    while i < entries.len()
        invariant
            i <= entries.len(),
            fnames == function_names(entries@),
            names.len() == i,
            inputs.len() == i,
            forall|j: int| 0 <= j < i ==> #[trigger] entry_named(names@[j], function@) == (fnames[j] == Some(function@)),
            forall|j: int| 0 <= j < i ==> (#[trigger] inputs@[j] matches Some(ins) ==> entry_function_of(entries@[j]) matches Some(f) && f.1 == ins@),
            forall|j: int| 0 <= j < i ==> (names@[j] is Some <==> #[trigger] inputs@[j] is Some),
        decreases entries.len() - i,
    {
        match entry_function(&entries[i]) {
            Some((n, ins)) => {
                assert(fnames[i as int] == Some(n@));
                names.push(Some(n));
                inputs.push(Some(ins));
            },
            None => {
                names.push(None);
                inputs.push(None);
            },
        }
        i = i + 1;
    }
    let index = match locate_function(&names, function, contract) {
        Ok(k) => k,
        Err(e) => {
            assert(!(exists|j: int| first_named(fnames, function@, j))) by {
                if exists|j: int| first_named(fnames, function@, j) {
                    let j = choose|j: int| first_named(fnames, function@, j);
                    assert(entry_named(names@[j], function@));
                }
            }
            return Err(e);
        },
    };
    proof {
        assert(first_named(fnames, function@, index as int)) by {
            assert(entry_named(names@[index as int], function@));
            assert forall|j: int| 0 <= j < index implies fnames[j] != Some(function@) by {
                assert(!entry_named(names@[j], function@));
            }
        }
        let c = choose|c: int| first_named(fnames, function@, c);
        assert(c == index as int) by {
            if c < index {
                assert(fnames[c] != Some(function@));
            } else if c > index {
                assert(fnames[index as int] != Some(function@));
            }
        }
    }
    let ghost expected = params_of_function(entries@, function@);
    let mut params: Vec<ParamSpec> = Vec::new();
    match &inputs[index] {
        Some(ins) => {
            assert(expected == ins@.map_values(|inp: ScSpecFunctionInputV0| param_of_input(inp)));
            let mut k: usize = 0;
            while k < ins.len()
                invariant
                    k <= ins.len(),
                    params.len() == k,
                    forall|j: int| 0 <= j < k ==> param_view(#[trigger] params@[j]) == param_of_input(ins@[j]),
                decreases ins.len() - k,
            {
                let t = input_type(&ins[k]);
                let element = match vec_element(&t) {
                    Some(el) => Some(type_tag(&el)),
                    None => None,
                };
                let p = ParamSpec { name: input_name(&ins[k]), kind: classify(type_tag(&t), element), type_text: type_debug_text(&t) };
                assert(param_view(p) == param_of_input(ins@[k as int]));
                params.push(p);
                k = k + 1;
            }
            assert(params@.map_values(|p: ParamSpec| param_view(p)) =~= expected);
        },
        None => {
            assert(false);
        },
    }
    let ghost pv = params@.map_values(|p: ParamSpec| param_view(p));
    match locate_param(&params, function, ramp) {
        Ok(k) => {
            assert(first_param(pv, ramp@, k as int)) by {
                assert forall|j: int| 0 <= j < k implies pv[j].0 != ramp@ by {
                    assert(params@[j].name@ != ramp@);
                }
            }
            Ok((params, k))
        },
        Err(e) => {
            assert(!(exists|k: int| first_param(pv, ramp@, k))) by {
                if exists|k: int| first_param(pv, ramp@, k) {
                    let k = choose|k: int| first_param(pv, ramp@, k);
                    assert(params@[k].name@ != ramp@);
                }
            }
            Err(e)
        },
    }
}

} // verus!
