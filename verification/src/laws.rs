//! The guarantees of the pipeline, stated and proved once over all inputs:
//! what the generated entry point passes to the nested body, and which
//! declarations are rejected, for every declared signature.

use vstd::prelude::*;

use crate::emit::{CallArg, Stmt, call_arguments, init_statements};
use crate::model::Ty;
use crate::parse::{Category, EntryPointDeclaration, Order, Param, Signature, TransformError,
    empty_declaration, lemma_params_error_stops, parse_params, spec_parse};
use crate::shape::{ArgsKind, EnvKind, args_shape, env_shape};

verus! {

/// A declaration with zero parameters parses to the empty record: the
/// generated entry point emits no initialization statement and calls the
/// nested body with no arguments.
pub proof fn law_zero_params(sig: Signature, parsed_enabled: bool)
    requires
        sig.name@ == "main"@,
        sig.params@.len() == 0,
    ensures
        spec_parse(sig, parsed_enabled) == Ok::<EntryPointDeclaration, TransformError>(
            empty_declaration(),
        ),
        init_statements(empty_declaration()) == Seq::<Stmt>::empty(),
        call_arguments(empty_declaration()) == Seq::<CallArg>::empty(),
{
    assert(init_statements(empty_declaration()) =~= Seq::<Stmt>::empty());
    assert(call_arguments(empty_declaration()) =~= Seq::<CallArg>::empty());
}

/// A declaration whose single parameter matches an environment shape
/// parses to a record with only that kind: the generated entry point emits
/// exactly the one environment initialization and passes exactly the one
/// identifier it binds.
pub proof fn law_single_environment_param(
    sig: Signature,
    parsed_enabled: bool,
    t: Ty,
    k: EnvKind,
)
    requires
        sig.name@ == "main"@,
        sig.params@ == seq![Param::Typed(t)],
        env_shape(t) == Some(k),
    ensures
        spec_parse(sig, parsed_enabled) == Ok::<EntryPointDeclaration, TransformError>(
            EntryPointDeclaration {
                environment_param: Some(k),
                arguments_param: None,
                order: Order::EnvFirst,
            },
        ),
        init_statements(spec_parse(sig, parsed_enabled)->Ok_0) == seq![Stmt::InitEnv(k)],
        call_arguments(spec_parse(sig, parsed_enabled)->Ok_0) == seq![CallArg::Env],
{
    reveal_with_fuel(parse_params, 4);
    let ps = sig.params@;
    assert(ps.drop_last() =~= Seq::<Param>::empty());
    let d = spec_parse(sig, parsed_enabled)->Ok_0;
    assert(init_statements(d) =~= seq![Stmt::InitEnv(k)]);
    assert(call_arguments(d) =~= seq![CallArg::Env]);
}

/// A declaration whose single parameter matches an arguments shape (and no
/// environment shape) parses to a record with only that kind: the generated
/// entry point emits exactly the one arguments initialization and passes
/// exactly the one identifier it binds.  A parsed-kind parameter needs the
/// external capability enabled.
pub proof fn law_single_arguments_param(
    sig: Signature,
    parsed_enabled: bool,
    t: Ty,
    k: ArgsKind,
)
    requires
        sig.name@ == "main"@,
        sig.params@ == seq![Param::Typed(t)],
        env_shape(t) is None,
        args_shape(t) == Some(k),
        k is Parsed ==> parsed_enabled,
    ensures
        spec_parse(sig, parsed_enabled) == Ok::<EntryPointDeclaration, TransformError>(
            EntryPointDeclaration {
                environment_param: None,
                arguments_param: Some(k),
                order: Order::ArgsFirst,
            },
        ),
        init_statements(spec_parse(sig, parsed_enabled)->Ok_0) == seq![Stmt::InitArgs(k)],
        call_arguments(spec_parse(sig, parsed_enabled)->Ok_0) == seq![CallArg::Args],
{
    reveal_with_fuel(parse_params, 4);
    let ps = sig.params@;
    assert(ps.drop_last() =~= Seq::<Param>::empty());
    let d = spec_parse(sig, parsed_enabled)->Ok_0;
    assert(init_statements(d) =~= seq![Stmt::InitArgs(k)]);
    assert(call_arguments(d) =~= seq![CallArg::Args]);
}

/// With an environment-shaped parameter declared before an arguments-shaped
/// one, the call passes the environment identifier first: the argument
/// order of the nested call matches the left-to-right source order.
pub proof fn law_env_then_args(
    sig: Signature,
    parsed_enabled: bool,
    t0: Ty,
    t1: Ty,
    ke: EnvKind,
    ka: ArgsKind,
)
    requires
        sig.name@ == "main"@,
        sig.params@ == seq![Param::Typed(t0), Param::Typed(t1)],
        env_shape(t0) == Some(ke),
        env_shape(t1) is None,
        args_shape(t1) == Some(ka),
        ka is Parsed ==> parsed_enabled,
    ensures
        spec_parse(sig, parsed_enabled) == Ok::<EntryPointDeclaration, TransformError>(
            EntryPointDeclaration {
                environment_param: Some(ke),
                arguments_param: Some(ka),
                order: Order::EnvFirst,
            },
        ),
        call_arguments(spec_parse(sig, parsed_enabled)->Ok_0) == seq![CallArg::Env, CallArg::Args],
{
    reveal_with_fuel(parse_params, 4);
    let ps = sig.params@;
    assert(ps.drop_last().drop_last() =~= Seq::<Param>::empty());
    assert(ps.drop_last() =~= seq![Param::Typed(t0)]);
    let d = spec_parse(sig, parsed_enabled)->Ok_0;
    assert(call_arguments(d) =~= seq![CallArg::Env, CallArg::Args]);
}

/// With an arguments-shaped parameter declared before an environment-shaped
/// one, the call passes the arguments identifier first: the argument order
/// of the nested call matches the left-to-right source order.
pub proof fn law_args_then_env(
    sig: Signature,
    parsed_enabled: bool,
    t0: Ty,
    t1: Ty,
    ka: ArgsKind,
    ke: EnvKind,
)
    requires
        sig.name@ == "main"@,
        sig.params@ == seq![Param::Typed(t0), Param::Typed(t1)],
        env_shape(t0) is None,
        args_shape(t0) == Some(ka),
        ka is Parsed ==> parsed_enabled,
        env_shape(t1) == Some(ke),
    ensures
        spec_parse(sig, parsed_enabled) == Ok::<EntryPointDeclaration, TransformError>(
            EntryPointDeclaration {
                environment_param: Some(ke),
                arguments_param: Some(ka),
                order: Order::ArgsFirst,
            },
        ),
        call_arguments(spec_parse(sig, parsed_enabled)->Ok_0) == seq![CallArg::Args, CallArg::Env],
{
    reveal_with_fuel(parse_params, 4);
    let ps = sig.params@;
    assert(ps.drop_last().drop_last() =~= Seq::<Param>::empty());
    assert(ps.drop_last() =~= seq![Param::Typed(t0)]);
    let d = spec_parse(sig, parsed_enabled)->Ok_0;
    assert(call_arguments(d) =~= seq![CallArg::Args, CallArg::Env]);
}

/// Two parameters that both match an environment shape are always rejected
/// as a duplicate of the environment category, located at the second one;
/// neither is silently picked.
pub proof fn law_duplicate_environment(
    sig: Signature,
    parsed_enabled: bool,
    t0: Ty,
    t1: Ty,
    k0: EnvKind,
    k1: EnvKind,
)
    requires
        sig.name@ == "main"@,
        sig.params@ == seq![Param::Typed(t0), Param::Typed(t1)],
        env_shape(t0) == Some(k0),
        env_shape(t1) == Some(k1),
    ensures
        spec_parse(sig, parsed_enabled) == Err::<EntryPointDeclaration, TransformError>(
            TransformError::DuplicateCategory { category: Category::Environment, param: 1 },
        ),
{
    reveal_with_fuel(parse_params, 4);
    let ps = sig.params@;
    assert(ps.drop_last().drop_last() =~= Seq::<Param>::empty());
    assert(ps.drop_last() =~= seq![Param::Typed(t0)]);
}

/// Two parameters that both match an arguments shape (and no environment
/// shape) are always rejected as a duplicate of the arguments category,
/// located at the second one; neither is silently picked.  A parsed-kind
/// parameter needs the external capability enabled: with it disabled, a
/// parsed-kind duplicate is reported as the capability failure instead.
pub proof fn law_duplicate_arguments(
    sig: Signature,
    parsed_enabled: bool,
    t0: Ty,
    t1: Ty,
    k0: ArgsKind,
    k1: ArgsKind,
)
    requires
        sig.name@ == "main"@,
        sig.params@ == seq![Param::Typed(t0), Param::Typed(t1)],
        env_shape(t0) is None,
        args_shape(t0) == Some(k0),
        k0 is Parsed ==> parsed_enabled,
        env_shape(t1) is None,
        args_shape(t1) == Some(k1),
        k1 is Parsed ==> parsed_enabled,
    ensures
        spec_parse(sig, parsed_enabled) == Err::<EntryPointDeclaration, TransformError>(
            TransformError::DuplicateCategory { category: Category::Arguments, param: 1 },
        ),
{
    reveal_with_fuel(parse_params, 4);
    let ps = sig.params@;
    assert(ps.drop_last().drop_last() =~= Seq::<Param>::empty());
    assert(ps.drop_last() =~= seq![Param::Typed(t0)]);
}

/// With the external parsing capability disabled, a parameter that
/// classifies as the parsed kind always fails the whole transformation with
/// the capability failure, located at that parameter — it never falls
/// through to another category — provided no parameter to its left already
/// failed.
pub proof fn law_external_parser_disabled(sig: Signature, i: int, t: Ty)
    requires
        sig.name@ == "main"@,
        0 <= i < sig.params@.len(),
        sig.params@[i] == Param::Typed(t),
        env_shape(t) is None,
        args_shape(t) == Some(ArgsKind::Parsed),
        parse_params(sig.params@.take(i), false) is Ok,
    ensures
        spec_parse(sig, false) == Err::<EntryPointDeclaration, TransformError>(
            TransformError::ExternalParserDisabled { param: i as usize },
        ),
{
    reveal_with_fuel(parse_params, 4);
    let ps = sig.params@;
    assert(ps.take(i + 1).drop_last() =~= ps.take(i));
    assert(ps.take(i + 1).last() == ps[i]);
    assert(parse_params(ps.take(i + 1), false) == Err::<EntryPointDeclaration, TransformError>(
        TransformError::ExternalParserDisabled { param: i as usize },
    ));
    lemma_params_error_stops(ps, false, i);
}

/// How many category slots of a declaration record are occupied.
pub open spec fn recognized_count(d: EntryPointDeclaration) -> int {
    (if d.environment_param is Some { 1int } else { 0int })
        + (if d.arguments_param is Some { 1int } else { 0int })
}

/// No more than two parameters are ever supported: every successfully
/// classified parameter occupies a distinct category slot, so a declaration
/// that parses without failure has at most two parameters.
pub proof fn law_at_most_two_params(params: Seq<Param>, parsed_enabled: bool)
    ensures
        parse_params(params, parsed_enabled) matches Ok(d) ==> {
            &&& recognized_count(d) == params.len()
            &&& params.len() <= 2
        },
    decreases params.len(),
{
    if params.len() > 0 {
        law_at_most_two_params(params.drop_last(), parsed_enabled);
    }
}

} // verus!
