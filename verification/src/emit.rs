//! The code generator: from a parsed declaration record to the plan of the
//! replacement entry point, and the user-facing text of each diagnostic.

use vstd::prelude::*;

use crate::parse::{Category, EntryPointDeclaration, Order, Signature, TransformError, spec_parse,
    parse_entry_point};
use crate::shape::{ArgsKind, EnvKind};

verus! {

/// The identifier of one synthesized value, as passed to the nested body.
#[derive(Clone, Copy, Debug, PartialEq, Eq, Structural)]
pub enum CallArg {
    /// The identifier bound by the environment initialization statement.
    Env,
    /// The identifier bound by the arguments initialization statement.
    Args,
}

/// One initialization statement of the replacement entry point.  Each
/// recognized kind maps to exactly one fixed statement template that
/// collects the process environment or the command line into the declared
/// form and binds it to the matching identifier.
#[derive(Clone, Copy, Debug, PartialEq, Eq, Structural)]
pub enum Stmt {
    /// Bind `env` to the collected process environment, in the form the
    /// declared kind asks for.
    InitEnv(EnvKind),
    /// Bind `args` to the collected command line, in the form the declared
    /// kind asks for; for the parsed kind, by a call into the external
    /// parsing capability's standard construction entry point.
    InitArgs(ArgsKind),
}

/// The plan of the replacement entry point: its initialization statements
/// in order, then the original function nested under the new entry point so
/// the names no longer collide, then one call of that nested body passing
/// `call_args` in resolved order.
#[derive(Debug, PartialEq, Eq)]
pub struct GeneratedEntry {
    pub statements: Vec<Stmt>,
    pub call_args: Vec<CallArg>,
}

/// The initialization statements a declaration record calls for: one per
/// recognized parameter, environment first.
pub open spec fn init_statements(d: EntryPointDeclaration) -> Seq<Stmt> {
    (match d.environment_param {
        Some(k) => seq![Stmt::InitEnv(k)],
        None => Seq::<Stmt>::empty(),
    }) + (match d.arguments_param {
        Some(k) => seq![Stmt::InitArgs(k)],
        None => Seq::<Stmt>::empty(),
    })
}

/// The identifiers passed to the nested body, in the order the record's
/// `order` field resolved from the source order of the declaration.
pub open spec fn call_arguments(d: EntryPointDeclaration) -> Seq<CallArg> {
    match d.order {
        Order::Neither => Seq::<CallArg>::empty(),
        Order::EnvFirst => seq![CallArg::Env] + (if d.arguments_param is Some {
            seq![CallArg::Args]
        } else {
            Seq::<CallArg>::empty()
        }),
        Order::ArgsFirst => seq![CallArg::Args] + (if d.environment_param is Some {
            seq![CallArg::Env]
        } else {
            Seq::<CallArg>::empty()
        }),
    }
}

/// Emit the replacement entry point for a complete, valid declaration
/// record: always a single, syntactically complete plan.
pub fn generate(d: &EntryPointDeclaration) -> (r: GeneratedEntry)
    ensures
        r.statements@ == init_statements(*d),
        r.call_args@ == call_arguments(*d),
{
    let mut statements: Vec<Stmt> = Vec::new();
    if let Some(k) = d.environment_param {
        statements.push(Stmt::InitEnv(k));
    }
    if let Some(k) = d.arguments_param {
        statements.push(Stmt::InitArgs(k));
    }
    let mut call_args: Vec<CallArg> = Vec::new();
    match d.order {
        Order::Neither => {},
        Order::EnvFirst => {
            call_args.push(CallArg::Env);
            if d.arguments_param.is_some() {
                call_args.push(CallArg::Args);
            }
        },
        Order::ArgsFirst => {
            call_args.push(CallArg::Args);
            if d.environment_param.is_some() {
                call_args.push(CallArg::Env);
            }
        },
    }
    proof {
        assert(statements@ =~= init_statements(*d));
        assert(call_args@ =~= call_arguments(*d));
    }
    GeneratedEntry { statements, call_args }
}

/// What one transformation invocation yields: the replacement entry point,
/// or the diagnostic to embed in a syntactically valid placeholder entry
/// point, so a malformed declaration still leaves the surrounding build
/// with something parseable.
#[derive(Debug, PartialEq, Eq)]
pub enum Emitted {
    Entry(GeneratedEntry),
    Failure(TransformError),
}

/// Run the whole pipeline on one declared signature: parse and classify,
/// then either emit the replacement entry point or report the first
/// validation failure.
pub fn transform(sig: &Signature, parsed_enabled: bool) -> (r: Emitted)
    ensures
        spec_parse(*sig, parsed_enabled) matches Ok(d) ==> {
            &&& r matches Emitted::Entry(g)
            &&& g.statements@ == init_statements(d)
            &&& g.call_args@ == call_arguments(d)
        },
        spec_parse(*sig, parsed_enabled) matches Err(e) ==> r == Emitted::Failure(e),
{
    match parse_entry_point(sig, parsed_enabled) {
        Ok(d) => Emitted::Entry(generate(&d)),
        Err(e) => Emitted::Failure(e),
    }
}

/// The user-facing message of each validation failure.
pub fn diagnostic_message(e: &TransformError) -> (r: String)
    ensures
        *e is InvalidEntryPointName ==> r@ == "expected main"@,
        *e is SelfNotAccepted ==> r@ == "self is not accepted"@,
        (*e matches TransformError::DuplicateCategory {
            category: Category::Environment,
            ..
        }) ==> r@ == "only one environment input is allowed"@,
        (*e matches TransformError::DuplicateCategory {
            category: Category::Arguments,
            ..
        }) ==> r@ == "only one arguments input is allowed"@,
        *e is UnrecognizedParameterType ==> r@ == "invalid input"@,
        *e is ExternalParserDisabled ==> r@ == "command-line parsing is not enabled"@,
{
    match e {
        TransformError::InvalidEntryPointName => "expected main".to_owned(),
        TransformError::SelfNotAccepted { .. } => "self is not accepted".to_owned(),
        TransformError::DuplicateCategory { category: Category::Environment, .. } => {
            "only one environment input is allowed".to_owned()
        },
        TransformError::DuplicateCategory { category: Category::Arguments, .. } => {
            "only one arguments input is allowed".to_owned()
        },
        TransformError::UnrecognizedParameterType { .. } => "invalid input".to_owned(),
        TransformError::ExternalParserDisabled { .. } => {
            "command-line parsing is not enabled".to_owned()
        },
    }
}

} // verus!
