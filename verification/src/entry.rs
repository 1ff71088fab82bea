//! The calling convention of a program's entry function.
//!
//! A program built on this shell is started through one function that
//! takes the platform's event source: `fn(event_loop: EventLoop<()>)`.
//! Whatever lays out the program's `main` around that function checks its
//! signature first, and reports a violation when the program is built,
//! never when it runs. The types here describe a signature as far as the
//! convention reads it.

use vstd::prelude::*;

verus! {

/// One argument between the angle brackets of a path segment.
#[derive(Copy, Clone, Debug, PartialEq, Eq, Structural)]
pub enum GenericArgument {
    /// A tuple type with this many elements; `()` has none.
    Tuple(usize),
    /// Anything else: another type, a lifetime, a constant, a binding.
    Other,
}

/// What follows the name in a path segment.
#[derive(Debug)]
pub enum PathArguments {
    /// Nothing, as in `EventLoop`.
    Absent,
    /// Arguments in angle brackets, as in `EventLoop<()>`.
    AngleBracketed(Vec<GenericArgument>),
    /// Arguments in round brackets, as in `Fn(u32)`.
    Parenthesized,
}

/// One segment of a type path: a name and its arguments.
#[derive(Debug)]
pub struct PathSegment {
    pub ident: String,
    pub arguments: PathArguments,
}

/// The type of a parameter.
#[derive(Debug)]
pub enum ParamType {
    /// A path such as `winit::event_loop::EventLoop<()>`, segment by segment.
    Path(Vec<PathSegment>),
    /// Any type that is not a path.
    Other,
}

/// The pattern of a parameter.
#[derive(Debug)]
pub enum ParamPattern {
    /// A plain name.
    Ident(String),
    /// Any other pattern.
    Other,
}

/// One parameter of a function.
#[derive(Debug)]
pub enum FnArg {
    /// `self` in one of its forms.
    Receiver,
    /// A pattern and its type.
    Typed(ParamPattern, ParamType),
}

/// Why a function cannot be a program's entry, and where in its
/// signature the report points.
#[derive(Copy, Clone, Debug, PartialEq, Eq, Structural)]
pub enum EntryError {
    /// The function does not have exactly one parameter. Reported at the
    /// signature.
    ParameterCount,
    /// The parameter is not named `event_loop`: it has another name, or
    /// its pattern is no plain name at all, such as `_`. Reported at the
    /// pattern.
    ParameterName,
    /// The parameter's type is not `EventLoop<()>`. Reported at the type.
    ParameterType,
    /// The one parameter is `self`. Reported at the parameter.
    Receiver,
}

/// The name that the entry function's parameter must have.
pub open spec fn parameter_name() -> Seq<char> {
    "event_loop"@
}

/// The name of the event source's type.
pub open spec fn event_loop_name() -> Seq<char> {
    "EventLoop"@
}

/// The arguments are `<()>`: one argument, the empty tuple.
pub open spec fn is_unit_argument_list(arguments: &PathArguments) -> bool {
    match *arguments {
        PathArguments::AngleBracketed(args) => args@.len() == 1 && args@[0]
            == GenericArgument::Tuple(0),
        _ => false,
    }
}

/// The type is written `EventLoop<()>`: a path of one segment, named
/// `EventLoop`, whose arguments are `<()>`.
pub open spec fn spec_is_event_loop_type(ty: &ParamType) -> bool {
    match *ty {
        ParamType::Path(segments) => segments@.len() == 1 && segments@[0].ident@
            == event_loop_name() && is_unit_argument_list(&segments@[0].arguments),
        ParamType::Other => false,
    }
}

/// The parameter is a pattern with a type, and the pattern is the plain
/// name `event_loop`.
pub open spec fn has_entry_name(parameter: FnArg) -> bool {
    parameter matches FnArg::Typed(pattern, _) && (pattern matches ParamPattern::Ident(name)
        && name@ == parameter_name())
}

/// The parameter is `event_loop: EventLoop<()>`.
pub open spec fn accepted_parameter(parameter: FnArg) -> bool {
    has_entry_name(parameter) && (parameter matches FnArg::Typed(_, ty)
        && spec_is_event_loop_type(&ty))
}

/// What the check of a parameter list comes to. The parameter has to be
/// the plain name `event_loop`; the type is looked at after the name.
pub open spec fn spec_ked_main(inputs: Seq<FnArg>) -> Result<(), EntryError> {
    if inputs.len() != 1 {
        Err(EntryError::ParameterCount)
    } else {
        match inputs[0] {
            FnArg::Receiver => Err(EntryError::Receiver),
            FnArg::Typed(pattern, ty) => {
                if !(pattern matches ParamPattern::Ident(name) && name@ == parameter_name()) {
                    Err(EntryError::ParameterName)
                } else if !spec_is_event_loop_type(&ty) {
                    Err(EntryError::ParameterType)
                } else {
                    Ok(())
                }
            },
        }
    }
}

fn name_is(name: &String, expected: &str) -> (same: bool)
    ensures
        same == (name@ == expected@),
{
    let expected = expected.to_owned();
    *name == expected
}

/// Says whether a parameter's type is written `EventLoop<()>`.
pub fn is_event_loop_type(ty: &ParamType) -> (yes: bool)
    ensures
        yes == spec_is_event_loop_type(ty),
{
    match ty {
        ParamType::Path(segments) => {
            if segments.len() == 1 && name_is(&segments[0].ident, "EventLoop") {
                match &segments[0].arguments {
                    PathArguments::AngleBracketed(args) => {
                        if args.len() == 1 {
                            match args[0] {
                                GenericArgument::Tuple(elems) => elems == 0,
                                GenericArgument::Other => false,
                            }
                        } else {
                            false
                        }
                    },
                    _ => false,
                }
            } else {
                false
            }
        },
        ParamType::Other => false,
    }
}

/// Holds the parameters of a function against the entry convention:
/// exactly one parameter, named `event_loop`, of type `EventLoop<()>`.
pub fn ked_main(inputs: &Vec<FnArg>) -> (checked: Result<(), EntryError>)
    ensures
        checked == spec_ked_main(inputs@),
        checked is Ok <==> inputs@.len() == 1 && accepted_parameter(inputs@[0]),
        checked == Err::<(), EntryError>(EntryError::ParameterCount) <==> inputs@.len() != 1,
        checked == Err::<(), EntryError>(EntryError::Receiver) <==> inputs@.len() == 1
            && inputs@[0] is Receiver,
        checked == Err::<(), EntryError>(EntryError::ParameterName) <==> inputs@.len() == 1
            && inputs@[0] is Typed && !has_entry_name(inputs@[0]),
        checked == Err::<(), EntryError>(EntryError::ParameterType) <==> inputs@.len() == 1
            && has_entry_name(inputs@[0]) && !accepted_parameter(inputs@[0]),
{
    if inputs.len() != 1 {
        return Err(EntryError::ParameterCount);
    }
    match &inputs[0] {
        FnArg::Receiver => Err(EntryError::Receiver),
        FnArg::Typed(pattern, ty) => {
            match pattern {
                ParamPattern::Ident(name) => {
                    if !name_is(name, "event_loop") {
                        return Err(EntryError::ParameterName);
                    }
                },
                ParamPattern::Other => {
                    return Err(EntryError::ParameterName);
                },
            }
            if !is_event_loop_type(ty) {
                return Err(EntryError::ParameterType);
            }
            Ok(())
        },
    }
}

impl EntryError {
    /// The text of the report.
    pub open spec fn spec_message(&self) -> Seq<char> {
        match *self {
            EntryError::ParameterCount | EntryError::Receiver =>
                "ked_main function must have exactly one parameter: event_loop: EventLoop<()>"@,
            EntryError::ParameterName => "Parameter must be named 'event_loop'"@,
            EntryError::ParameterType => "Parameter type must be EventLoop<()>"@,
        }
    }

    pub fn message(&self) -> (text: &'static str)
        ensures
            text@ == self.spec_message(),
    {
        match self {
            EntryError::ParameterCount | EntryError::Receiver =>
                "ked_main function must have exactly one parameter: event_loop: EventLoop<()>",
            EntryError::ParameterName => "Parameter must be named 'event_loop'",
            EntryError::ParameterType => "Parameter type must be EventLoop<()>",
        }
    }
}

} // verus!
