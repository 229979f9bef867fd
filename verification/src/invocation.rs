//! Command lines of the outside tools, built but never run here.

use vstd::prelude::*;
use crate::location::{Location, LocationModel};
use crate::text::opt_text;

verus! {

/// One argument of a command line.
#[derive(Debug, PartialEq, Eq)]
pub enum Arg {
    /// Passed on letter for letter.
    Text(String),
    /// A place, to be passed as one path.
    Path(Location),
    /// A place, to be passed as one absolute path.
    AbsolutePath(Location),
}

/// What an [`Arg`] says, as plain sequences.
pub ghost enum ArgModel {
    Text(Seq<char>),
    Path(LocationModel),
    AbsolutePath(LocationModel),
}

impl View for Arg {
    type V = ArgModel;

    open spec fn view(&self) -> ArgModel {
        match self {
            Arg::Text(text) => ArgModel::Text(text@),
            Arg::Path(place) => ArgModel::Path(place@),
            Arg::AbsolutePath(place) => ArgModel::AbsolutePath(place@),
        }
    }
}

impl Clone for Arg {
    fn clone(&self) -> (copy: Arg)
        ensures
            copy@ == self@,
    {
        match self {
            Arg::Text(text) => Arg::Text(text.clone()),
            Arg::Path(place) => Arg::Path(place.clone()),
            Arg::AbsolutePath(place) => Arg::AbsolutePath(place.clone()),
        }
    }
}

/// The models of a list of arguments, in order.
pub open spec fn arg_models(args: Seq<Arg>) -> Seq<ArgModel> {
    args.map_values(|arg: Arg| arg@)
}

/// A program and the arguments to start it with.
#[derive(Debug, PartialEq, Eq)]
pub struct Invocation {
    /// Where the program is; a bare name is left to the system to find.
    pub program: Location,
    pub args: Vec<Arg>,
}

/// What an [`Invocation`] says, as plain sequences.
pub ghost struct InvocationModel {
    pub program: LocationModel,
    pub args: Seq<ArgModel>,
}

impl View for Invocation {
    type V = InvocationModel;

    open spec fn view(&self) -> InvocationModel {
        InvocationModel { program: self.program@, args: arg_models(self.args@) }
    }
}

impl Clone for Invocation {
    fn clone(&self) -> (copy: Invocation)
        ensures
            copy@ == self@,
    {
        let mut args: Vec<Arg> = Vec::new();
        let mut i: usize = 0;
        while i < self.args.len()
            invariant
                i <= self.args.len(),
                args.len() == i,
                arg_models(args@) =~= arg_models(self.args@).take(i as int),
            decreases self.args.len() - i,
        {
            args.push(self.args[i].clone());
            i = i + 1;
        }
        assert(arg_models(self.args@).take(i as int) =~= arg_models(self.args@));
        Invocation { program: self.program.clone(), args }
    }
}

/// Appends one argument.
pub(crate) fn push_arg(args: &mut Vec<Arg>, arg: Arg)
    ensures
        arg_models(final(args)@) == arg_models(old(args)@).push(arg@),
{
    args.push(arg);
    assert(arg_models(args@) =~= arg_models(old(args)@).push(arg@));
}

/// Appends one argument that is passed on letter for letter.
pub(crate) fn push_text(args: &mut Vec<Arg>, text: &str)
    ensures
        arg_models(final(args)@) == arg_models(old(args)@).push(ArgModel::Text(text@)),
{
    push_arg(args, Arg::Text(text.to_owned()));
}

/// A flag, present only when asked for.
pub open spec fn optional_flag(flag: Seq<char>, present: bool) -> Seq<ArgModel> {
    if present {
        seq![ArgModel::Text(flag)]
    } else {
        Seq::empty()
    }
}

/// A flag and its value, present only when the value is.
pub open spec fn optional_pair(flag: Seq<char>, value: Option<Seq<char>>) -> Seq<ArgModel> {
    match value {
        Some(text) => seq![ArgModel::Text(flag), ArgModel::Text(text)],
        None => Seq::empty(),
    }
}

/// Appends a flag when it is asked for, and nothing otherwise.
pub(crate) fn push_optional_flag(args: &mut Vec<Arg>, flag: &str, present: bool)
    ensures
        arg_models(final(args)@) == arg_models(old(args)@) + optional_flag(flag@, present),
{
    if present {
        push_text(args, flag);
    }
    assert(arg_models(args@) =~= arg_models(old(args)@) + optional_flag(flag@, present));
}

/// Appends a flag and its value when the value is present, and nothing
/// otherwise.
pub(crate) fn push_optional_pair(args: &mut Vec<Arg>, flag: &str, value: &Option<String>)
    ensures
        arg_models(final(args)@) == arg_models(old(args)@) + optional_pair(
            flag@,
            opt_text(*value),
        ),
{
    match value {
        Some(text) => {
            push_text(args, flag);
            push_text(args, text.as_str());
        },
        None => {},
    }
    assert(arg_models(args@) =~= arg_models(old(args)@) + optional_pair(flag@, opt_text(*value)));
}

} // verus!
