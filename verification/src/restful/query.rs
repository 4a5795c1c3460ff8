//! The parameters of a query.

use vstd::prelude::*;

verus! {

/// One parameter of a query: its name and its value.
pub type Parameter = (String, String);

/// The parameter `name` with `value`, where there is a value.
pub open spec fn parameter_of(name: Seq<char>, value: Option<Seq<char>>) -> Seq<
    (Seq<char>, Seq<char>),
> {
    match value {
        Some(value) => seq![(name, value)],
        None => Seq::empty(),
    }
}

/// The names and values of `parameters`.
pub open spec fn parameters_view(parameters: Seq<Parameter>) -> Seq<(Seq<char>, Seq<char>)> {
    Seq::new(parameters.len(), |i: int| (parameters[i].0@, parameters[i].1@))
}

/// Add the parameter `name` to `parameters`, where there is a value.
pub fn add_parameter(parameters: &mut Vec<Parameter>, name: &str, value: Option<String>)
    ensures
        parameters_view(final(parameters)@) == parameters_view(old(parameters)@) + parameter_of(
            name@,
            value.deep_view(),
        ),
{
    match value {
        Some(value) => {
            parameters.push((name.to_owned(), value));
            assert(parameters_view(parameters@) =~= parameters_view(old(parameters)@) + parameter_of(
                name@,
                Some(value@),
            ));
        },
        None => {
            assert(parameters_view(parameters@) =~= parameters_view(old(parameters)@)
                + Seq::<(Seq<char>, Seq<char>)>::empty());
        },
    }
}

} // verus!
