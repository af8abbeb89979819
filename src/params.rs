//! Typed values out of a control sequence's parameter groups.
//!
//! A sequence carries an ordered list of groups; each group is a parameter
//! followed by its sub-parameters, so it is never empty when it comes from a
//! tokenizer, though nothing here relies on that.

use vstd::prelude::*;

verus! {

#[verifier::external_type_specification]
#[verifier::external_body]
pub struct ExParams(vte::Params);

/// The parameter groups that a tokenizer's parameter list holds, in order.
pub uninterp spec fn param_groups(p: vte::Params) -> Seq<Seq<u16>>;

/// Relies on vte::Params::iter: it yields each parameter together with its
/// sub-parameters, in the order they came; each is copied out as one group.
#[verifier::external_body]
pub(crate) fn groups_of(params: &vte::Params) -> (r: Vec<Vec<u16>>)
    ensures
        r.deep_view() == param_groups(*params),
{
    params.iter().map(|g| g.to_vec()).collect()
}

/// The first value of the group at `i`, if that group is present and not empty.
pub open spec fn group_value(p: Seq<Seq<u16>>, i: int) -> Option<u16> {
    if 0 <= i < p.len() && p[i].len() > 0 {
        Some(p[i][0])
    } else {
        None
    }
}

/// The value of the group at `i`, if that group is one value with no sub-parameters.
pub open spec fn group_single(p: Seq<Seq<u16>>, i: int) -> Option<u16> {
    if 0 <= i < p.len() && p[i].len() == 1 {
        Some(p[i][0])
    } else {
        None
    }
}

/// The coordinate that the group at `i` gives, zero where it is omitted.
pub open spec fn coordinate_or_zero(p: Seq<Seq<u16>>, i: int) -> u16 {
    match group_value(p, i) {
        Some(v) => v,
        None => 0,
    }
}

/// First value of the group at `i`.
pub fn first_value(params: &Vec<Vec<u16>>, i: usize) -> (r: Option<u16>)
    ensures
        r == group_value(params.deep_view(), i as int),
{
    if i < params.len() && params[i].len() > 0 {
        Some(params[i][0])
    } else {
        None
    }
}

/// Value of the group at `i` when that group holds exactly one value.
pub fn single_value(params: &Vec<Vec<u16>>, i: usize) -> (r: Option<u16>)
    ensures
        r == group_single(params.deep_view(), i as int),
{
    if i < params.len() && params[i].len() == 1 {
        Some(params[i][0])
    } else {
        None
    }
}

/// Coordinate given by the group at `i`, zero when omitted.
pub fn coordinate(params: &Vec<Vec<u16>>, i: usize) -> (r: u16)
    ensures
        r == coordinate_or_zero(params.deep_view(), i as int),
{
    match first_value(params, i) {
        Some(v) => v,
        None => 0,
    }
}

} // verus!
