use vstd::prelude::*;
use crate::entities::Parameter;
use crate::free_map::{free_count, free_count_is_bounded, free_slot, FreeMapView};
use crate::ids::ParameterId;
use crate::scalar::Scalar;

verus! {

/// Free-variable indices follow id order: of two free parameters, the one
/// with the smaller id has the smaller index.
pub proof fn free_indices_follow_id_order(parameters: Seq<Parameter>, p: int, q: int)
    requires
        0 <= p < q < parameters.len(),
        !parameters[p].locked,
        !parameters[q].locked,
    ensures
        free_count(parameters, p) < free_count(parameters, q),
{
    free_count_is_bounded(parameters, q);
    assert(free_count(parameters, p + 1) == free_count(parameters, p) + 1);
}

/// From a free parameter to its free-variable index and back leads to the
/// same parameter.
pub proof fn parameter_round_trip(map: FreeMapView, parameters: Seq<Parameter>, p: int)
    requires
        map.maps(parameters),
        parameters.len() <= usize::MAX,
        0 <= p < parameters.len(),
        !parameters[p].locked,
    ensures
        map.free_of[p] matches Some(k) && k < map.parameter_of.len() && map.parameter_of[k as int]
            == ParameterId(p as usize),
{
    free_count_is_bounded(parameters, p);
    assert(map.leads_back(parameters, p));
    assert(map.free_of[p] == free_slot(parameters, p));
}

/// From a free-variable index to its parameter and back leads to the same
/// index, and the parameter is a free one.
pub proof fn index_round_trip(map: FreeMapView, parameters: Seq<Parameter>, k: int)
    requires
        map.maps(parameters),
        0 <= k < map.parameter_of.len(),
    ensures
        map.parameter_of[k].0 < parameters.len(),
        !parameters[map.parameter_of[k].0 as int].locked,
        map.free_of[map.parameter_of[k].0 as int] == Some(k as usize),
{
    let p = map.parameter_of[k].0 as int;
    assert(map.free_of[p] == free_slot(parameters, p));
}

/// A locked parameter has no free-variable index.
pub proof fn locked_parameter_has_no_index(map: FreeMapView, parameters: Seq<Parameter>, p: int)
    requires
        map.maps(parameters),
        0 <= p < parameters.len(),
        parameters[p].locked,
    ensures
        map.free_of[p] is None,
{
    assert(map.free_of[p] == free_slot(parameters, p));
}

/// Expanding a search vector and compacting the result gives the search
/// vector back.
pub proof fn compact_undoes_expand(map: FreeMapView, parameters: Seq<Parameter>, free: Seq<Scalar>)
    requires
        map.maps(parameters),
        parameters.len() <= usize::MAX,
        free.len() == map.parameter_of.len(),
    ensures
        map.compacted(map.expanded(parameters, free)) == free,
{
    free_count_is_bounded(parameters, parameters.len() as int);
    assert forall|k: int| 0 <= k < free.len() implies map.compacted(
        map.expanded(parameters, free),
    )[k] == free[k] by {
        index_round_trip(map, parameters, k);
    }
    assert(map.compacted(map.expanded(parameters, free)) =~= free);
}

/// Compacting a full vector and expanding the result keeps the entries of
/// the free parameters and puts the stored value in place of each other
/// entry.
pub proof fn expand_after_compact(map: FreeMapView, parameters: Seq<Parameter>, full: Seq<Scalar>)
    requires
        map.maps(parameters),
        parameters.len() <= usize::MAX,
        full.len() == parameters.len(),
    ensures
        map.expanded(parameters, map.compacted(full)).len() == parameters.len(),
        forall|p: int|
            0 <= p < parameters.len() ==> #[trigger] map.expanded(
                parameters,
                map.compacted(full),
            )[p] == if parameters[p].locked {
                parameters[p].value
            } else {
                full[p]
            },
{
    assert forall|p: int| 0 <= p < parameters.len() implies #[trigger] map.expanded(
        parameters,
        map.compacted(full),
    )[p] == if parameters[p].locked {
        parameters[p].value
    } else {
        full[p]
    } by {
        if parameters[p].locked {
            locked_parameter_has_no_index(map, parameters, p);
        } else {
            parameter_round_trip(map, parameters, p);
        }
    }
}

} // verus!
