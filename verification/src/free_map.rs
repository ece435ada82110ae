//! The two coordinate systems of a solve: parameter ids, which are dense and
//! include the locked parameters, and free-variable indices, which number
//! only the free parameters, in id order, and index the optimizer's search
//! vector.

pub mod properties;

use vstd::prelude::*;
use crate::entities::Parameter;
use crate::ids::ParameterId;
use crate::objects::Objects;
use crate::scalar::Scalar;

verus! {

/// The number of free parameters among the first `upto` of `parameters`.
pub open spec fn free_count(parameters: Seq<Parameter>, upto: int) -> nat
    decreases upto,
{
    if upto <= 0 {
        0
    } else if upto - 1 < parameters.len() && !parameters[upto - 1].locked {
        free_count(parameters, upto - 1) + 1
    } else {
        free_count(parameters, upto - 1)
    }
}

/// The free-variable index of the parameter at position `p`: the number of
/// free parameters before it, or `None` where it is locked or absent.
pub open spec fn free_slot(parameters: Seq<Parameter>, p: int) -> Option<usize> {
    if 0 <= p < parameters.len() && !parameters[p].locked {
        Some(free_count(parameters, p) as usize)
    } else {
        None
    }
}

/// The mapping between parameter ids and free-variable indices, in both
/// directions.
#[derive(Debug)]
pub struct FreeMap {
    free_of: Vec<Option<usize>>,
    parameter_of: Vec<ParameterId>,
}

/// The mathematical content of a mapping.
pub ghost struct FreeMapView {
    /// For each parameter id, its free-variable index.
    pub free_of: Seq<Option<usize>>,
    /// For each free-variable index, the parameter it stands for.
    pub parameter_of: Seq<ParameterId>,
}

impl View for FreeMap {
    type V = FreeMapView;

    closed spec fn view(&self) -> FreeMapView {
        FreeMapView { free_of: self.free_of@, parameter_of: self.parameter_of@ }
    }
}

impl FreeMapView {
    /// This is the mapping of `parameters`: every free parameter has the
    /// free-variable index that counts the free parameters before it, a
    /// locked one has none, and each free-variable index leads back to its
    /// parameter.
    pub open spec fn maps(self, parameters: Seq<Parameter>) -> bool {
        &&& self.free_of.len() == parameters.len()
        &&& self.parameter_of.len() == free_count(parameters, parameters.len() as int)
        &&& forall|p: int|
            0 <= p < parameters.len() ==> #[trigger] self.free_of[p] == free_slot(parameters, p)
        &&& forall|p: int| 0 <= p < parameters.len() ==> #[trigger] self.leads_back(parameters, p)
        &&& forall|k: int|
            0 <= k < self.parameter_of.len() ==> {
                &&& (#[trigger] self.parameter_of[k]).0 < parameters.len()
                &&& self.free_of[self.parameter_of[k].0 as int] == Some(k as usize)
            }
    }

    /// The free-variable index of the parameter at position `p`, if it has
    /// one, leads back to that parameter.
    pub open spec fn leads_back(self, parameters: Seq<Parameter>, p: int) -> bool {
        !parameters[p].locked ==> {
            &&& free_count(parameters, p) < self.parameter_of.len()
            &&& self.parameter_of[free_count(parameters, p) as int] == ParameterId(p as usize)
        }
    }

    /// A row over all parameters cut down to the free ones: its entries
    /// for the free parameters, in id order. Of a full vector this is the
    /// search vector; of a Jacobian row, the row over the search vector.
    pub open spec fn compacted<T>(self, full: Seq<T>) -> Seq<T> {
        Seq::new(self.parameter_of.len(), |k: int| full[self.parameter_of[k].0 as int])
    }

    /// The full vector of a search vector: the stored value for each locked
    /// parameter, the search vector's entry for each free one.
    pub open spec fn expanded(self, parameters: Seq<Parameter>, free: Seq<Scalar>) -> Seq<Scalar> {
        Seq::new(
            parameters.len(),
            |p: int|
                match self.free_of[p] {
                    Some(k) => free[k as int],
                    None => parameters[p].value,
                },
        )
    }
}

/// There are no more free parameters among the first `upto` than `upto`,
/// and the count never decreases.
pub proof fn free_count_is_bounded(parameters: Seq<Parameter>, upto: int)
    requires
        0 <= upto,
    ensures
        free_count(parameters, upto) <= upto,
        forall|earlier: int|
            0 <= earlier <= upto ==> free_count(parameters, earlier) <= free_count(
                parameters,
                upto,
            ),
    decreases upto,
{
    if upto > 0 {
        free_count_is_bounded(parameters, upto - 1);
    }
}

impl FreeMap {
    /// Every index that the mapping holds is within the other table.
    #[verifier::type_invariant]
    spec fn within_bounds(self) -> bool {
        &&& forall|k: int|
            0 <= k < self.parameter_of@.len() ==> (#[trigger] self.parameter_of@[k]).0
                < self.free_of@.len()
        &&& forall|p: int|
            0 <= p < self.free_of@.len() ==> (#[trigger] self.free_of@[p] matches Some(k) ==> k
                < self.parameter_of@.len())
    }

    /// Builds the mapping of a graph's parameters.
    pub fn build(objects: &Objects) -> (map: FreeMap)
        ensures
            map@.maps(objects@.parameters),
    {
        let mut free_of: Vec<Option<usize>> = Vec::new();
        let mut parameter_of: Vec<ParameterId> = Vec::new();
        let mut p: usize = 0;
        let ghost parameters = objects@.parameters;
        while p < objects.parameters.len()
            invariant
                parameters == objects@.parameters,
                p <= parameters.len(),
                free_of.len() == p,
                parameter_of.len() == free_count(parameters, p as int),
                forall|q: int| 0 <= q < p ==> #[trigger] free_of[q] == free_slot(parameters, q),
                forall|q: int|
                    0 <= q < p ==> #[trigger] (FreeMapView {
                        free_of: free_of@,
                        parameter_of: parameter_of@,
                    }).leads_back(parameters, q),
                forall|k: int|
                    0 <= k < parameter_of.len() ==> {
                        &&& (#[trigger] parameter_of[k]).0 < p
                        &&& free_of[parameter_of[k].0 as int] == Some(k as usize)
                    },
                forall|q: int|
                    0 <= q < p ==> (#[trigger] free_of[q] matches Some(k) ==> k
                        < parameter_of.len()),
            decreases parameters.len() - p,
        {
            proof {
                free_count_is_bounded(parameters, p as int);
            }
            let ghost before = FreeMapView { free_of: free_of@, parameter_of: parameter_of@ };
            if objects.parameters[p].locked {
                free_of.push(None);
            } else {
                free_of.push(Some(parameter_of.len()));
                parameter_of.push(ParameterId(p));
            }
            proof {
                let now = FreeMapView { free_of: free_of@, parameter_of: parameter_of@ };
                assert forall|q: int| 0 <= q <= p implies #[trigger] now.leads_back(
                    parameters,
                    q,
                ) by {
                    if q < p {
                        assert(before.leads_back(parameters, q));
                    }
                }
            }
            p += 1;
        }
        FreeMap { free_of, parameter_of }
    }

    /// The number of parameters that this mapping covers.
    pub fn parameter_len(&self) -> (n: usize)
        ensures
            n == self@.free_of.len(),
    {
        self.free_of.len()
    }

    /// The number of free parameters, which is the length of a search vector.
    pub fn free_len(&self) -> (n: usize)
        ensures
            n == self@.parameter_of.len(),
    {
        self.parameter_of.len()
    }

    /// The free-variable index of parameter `id`; `None` for a locked
    /// parameter and for one that the mapping does not cover.
    pub fn free_index(&self, id: ParameterId) -> (r: Option<usize>)
        ensures
            r == if id.0 < self@.free_of.len() {
                self@.free_of[id.0 as int]
            } else {
                None
            },
    {
        if id.0 < self.free_of.len() {
            self.free_of[id.0]
        } else {
            None
        }
    }

    /// The parameter that free-variable index `k` stands for; `None` where
    /// there are not that many free parameters.
    pub fn parameter_at(&self, k: usize) -> (r: Option<ParameterId>)
        ensures
            r == if k < self@.parameter_of.len() {
                Some(self@.parameter_of[k as int])
            } else {
                None
            },
    {
        if k < self.parameter_of.len() {
            Some(self.parameter_of[k])
        } else {
            None
        }
    }

    /// Cuts a row over all parameters down to the free ones: its entries
    /// for the free parameters, in id order. Of a full vector this gives
    /// the search vector; of a Jacobian row, the row over the search vector.
    pub fn compact<T: Copy>(&self, full: &Vec<T>) -> (free: Vec<T>)
        requires
            full.len() == self@.free_of.len(),
        ensures
            free@ == self@.compacted(full@),
    {
        proof {
            use_type_invariant(self);
        }
        let mut free: Vec<T> = Vec::new();
        let mut k: usize = 0;
        while k < self.parameter_of.len()
            invariant
                k <= self.parameter_of.len(),
                full.len() == self.free_of.len(),
                forall|j: int|
                    0 <= j < self.parameter_of@.len() ==> (#[trigger] self.parameter_of@[j]).0
                        < self.free_of@.len(),
                free.len() == k,
                forall|j: int|
                    0 <= j < k ==> #[trigger] free[j] == full[self.parameter_of[j].0 as int],
            decreases self.parameter_of.len() - k,
        {
            free.push(full[self.parameter_of[k].0]);
            k += 1;
        }
        assert(free@ =~= self@.compacted(full@));
        free
    }

    /// The full vector of a search vector: the stored value for each
    /// parameter without a free-variable index, the search vector's entry
    /// for each of the others.
    pub fn expand(&self, objects: &Objects, free: &Vec<Scalar>) -> (full: Vec<Scalar>)
        requires
            objects.parameters.len() == self@.free_of.len(),
            free.len() == self@.parameter_of.len(),
        ensures
            full@ == self@.expanded(objects@.parameters, free@),
    {
        proof {
            use_type_invariant(self);
        }
        let mut full: Vec<Scalar> = Vec::new();
        let mut p: usize = 0;
        while p < self.free_of.len()
            invariant
                p <= self.free_of.len(),
                objects.parameters.len() == self.free_of.len(),
                free.len() == self.parameter_of.len(),
                forall|q: int|
                    0 <= q < self.free_of@.len() ==> (#[trigger] self.free_of@[q] matches Some(k)
                        ==> k < self.parameter_of@.len()),
                full.len() == p,
                forall|q: int|
                    0 <= q < p ==> #[trigger] full[q] == self@.expanded(
                        objects@.parameters,
                        free@,
                    )[q],
            decreases self.free_of.len() - p,
        {
            let value = match self.free_of[p] {
                Some(k) => free[k],
                None => objects.parameters[p].value,
            };
            full.push(value);
            p += 1;
        }
        assert(full@ =~= self@.expanded(objects@.parameters, free@));
        full
    }
}

} // verus!
