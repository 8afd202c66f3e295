//! Filter configuration for the catalog query.
//!
//! A filter set is immutable configuration: free-text search, size /
//! category / condition / brand id lists, and price bounds. Absent
//! fields are omitted from the query entirely, never sent empty.

use vstd::prelude::*;
use vstd::string::StringExecFns;

verus! {

/// One value in a catalog query parameter: either free text or a
/// numeric id / bound.
#[derive(Debug)]
pub enum QueryValue {
    Text(String),
    Number(i32),
}

/// The catalog query configuration. Every field is optional; an unset
/// field contributes nothing to the query.
#[derive(Debug)]
pub struct ItemsFilters {
    pub search_text: Option<String>,
    pub sizes: Option<Vec<i32>>,
    pub categories: Option<Vec<i32>>,
    pub conditions: Option<Vec<i32>>,
    pub brands: Option<Vec<i32>>,
    pub price_from: Option<i32>,
    pub price_to: Option<i32>,
}

/// The parameter contributed by an optional free-text field: one pair,
/// or nothing when the field is unset.
pub open spec fn text_param(name: Seq<char>, v: Option<String>) -> Seq<(Seq<char>, QueryValue)> {
    match v {
        Option::None => Seq::empty(),
        Option::Some(s) => seq![(name, QueryValue::Text(s))],
    }
}

/// The parameters contributed by an optional id list: one repeated
/// pair per id, in the order given, or nothing when the list is unset.
pub open spec fn id_params(name: Seq<char>, v: Option<Vec<i32>>) -> Seq<(Seq<char>, QueryValue)> {
    match v {
        Option::None => Seq::empty(),
        Option::Some(xs) => Seq::new(xs@.len(), |i: int| (name, QueryValue::Number(xs@[i]))),
    }
}

/// The parameter contributed by an optional numeric bound.
pub open spec fn bound_param(name: Seq<char>, v: Option<i32>) -> Seq<(Seq<char>, QueryValue)> {
    match v {
        Option::None => Seq::empty(),
        Option::Some(n) => seq![(name, QueryValue::Number(n))],
    }
}

/// The full query parameter list a filter set denotes, in the fixed
/// field order: search text, sizes, categories, conditions, brands,
/// price bounds.
pub open spec fn query_model(f: ItemsFilters) -> Seq<(Seq<char>, QueryValue)> {
    text_param("search_text"@, f.search_text) + id_params("size_id[]"@, f.sizes)
        + id_params("catalog[]"@, f.categories) + id_params("status_ids[]"@, f.conditions)
        + id_params("brand_id[]"@, f.brands) + bound_param("price_from"@, f.price_from)
        + bound_param("price_to"@, f.price_to)
}

/// A built parameter list, with each key read as its character
/// sequence.
pub open spec fn param_views(q: Seq<(String, QueryValue)>) -> Seq<(Seq<char>, QueryValue)> {
    q.map_values(|p: (String, QueryValue)| (p.0@, p.1))
}

impl ItemsFilters {
    /// Builds the query parameter list: exactly one pair per set
    /// scalar field and one pair per entry of each set id list,
    /// preserving input order; unset fields are omitted entirely.
    #[verifier::rlimit(50)]
    pub fn to_query(&self) -> (r: Vec<(String, QueryValue)>)
        ensures
            param_views(r@) == query_model(*self),
    {
        let mut query: Vec<(String, QueryValue)> = Vec::new();

        if let Some(search_text) = &self.search_text {
            query.push((String::from_str("search_text"), QueryValue::Text(search_text.clone())));
        }
        let ghost q0 = param_views(query@);
        proof {
            assert(q0 =~= text_param("search_text"@, self.search_text));
        }
        if let Some(sizes) = &self.sizes {
            push_id_list(&mut query, "size_id[]", sizes);
        }
        let ghost q1 = param_views(query@);
        proof {
            assert(q1 =~= q0 + id_params("size_id[]"@, self.sizes));
        }
        if let Some(categories) = &self.categories {
            push_id_list(&mut query, "catalog[]", categories);
        }
        let ghost q2 = param_views(query@);
        proof {
            assert(q2 =~= q1 + id_params("catalog[]"@, self.categories));
        }
        if let Some(conditions) = &self.conditions {
            push_id_list(&mut query, "status_ids[]", conditions);
        }
        let ghost q3 = param_views(query@);
        proof {
            assert(q3 =~= q2 + id_params("status_ids[]"@, self.conditions));
        }
        if let Some(brands) = &self.brands {
            push_id_list(&mut query, "brand_id[]", brands);
        }
        let ghost q4 = param_views(query@);
        proof {
            assert(q4 =~= q3 + id_params("brand_id[]"@, self.brands));
        }
        if let Some(price_from) = self.price_from {
            query.push((String::from_str("price_from"), QueryValue::Number(price_from)));
        }
        let ghost q5 = param_views(query@);
        proof {
            assert(q5 =~= q4 + bound_param("price_from"@, self.price_from));
        }
        if let Some(price_to) = self.price_to {
            query.push((String::from_str("price_to"), QueryValue::Number(price_to)));
        }
        proof {
            assert(param_views(query@) =~= q5 + bound_param("price_to"@, self.price_to));
            assert(param_views(query@) == query_model(*self));
        }
        query
    }
}

/// Appends one repeated parameter per id, preserving the list's order.
fn push_id_list(query: &mut Vec<(String, QueryValue)>, name: &str, ids: &Vec<i32>)
    ensures
        param_views(final(query)@) =~= param_views(old(query)@) + Seq::new(
            ids@.len(),
            |i: int| (name@, QueryValue::Number(ids@[i])),
        ),
{
    let ghost base = param_views(query@);
    let mut i: usize = 0;
    while i < ids.len()
        invariant
            i <= ids@.len(),
            param_views(query@) =~= base + Seq::new(
                i as nat,
                |j: int| (name@, QueryValue::Number(ids@[j])),
            ),
        decreases ids@.len() - i,
    {
        let ghost prev = param_views(query@);
        query.push((String::from_str(name), QueryValue::Number(ids[i])));
        proof {
            assert(param_views(query@) =~= prev.push((name@, QueryValue::Number(ids@[i as int]))));
        }
        i = i + 1;
    }
}

impl Default for ItemsFilters {
    /// The empty filter set: no field contributes to the query.
    fn default() -> (r: Self)
        ensures
            r.search_text is None,
            r.sizes is None,
            r.categories is None,
            r.conditions is None,
            r.brands is None,
            r.price_from is None,
            r.price_to is None,
    {
        ItemsFilters {
            search_text: None,
            sizes: None,
            categories: None,
            conditions: None,
            brands: None,
            price_from: None,
            price_to: None,
        }
    }
}

/// Size filters the catalog understands.
#[derive(Clone, Copy, Debug, PartialEq, Eq, Structural)]
pub enum Sizes {
    XS,
    S,
    M,
    L,
    XL,
    XXL,
    XXXL,
}

impl Sizes {
    /// The catalog id this size denotes.
    pub open spec fn spec_id(self) -> i32 {
        match self {
            Sizes::XS => 206,
            Sizes::S => 207,
            Sizes::M => 208,
            Sizes::L => 209,
            Sizes::XL => 210,
            Sizes::XXL => 211,
            Sizes::XXXL => 212,
        }
    }

    /// The catalog id this size denotes.
    pub fn id(&self) -> (r: i32)
        ensures
            r == self.spec_id(),
    {
        match self {
            Sizes::XS => 206,
            Sizes::S => 207,
            Sizes::M => 208,
            Sizes::L => 209,
            Sizes::XL => 210,
            Sizes::XXL => 211,
            Sizes::XXXL => 212,
        }
    }
}

/// Category filters the catalog understands.
#[derive(Clone, Copy, Debug, PartialEq, Eq, Structural)]
pub enum Categories {
    Men,
    Clothes,
}

impl Categories {
    /// The catalog id this category denotes.
    pub open spec fn spec_id(self) -> i32 {
        match self {
            Categories::Men => 5,
            Categories::Clothes => 2050,
        }
    }

    /// The catalog id this category denotes.
    pub fn id(&self) -> (r: i32)
        ensures
            r == self.spec_id(),
    {
        match self {
            Categories::Men => 5,
            Categories::Clothes => 2050,
        }
    }
}

/// Condition filters the catalog understands.
#[derive(Clone, Copy, Debug, PartialEq, Eq, Structural)]
pub enum Condition {
    NewWithoutTags,
    ReallyGood,
    Good,
    Satisfactory,
    NewWithTags,
}

impl Condition {
    /// The catalog id this condition denotes.
    pub open spec fn spec_id(self) -> i32 {
        match self {
            Condition::NewWithoutTags => 1,
            Condition::ReallyGood => 2,
            Condition::Good => 3,
            Condition::Satisfactory => 4,
            Condition::NewWithTags => 6,
        }
    }

    /// The catalog id this condition denotes.
    pub fn id(&self) -> (r: i32)
        ensures
            r == self.spec_id(),
    {
        match self {
            Condition::NewWithoutTags => 1,
            Condition::ReallyGood => 2,
            Condition::Good => 3,
            Condition::Satisfactory => 4,
            Condition::NewWithTags => 6,
        }
    }
}

} // verus!
