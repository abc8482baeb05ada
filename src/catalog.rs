use vstd::prelude::*;
use crate::records::{Amenity, PropertyType};

verus! {

/// The category that a category name stands for, if any.
pub open spec fn property_type_of(s: Seq<char>) -> Option<PropertyType> {
    if s == "Residential"@ {
        Some(PropertyType::Residential)
    } else if s == "Industrial"@ {
        Some(PropertyType::Industrial)
    } else if s == "Commercial"@ {
        Some(PropertyType::Commercial)
    } else if s == "MixedUse"@ {
        Some(PropertyType::MixedUse)
    } else {
        None
    }
}

/// The amenity that an amenity name stands for, if any.
pub open spec fn amenity_of(s: Seq<char>) -> Option<Amenity> {
    if s == "Parking"@ {
        Some(Amenity::Parking)
    } else if s == "Pool"@ {
        Some(Amenity::Pool)
    } else if s == "Gym"@ {
        Some(Amenity::Gym)
    } else if s == "Security"@ {
        Some(Amenity::Security)
    } else if s == "Garden"@ {
        Some(Amenity::Garden)
    } else if s == "Balcony"@ {
        Some(Amenity::Balcony)
    } else if s == "AirConditioning"@ {
        Some(Amenity::AirConditioning)
    } else if s == "Heating"@ {
        Some(Amenity::Heating)
    } else if s == "Elevator"@ {
        Some(Amenity::Elevator)
    } else if s == "Storage"@ {
        Some(Amenity::Storage)
    } else {
        None
    }
}

/// The recognised amenities among `names`, in their order; other names are dropped.
pub open spec fn amenities_of(names: Seq<String>) -> Seq<Amenity>
    decreases names.len(),
{
    if names.len() == 0 {
        Seq::empty()
    } else {
        let rest = amenities_of(names.drop_last());
        match amenity_of(names.last()@) {
            Some(a) => rest.push(a),
            None => rest,
        }
    }
}

fn is_named(s: &String, name: &str) -> (r: bool)
    ensures
        r == (s@ == name@),
{
    *s == name.to_owned()
}

/// Reads a category name; `None` where it names no category.
pub fn parse_property_type(s: &String) -> (r: Option<PropertyType>)
    ensures
        r == property_type_of(s@),
{
    if is_named(s, "Residential") {
        Some(PropertyType::Residential)
    } else if is_named(s, "Industrial") {
        Some(PropertyType::Industrial)
    } else if is_named(s, "Commercial") {
        Some(PropertyType::Commercial)
    } else if is_named(s, "MixedUse") {
        Some(PropertyType::MixedUse)
    } else {
        None
    }
}

/// Reads one amenity name; `None` where it names no amenity.
pub fn parse_amenity(s: &String) -> (r: Option<Amenity>)
    ensures
        r == amenity_of(s@),
{
    if is_named(s, "Parking") {
        Some(Amenity::Parking)
    } else if is_named(s, "Pool") {
        Some(Amenity::Pool)
    } else if is_named(s, "Gym") {
        Some(Amenity::Gym)
    } else if is_named(s, "Security") {
        Some(Amenity::Security)
    } else if is_named(s, "Garden") {
        Some(Amenity::Garden)
    } else if is_named(s, "Balcony") {
        Some(Amenity::Balcony)
    } else if is_named(s, "AirConditioning") {
        Some(Amenity::AirConditioning)
    } else if is_named(s, "Heating") {
        Some(Amenity::Heating)
    } else if is_named(s, "Elevator") {
        Some(Amenity::Elevator)
    } else if is_named(s, "Storage") {
        Some(Amenity::Storage)
    } else {
        None
    }
}

/// Reads a list of amenity names, keeping the recognised ones in order.
pub fn parse_amenities(names: &Vec<String>) -> (r: Vec<Amenity>)
    ensures
        r@ == amenities_of(names@),
{
    let mut r: Vec<Amenity> = Vec::new();
    let mut i: usize = 0;
    while i < names.len()
        invariant
            i <= names@.len(),
            r@ == amenities_of(names@.subrange(0, i as int)),
        decreases names@.len() - i,
    {
        let a = parse_amenity(&names[i]);
        proof {
            let next = names@.subrange(0, i + 1);
            assert(next.drop_last() =~= names@.subrange(0, i as int));
        }
        match a {
            Some(x) => r.push(x),
            None => {},
        }
        i = i + 1;
    }
    assert(names@.subrange(0, names@.len() as int) =~= names@);
    r
}

} // verus!
