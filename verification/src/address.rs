//! A postal address, held as the plain fields the business rules read.

use vstd::prelude::*;

verus! {

/// The address of an organization's seat.
pub struct Address {
    pub country: String,
    pub city: String,
    pub street: String,
    pub number: String,
    pub postal_code: String,
}

impl Address {
    /// Build an address from its parts.
    pub fn new(
        country: String,
        city: String,
        street: String,
        number: String,
        postal_code: String,
    ) -> (a: Address)
        ensures
            a.country@ == country@,
            a.city@ == city@,
            a.street@ == street@,
            a.number@ == number@,
            a.postal_code@ == postal_code@,
    {
        Address { country, city, street, number, postal_code }
    }

    /// The country part.
    pub fn country(&self) -> (s: &String)
        ensures
            s@ == self.country@,
    {
        &self.country
    }

    /// The city part.
    pub fn city(&self) -> (s: &String)
        ensures
            s@ == self.city@,
    {
        &self.city
    }

    /// The street part.
    pub fn street(&self) -> (s: &String)
        ensures
            s@ == self.street@,
    {
        &self.street
    }

    /// The street number part.
    pub fn number(&self) -> (s: &String)
        ensures
            s@ == self.number@,
    {
        &self.number
    }

    /// The postal code part.
    pub fn postal_code(&self) -> (s: &String)
        ensures
            s@ == self.postal_code@,
    {
        &self.postal_code
    }
}

impl Clone for Address {
    /// A clone carries the same parts.
    fn clone(&self) -> (a: Address)
        ensures
            a.country@ == self.country@,
            a.city@ == self.city@,
            a.street@ == self.street@,
            a.number@ == self.number@,
            a.postal_code@ == self.postal_code@,
    {
        Address {
            country: self.country.clone(),
            city: self.city.clone(),
            street: self.street.clone(),
            number: self.number.clone(),
            postal_code: self.postal_code.clone(),
        }
    }
}

} // verus!
