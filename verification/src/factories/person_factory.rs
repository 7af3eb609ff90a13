//! Sample people.

use vstd::prelude::*;
use crate::builders::person_builder::PersonBuilder;
use crate::person::Person;

verus! {

/// A person with default values.
pub fn basic_person() -> (r: Person)
    ensures
        r.first_name@ == Seq::<char>::empty(),
        r.last_name@ == Seq::<char>::empty(),
{
    PersonBuilder::new().build()
}

/// A person with sample names.
pub fn sample_person() -> (r: Person)
    ensures
        r.first_name@.len() > 0,
        r.last_name@.len() > 0,
{
    let r = PersonBuilder::new().with_first_name("Testy").with_last_name("McTest").build();
    proof {
        reveal_strlit("Testy");
        reveal_strlit("McTest");
    }
    r
}

} // verus!
