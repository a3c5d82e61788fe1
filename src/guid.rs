//! The identifier of an item, and its builder.
use vstd::prelude::*;

verus! {

/// A string that identifies an item; `is_permalink` says whether it is also
/// the item's address.
pub struct Guid {
    pub value: String,
    pub is_permalink: bool,
}

impl Clone for Guid {
    fn clone(&self) -> (r: Self)
        ensures
            r == *self,
    {
        Guid { value: self.value.clone(), is_permalink: self.is_permalink }
    }
}

impl Guid {
    /// The `value` field.
    pub fn value(&self) -> (r: String)
        ensures
            r == self.value,
    {
        self.value.clone()
    }

    /// The `is_permalink` field.
    pub fn is_permalink(&self) -> (r: bool)
        ensures
            r == self.is_permalink,
    {
        self.is_permalink
    }
}

/// Collects the fields of a [`Guid`].
pub struct GuidBuilder {
    pub value: String,
    pub is_permalink: Option<bool>,
}

/// The guid that a builder yields: a permalink unless set otherwise.
pub open spec fn guid_of(b: GuidBuilder, g: Guid) -> bool {
    &&& g.value == b.value
    &&& g.is_permalink == match b.is_permalink {
        Some(p) => p,
        None => true,
    }
}

impl Default for GuidBuilder {
    /// The same builder as `new` makes.
    fn default() -> (r: GuidBuilder)
        ensures
            r.value@ == Seq::<char>::empty(),
            r.is_permalink is None,
    {
        GuidBuilder::new()
    }
}

impl GuidBuilder {
    /// A builder with an empty value and the permalink flag unset.
    pub fn new() -> (r: GuidBuilder)
        ensures
            r.value@ == Seq::<char>::empty(),
            r.is_permalink is None,
    {
        GuidBuilder { value: String::new(), is_permalink: None }
    }

    /// Sets `value`, as given, and returns the builder.
    pub fn value(&mut self, value: &str) -> (r: &mut GuidBuilder)
        ensures
            r.value@ == value@,
            r.is_permalink == old(self).is_permalink,
            *final(self) == *final(r),
    {
        self.value = value.to_owned();
        self
    }

    /// Sets `is_permalink`, as given, and returns the builder.
    pub fn is_permalink(&mut self, is_permalink: Option<bool>) -> (r: &mut GuidBuilder)
        ensures
            r.value == old(self).value,
            r.is_permalink == is_permalink,
            *final(self) == *final(r),
    {
        self.is_permalink = is_permalink;
        self
    }

    /// A guid has no constraint beyond its value: this always succeeds and
    /// leaves the builder as it was.
    pub fn validate(&mut self) -> (r: Result<&mut GuidBuilder, String>)
        ensures
            r matches Ok(b) && *b == *old(self) && *final(self) == *final(b),
    {
        Ok(self)
    }

    /// Builds the guid; this never fails.
    pub fn finalize(&self) -> (r: Result<Guid, String>)
        ensures
            r matches Ok(g) && guid_of(*self, g),
    {
        let is_permalink = match self.is_permalink {
            Some(p) => p,
            None => true,
        };
        Ok(Guid { value: self.value.clone(), is_permalink })
    }
}

} // verus!
