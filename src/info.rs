use vstd::prelude::*;

verus! {

/// Name and description of an object.
pub trait Info {
    /// The name, as a sequence of characters.
    spec fn name_spec(&self) -> Seq<char>;

    /// The description, as a sequence of characters.
    spec fn description_spec(&self) -> Seq<char>;

    /// Name of the object.
    fn name(&self) -> (r: String)
        ensures
            r@ == self.name_spec(),
    ;

    /// Description of the object.
    fn description(&self) -> (r: String)
        ensures
            r@ == self.description_spec(),
    ;
}

} // verus!
