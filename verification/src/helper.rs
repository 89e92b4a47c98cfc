use vstd::prelude::*;

verus! {

/// The empty string, which stands for "no address".
pub fn zero_string() -> (s: String)
    ensures
        s@ == Seq::<char>::empty(),
{
    String::new()
}

/// The empty address, which stands for "nobody".
pub fn zero_address() -> (s: String)
    ensures
        s@ == Seq::<char>::empty(),
{
    String::new()
}

} // verus!
