use vstd::prelude::*;

verus! {

/// An account or contract address, held in its textual (strkey) form.
pub struct Address {
    pub strkey: String,
}

impl View for Address {
    type V = Seq<char>;

    open spec fn view(&self) -> Seq<char> {
        self.strkey@
    }
}

impl Clone for Address {
    fn clone(&self) -> (res: Self)
        ensures
            res@ == self@,
    {
        Address { strkey: self.strkey.clone() }
    }
}

impl Address {
    /// Builds an address from its textual form.
    pub fn from_string(strkey: String) -> (res: Address)
        ensures
            res@ == strkey@,
    {
        Address { strkey }
    }

    /// Two addresses are the same account when their textual forms agree.
    pub fn same_as(&self, other: &Address) -> (res: bool)
        ensures
            res == (self@ == other@),
    {
        self.strkey == other.strkey
    }
}

/// The view of an optional address.
pub open spec fn opt_address_view(a: Option<Address>) -> Option<Seq<char>> {
    match a {
        Some(x) => Some(x@),
        None => None,
    }
}

/// Copies an optional address.
pub fn clone_opt_address(a: &Option<Address>) -> (res: Option<Address>)
    ensures
        opt_address_view(res) == opt_address_view(*a),
{
    match a {
        Some(x) => Some(x.clone()),
        None => None,
    }
}

} // verus!
