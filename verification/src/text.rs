use vstd::prelude::*;
use vstd::string::*;

verus! {

/// An owned copy of `s`.
pub fn owned(s: &str) -> (res: String)
    ensures
        res@ == s@,
{
    let mut res = String::new();
    res.append(s);
    res
}

/// `a` followed by `b`.
pub fn concat2(a: &str, b: &str) -> (res: String)
    ensures
        res@ == a@ + b@,
{
    let mut res = String::new();
    res.append(a);
    res.append(b);
    res
}

} // verus!
