use vstd::prelude::*;

verus! {

proof fn p2(c: char) {
    assert((c as u32) as char == c);
}

proof fn p3(c: char, v: u32)
    requires
        c as u32 == v,
        v < 32,
{
    assert(v as char == c);
}

} // verus!
