use vstd::prelude::*;
use vstd::string::StringSliceAdditionalSpecFns;

verus! {

/// Whether `s` starts with `p`.
pub open spec fn has_prefix(s: Seq<u8>, p: Seq<u8>) -> bool {
    p.len() <= s.len() && s.take(p.len() as int) == p
}

/// Whether an I2C adapter of this name is one that never leads to a display:
/// SMBus controllers and a few platform buses.
pub open spec fn spec_is_ignored_adapter(name: Seq<u8>) -> bool {
    ||| has_prefix(name, "SMBus".spec_bytes())
    ||| has_prefix(name, "soc:i2cdsi".spec_bytes())
    ||| has_prefix(name, "smu".spec_bytes())
    ||| has_prefix(name, "mac-io".spec_bytes())
    ||| has_prefix(name, "u4".spec_bytes())
}

fn starts_with(s: &[u8], p: &[u8]) -> (r: bool)
    ensures
        r == has_prefix(s@, p@),
{
    if p.len() > s.len() {
        return false;
    }
    let mut i: usize = 0;
    while i < p.len()
        invariant
            p@.len() <= s@.len(),
            i <= p@.len(),
            s@.take(i as int) == p@.take(i as int),
        decreases p@.len() - i,
    {
        if s[i] != p[i] {
            assert(s@.take(p@.len() as int)[i as int] != p@[i as int]);
            return false;
        }
        i = i + 1;
        assert(s@.take(i as int) =~= p@.take(i as int));
    }
    assert(p@.take(i as int) =~= p@);
    true
}

/// Whether an I2C adapter of this name is skipped when looking for displays.
pub fn is_ignored_adapter(name: &[u8]) -> (r: bool)
    ensures
        r == spec_is_ignored_adapter(name@),
{
    starts_with(name, "SMBus".as_bytes()) || starts_with(name, "soc:i2cdsi".as_bytes())
        || starts_with(name, "smu".as_bytes()) || starts_with(name, "mac-io".as_bytes())
        || starts_with(name, "u4".as_bytes())
}

} // verus!
