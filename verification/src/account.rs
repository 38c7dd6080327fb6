use vstd::prelude::*;

verus! {

/// An addressable identity: a 32-byte account address.
///
/// Mathematically an address is its byte sequence, which is what the view
/// returns and what all contracts compare.
#[derive(Clone, Copy, Debug)]
pub struct Address {
    pub bytes: [u8; 32],
}

impl View for Address {
    type V = Seq<u8>;

    open spec fn view(&self) -> Seq<u8> {
        self.bytes@
    }
}

/// Compares two addresses byte for byte.
pub fn address_eq(a: &Address, b: &Address) -> (r: bool)
    ensures
        r == (a@ == b@),
{
    let mut i: usize = 0;
    while i < 32
        invariant
            i <= 32,
            forall|j: int| 0 <= j < i ==> a.bytes@[j] == b.bytes@[j],
        decreases 32 - i,
    {
        if a.bytes[i] != b.bytes[i] {
            assert(a@ != b@);
            return false;
        }
        i += 1;
    }
    assert(a@ =~= b@);
    true
}

/// Copies an address into a freshly allocated byte vector.
pub fn address_to_bytes(a: &Address) -> (r: Vec<u8>)
    ensures
        r@ == a@,
{
    let mut out: Vec<u8> = Vec::new();
    let mut i: usize = 0;
    while i < 32
        invariant
            i <= 32,
            out@.len() == i,
            forall|j: int| 0 <= j < i ==> out@[j] == a.bytes@[j],
        decreases 32 - i,
    {
        out.push(a.bytes[i]);
        i += 1;
    }
    assert(out@ =~= a@);
    out
}

/// How an instruction saw the account that submitted it: its address and
/// whether it signed (approved) this exact instruction.
#[derive(Clone, Copy, Debug)]
pub struct Caller {
    pub address: Address,
    pub is_signer: bool,
}

} // verus!
